# doppler-sdk (verified)

Client library for the doppler oracle program, verified with Verus.

- `src/layout.rs`: the `#[repr(C)]` layout of an oracle account (a `u64`
  sequence number followed by a payload of given size and alignment) and the
  record size that sizes compute units and loaded-account budgets.
- `src/encoding.rs`: little-endian encoding of the sequence number.
- `src/accounts.rs`: payloads, oracles and their byte image (with the
  read/write round-trip laws), the update instruction and its compute units.
- `src/transaction.rs`: the transaction builder, its SIMD-0186 loaded-accounts
  size and compute unit limit, and the instruction plan it signs.
- `src/constants.rs`: program addresses and the budget constants.
- `src/solana.rs`: the trusted boundary: the Solana types carried through and
  the wrappers around the Solana calls.
- `app/lib.rs`: the `Pubkey` constant `ID` and conversion of the library's
  instructions into Solana's.
