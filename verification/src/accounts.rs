//! Oracle accounts, their byte image, and the instruction that updates one.
use vstd::prelude::*;
use vstd::arithmetic::power::pow;
use solana_pubkey::Pubkey;
use crate::constants::{
    id, spec_program_id, ADMIN_VERIFICATION_CU, PAYLOAD_WRITE_CU, SEQUENCE_CHECK_CU,
};
use crate::encoding::{
    lemma_u64_le_bytes_digits, lemma_u64_from_le_bytes_sum, lemma_u64_le_bytes_roundtrip, lemma_u64_le_value_roundtrip, push_u64_le, read_u64_le,
    u64_from_le_bytes, u64_le_bytes,
};
use crate::layout::{sequence_align, PayloadLayout, SEQUENCE_SIZE};

verus! {

/// A payload value as it lies in memory: the layout of its type and its
/// bytes (padding included).
#[derive(Debug)]
pub struct Payload {
    layout: PayloadLayout,
    bytes: Vec<u8>,
}

impl Payload {
    #[verifier::type_invariant]
    closed spec fn inv(self) -> bool {
        self.bytes@.len() == self.layout.spec_size()
    }

    /// The layout of the payload's type.
    pub closed spec fn spec_layout(self) -> PayloadLayout {
        self.layout
    }

    /// The payload's bytes.
    pub closed spec fn spec_bytes(self) -> Seq<u8> {
        self.bytes@
    }

    /// A payload of the given layout holding `bytes`; `None` where the number
    /// of bytes is not the layout's size.
    pub fn new(layout: PayloadLayout, bytes: Vec<u8>) -> (r: Option<Payload>)
        ensures
            r is Some <==> bytes@.len() == layout.spec_size(),
            r matches Some(p) ==> p.spec_layout() == layout && p.spec_bytes() == bytes@,
    {
        if bytes.len() == layout.size() {
            Some(Payload { layout, bytes })
        } else {
            None
        }
    }

    /// The payload of a single `u64` field, such as a price feed.
    pub fn from_u64(value: u64) -> (p: Payload)
        ensures
            p.spec_layout().spec_size() == 8,
            p.spec_layout().spec_align() == sequence_align(),
            p.spec_bytes() == u64_le_bytes(value),
    {
        let mut bytes: Vec<u8> = Vec::new();
        push_u64_le(&mut bytes, value);
        assert(bytes@ =~= u64_le_bytes(value));
        Payload { layout: PayloadLayout::of_u64(), bytes }
    }

    /// The layout of the payload's type.
    pub fn layout(&self) -> (l: PayloadLayout)
        ensures
            l == self.spec_layout(),
    {
        self.layout
    }

    /// The payload's bytes.
    pub fn as_bytes(&self) -> (b: &[u8])
        ensures
            b@ == self.spec_bytes(),
            b@.len() == self.spec_layout().spec_size(),
    {
        proof {
            use_type_invariant(self);
        }
        self.bytes.as_slice()
    }
}

/// What an oracle account holds: its sequence number, the layout of its
/// payload type and the payload's bytes.
pub struct OracleView {
    pub sequence: u64,
    pub layout: PayloadLayout,
    pub payload: Seq<u8>,
}

/// The oracle account's data: a `#[repr(C)]` record of the sequence number
/// (a timestamp, slot height or counter) and the payload.
#[derive(Debug)]
pub struct Oracle {
    pub sequence: u64,
    pub payload: Payload,
}

impl View for Oracle {
    type V = OracleView;

    open spec fn view(&self) -> OracleView {
        OracleView {
            sequence: self.sequence,
            layout: self.payload.spec_layout(),
            payload: self.payload.spec_bytes(),
        }
    }
}

/// The bytes an oracle is written as: the sequence number, little-endian,
/// followed by the payload's bytes.
pub open spec fn oracle_to_bytes(o: OracleView) -> Seq<u8> {
    u64_le_bytes(o.sequence) + o.payload
}

/// The oracle read from account data of a payload layout: the sequence
/// number from the first eight bytes, the payload from the bytes after them.
pub open spec fn oracle_from_bytes(layout: PayloadLayout, data: Seq<u8>) -> OracleView {
    OracleView {
        sequence: u64_from_le_bytes(data) as u64,
        layout,
        payload: data.subrange(SEQUENCE_SIZE as int, SEQUENCE_SIZE + layout.spec_size()),
    }
}

impl Oracle {
    /// The oracle's bytes: the sequence number, little-endian, then the
    /// payload.
    pub fn to_bytes(&self) -> (data: Vec<u8>)
        ensures
            data@ == oracle_to_bytes(self@),
            oracle_wf(self@),
    {
        proof {
            use_type_invariant(&self.payload);
        }
        let mut data: Vec<u8> = Vec::new();
        push_u64_le(&mut data, self.sequence);
        data.extend_from_slice(self.payload.as_bytes());
        assert(data@ =~= oracle_to_bytes(self@));
        data
    }

    /// Reads an oracle of the given payload layout from account data, which
    /// must be exactly as long as the account record.
    pub fn from_bytes(layout: PayloadLayout, data: &[u8]) -> (o: Oracle)
        requires
            data@.len() == layout.spec_record_size(),
        ensures
            o@ == oracle_from_bytes(layout, data@),
            oracle_wf(o@),
    {
        let size = layout.size();
        let sequence = read_u64_le(data);
        let mut bytes: Vec<u8> = Vec::new();
        let end = SEQUENCE_SIZE + size;
        let mut i: usize = SEQUENCE_SIZE;
        while i < end
            invariant
                size == layout.spec_size(),
                end == SEQUENCE_SIZE + size,
                end <= data@.len(),
                SEQUENCE_SIZE <= i <= end,
                bytes@ =~= data@.subrange(SEQUENCE_SIZE as int, i as int),
            decreases end - i,
        {
            bytes.push(data[i]);
            i = i + 1;
        }
        let payload = Payload { layout, bytes };
        Oracle { sequence, payload }
    }
}

/// An account that an instruction reads or writes, and how.
#[derive(Clone, Copy, Debug, PartialEq, Eq)]
pub struct AccountMeta {
    pub pubkey: Pubkey,
    pub is_signer: bool,
    pub is_writable: bool,
}

impl AccountMeta {
    /// A writable account.
    pub fn new(pubkey: Pubkey, is_signer: bool) -> (m: Self)
        ensures
            m == (AccountMeta { pubkey, is_signer, is_writable: true }),
    {
        AccountMeta { pubkey, is_signer, is_writable: true }
    }

    /// A read-only account.
    pub fn new_readonly(pubkey: Pubkey, is_signer: bool) -> (m: Self)
        ensures
            m == (AccountMeta { pubkey, is_signer, is_writable: false }),
    {
        AccountMeta { pubkey, is_signer, is_writable: false }
    }
}

/// What an instruction holds: the program it calls, its accounts in order and
/// its data.
pub struct InstructionView {
    pub program_id: Pubkey,
    pub accounts: Seq<AccountMeta>,
    pub data: Seq<u8>,
}

/// A program call: the program's address, the accounts it is handed and the
/// instruction data.
#[derive(Debug, PartialEq, Eq)]
pub struct Instruction {
    pub program_id: Pubkey,
    pub accounts: Vec<AccountMeta>,
    pub data: Vec<u8>,
}

impl View for Instruction {
    type V = InstructionView;

    open spec fn view(&self) -> InstructionView {
        InstructionView { program_id: self.program_id, accounts: self.accounts@, data: self.data@ }
    }
}

impl Instruction {
    /// A copy of the instruction.
    pub fn duplicate(&self) -> (ix: Instruction)
        ensures
            ix@ == self@,
    {
        let mut accounts: Vec<AccountMeta> = Vec::new();
        let mut i: usize = 0;
        while i < self.accounts.len()
            invariant
                i <= self.accounts@.len(),
                accounts@ =~= self.accounts@.take(i as int),
            decreases self.accounts@.len() - i,
        {
            accounts.push(self.accounts[i]);
            i = i + 1;
        }
        let mut data: Vec<u8> = Vec::new();
        data.extend_from_slice(self.data.as_slice());
        assert(accounts@ =~= self.accounts@);
        assert(data@ =~= self.data@);
        Instruction { program_id: self.program_id, accounts, data }
    }
}

/// Compute units the program spends on one update: the sequence check, the
/// admin check and the payload write, plus a quarter of the record's size
/// (truncated to `u32`).
pub open spec fn update_compute_units(o: OracleView) -> int {
    SEQUENCE_CHECK_CU + ADMIN_VERIFICATION_CU + PAYLOAD_WRITE_CU + ((o.layout.spec_record_size()
        / 4) as u32)
}

/// Data length of the oracle account an update writes: the record's size,
/// truncated to `u32`.
pub open spec fn update_data_len(o: OracleView) -> u32 {
    o.layout.spec_record_size() as u32
}

/// The instruction that writes oracle `o` to the account `oracle_pubkey`,
/// signed by `admin`: the admin is a read-only signer, the oracle account is
/// writable, and the data is the oracle's bytes.
pub open spec fn update_instruction(admin: Pubkey, oracle_pubkey: Pubkey, o: OracleView) -> InstructionView {
    InstructionView {
        program_id: spec_program_id(),
        accounts: seq![
            AccountMeta { pubkey: admin, is_signer: true, is_writable: false },
            AccountMeta { pubkey: oracle_pubkey, is_signer: false, is_writable: true },
        ],
        data: oracle_to_bytes(o),
    }
}

/// An oracle view that some `Oracle` value has: as many payload bytes as its
/// layout's size.
pub open spec fn oracle_wf(o: OracleView) -> bool {
    o.payload.len() == o.layout.spec_size()
}

/// Reading back what `to_bytes` wrote gives the oracle again, for every
/// payload layout whose record has no padding (the record size is the eight
/// sequence bytes plus the payload size). Where the record is padded, the
/// written bytes are shorter than the record and `from_bytes` refuses them.
pub proof fn lemma_from_bytes_inverts_to_bytes(o: OracleView)
    requires
        oracle_wf(o),
        o.layout.spec_record_size() == SEQUENCE_SIZE + o.layout.spec_size(),
    ensures
        oracle_to_bytes(o).len() == o.layout.spec_record_size(),
        oracle_from_bytes(o.layout, oracle_to_bytes(o)) == o,
{
    let data = oracle_to_bytes(o);
    lemma_u64_le_value_roundtrip(o.sequence);
    assert(data.take(8) =~= u64_le_bytes(o.sequence));
    assert(u64_from_le_bytes(data) == u64_from_le_bytes(u64_le_bytes(o.sequence)));
    assert(data.subrange(SEQUENCE_SIZE as int, SEQUENCE_SIZE + o.layout.spec_size()) =~= o.payload);
}

/// Writing what `from_bytes` read gives the account data again, for every
/// payload layout whose record has no padding.
pub proof fn lemma_to_bytes_inverts_from_bytes(layout: PayloadLayout, data: Seq<u8>)
    requires
        data.len() == layout.spec_record_size(),
        layout.spec_record_size() == SEQUENCE_SIZE + layout.spec_size(),
    ensures
        oracle_wf(oracle_from_bytes(layout, data)),
        oracle_to_bytes(oracle_from_bytes(layout, data)) == data,
{
    let head = data.take(8);
    lemma_u64_le_bytes_roundtrip(head);
    assert(u64_from_le_bytes(head) == u64_from_le_bytes(data));
    assert(oracle_to_bytes(oracle_from_bytes(layout, data)) =~= data);
}

/// The bytes of an oracle are the eight base-256 digits of its sequence
/// number, least significant first, then its payload right after them:
/// eight bytes more than the payload, whatever the layout's padding.
pub proof fn lemma_to_bytes_layout(o: OracleView)
    requires
        oracle_wf(o),
    ensures
        oracle_to_bytes(o).len() == 8 + o.layout.spec_size(),
        forall|i: int|
            0 <= i < 8 ==> #[trigger] oracle_to_bytes(o)[i] == (o.sequence as int / pow(
                256,
                i as nat,
            )) % 256,
        oracle_to_bytes(o).subrange(8, 8 + o.layout.spec_size() as int) == o.payload,
{
    lemma_u64_le_bytes_digits(o.sequence);
    let data = oracle_to_bytes(o);
    assert forall|i: int| 0 <= i < 8 implies #[trigger] data[i] == (o.sequence as int / pow(
        256,
        i as nat,
    )) % 256 by {
        assert(data[i] == u64_le_bytes(o.sequence)[i]);
    }
    assert(data.subrange(8, 8 + o.layout.spec_size() as int) =~= o.payload);
}

/// Reading account data reads the sequence number as the sum of its first
/// eight bytes weighed by powers of 256, and the payload as the bytes right
/// after those eight, whatever padding follows.
pub proof fn lemma_from_bytes_fields(layout: PayloadLayout, data: Seq<u8>)
    requires
        data.len() == layout.spec_record_size(),
        layout.spec_record_size() >= 8 + layout.spec_size(),
    ensures
        oracle_from_bytes(layout, data).sequence == data[0] * pow(256, 0) + data[1] * pow(256, 1)
            + data[2] * pow(256, 2) + data[3] * pow(256, 3) + data[4] * pow(256, 4) + data[5] * pow(
            256,
            5,
        ) + data[6] * pow(256, 6) + data[7] * pow(256, 7),
        oracle_from_bytes(layout, data).layout == layout,
        oracle_from_bytes(layout, data).payload.len() == layout.spec_size(),
        forall|i: int|
            0 <= i < layout.spec_size() ==> #[trigger] oracle_from_bytes(layout, data).payload[i]
                == data[8 + i],
{
    lemma_u64_from_le_bytes_sum(data);
    lemma_u64_le_bytes_roundtrip(data.take(8));
    assert(u64_from_le_bytes(data.take(8)) == u64_from_le_bytes(data));
}

/// Account data that holds an oracle's bytes followed by any padding up to
/// the record's size reads back as that oracle, for every layout, padded
/// records included.
pub proof fn lemma_from_bytes_reads_padded_record(o: OracleView, padding: Seq<u8>)
    requires
        oracle_wf(o),
        SEQUENCE_SIZE + o.layout.spec_size() + padding.len() == o.layout.spec_record_size(),
    ensures
        oracle_from_bytes(o.layout, oracle_to_bytes(o) + padding) == o,
{
    let data = oracle_to_bytes(o) + padding;
    lemma_u64_le_value_roundtrip(o.sequence);
    assert(data.take(8) =~= u64_le_bytes(o.sequence));
    assert(u64_from_le_bytes(data) == u64_from_le_bytes(u64_le_bytes(o.sequence)));
    assert(data.subrange(SEQUENCE_SIZE as int, SEQUENCE_SIZE + o.layout.spec_size()) =~= o.payload);
}

/// An update costs 5 + 6 + 6 compute units (sequence check, admin check,
/// payload write), plus one for every whole four bytes of its account
/// record, truncated to `u32`.
pub proof fn lemma_update_compute_units(o: OracleView)
    ensures
        update_compute_units(o) == 5 + 6 + 6 + ((o.layout.spec_record_size() / 4) as u32),
{
}

/// The data an update loads is its oracle account's whole record, padding
/// included, truncated to `u32`.
pub proof fn lemma_update_data_len(o: OracleView)
    ensures
        update_data_len(o) == (o.layout.spec_record_size() as u32),
{
}

/// The update instruction calls the doppler program with two accounts: the
/// admin as read-only signer, then the oracle account as writable
/// non-signer; its data is the oracle's eight sequence bytes and payload.
pub proof fn lemma_update_instruction_shape(admin: Pubkey, oracle_pubkey: Pubkey, o: OracleView)
    requires
        oracle_wf(o),
    ensures
        update_instruction(admin, oracle_pubkey, o).program_id == spec_program_id(),
        update_instruction(admin, oracle_pubkey, o).accounts.len() == 2,
        update_instruction(admin, oracle_pubkey, o).accounts[0].pubkey == admin,
        update_instruction(admin, oracle_pubkey, o).accounts[0].is_signer,
        !update_instruction(admin, oracle_pubkey, o).accounts[0].is_writable,
        update_instruction(admin, oracle_pubkey, o).accounts[1].pubkey == oracle_pubkey,
        !update_instruction(admin, oracle_pubkey, o).accounts[1].is_signer,
        update_instruction(admin, oracle_pubkey, o).accounts[1].is_writable,
        update_instruction(admin, oracle_pubkey, o).data.len() == 8 + o.layout.spec_size(),
        update_instruction(admin, oracle_pubkey, o).data.subrange(
            8,
            8 + o.layout.spec_size() as int,
        ) == o.payload,
{
    lemma_to_bytes_layout(o);
}

/// An update of the oracle account `oracle_pubkey` to `oracle`, by `admin`.
pub struct UpdateInstruction {
    pub admin: Pubkey,
    pub oracle_pubkey: Pubkey,
    pub oracle: Oracle,
}

impl UpdateInstruction {
    /// Compute units the program spends on this update.
    pub fn compute_units(&self) -> (cu: u32)
        requires
            update_compute_units(self.oracle@) <= u32::MAX,
        ensures
            cu == update_compute_units(self.oracle@),
    {
        let record_size = self.oracle.payload.layout().record_size();
        SEQUENCE_CHECK_CU + ADMIN_VERIFICATION_CU + PAYLOAD_WRITE_CU + (record_size / 4) as u32
    }

    /// Byte length of this update's oracle account data.
    pub fn oracle_data_len(&self) -> (len: u32)
        ensures
            len == update_data_len(self.oracle@),
    {
        self.oracle.payload.layout().record_size() as u32
    }

    /// The program instruction that carries this update.
    pub fn into_instruction(self) -> (ix: Instruction)
        ensures
            ix@ == update_instruction(self.admin, self.oracle_pubkey, self.oracle@),
    {
        let data = self.oracle.to_bytes();
        let accounts = vec![
            AccountMeta::new_readonly(self.admin, true),
            AccountMeta::new(self.oracle_pubkey, false),
        ];
        let ix = Instruction { program_id: id(), accounts, data };
        assert(ix@.accounts =~= update_instruction(self.admin, self.oracle_pubkey, self.oracle@).accounts);
        ix
    }
}

} // verus!
