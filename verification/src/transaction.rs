//! Building the transaction that sends oracle updates, with its compute unit
//! limit and its loaded-accounts data size limit computed from constants.
use vstd::prelude::*;
use solana_keypair::Keypair;
use solana_pubkey::Pubkey;
use solana_transaction::Transaction;
use crate::accounts::{
    oracle_to_bytes, update_compute_units, update_data_len, update_instruction, AccountMeta, Instruction,
    InstructionView, Oracle, OracleView, UpdateInstruction,
};
use crate::constants::{
    compute_budget_program_id, id, spec_compute_budget_program_id, spec_program_id,
    ACCOUNT_METADATA, COMPUTE_BUDGET_IX_CU, COMPUTE_BUDGET_PROGRAM_SIZE,
    DOPPLER_PROGRAM_DATA_SIZE, DOPPLER_PROGRAM_SIZE,
};
use crate::encoding::{u32_le_bytes, u64_le_bytes};
use crate::solana::{
    keypair_public_key, keypair_pubkey, pubkey_eq, set_compute_unit_limit,
    set_compute_unit_price, set_loaded_accounts_data_size_limit, sign_transaction,
    signed_transaction,
};

verus! {

/// An instruction for the compute budget program: no accounts, and the data
/// `discriminator` followed by the argument's bytes.
pub open spec fn compute_budget_instruction(discriminator: u8, arg: Seq<u8>) -> InstructionView {
    InstructionView {
        program_id: spec_compute_budget_program_id(),
        accounts: Seq::empty(),
        data: seq![discriminator] + arg,
    }
}

/// The instructions name `k`, as the program of one or as one of its
/// accounts.
pub open spec fn names_key(ixs: Seq<InstructionView>, k: Pubkey) -> bool {
    exists|i: int|
        0 <= i < ixs.len() && ((#[trigger] ixs[i]).program_id == k || exists|j: int|
            0 <= j < ixs[i].accounts.len() && (#[trigger] ixs[i].accounts[j]).pubkey == k)
}

/// Some account of the instructions with key `k` signs or is written.
pub open spec fn signs_or_writes(ixs: Seq<InstructionView>, k: Pubkey) -> bool {
    exists|i: int, j: int|
        0 <= i < ixs.len() && 0 <= j < ixs[i].accounts.len() && (#[trigger] ixs[i].accounts[j]).pubkey
            == k && (ixs[i].accounts[j].is_signer || ixs[i].accounts[j].is_writable)
}

/// The keys of a message of these instructions paid by `payer`: the payer
/// and every key the instructions name.
pub open spec fn message_keys(ixs: Seq<InstructionView>, payer: Pubkey) -> Set<Pubkey> {
    Set::new(|k: Pubkey| k == payer || names_key(ixs, k))
}

/// The read-only unsigned keys of a message of these instructions paid by
/// `payer`: the keys it names that neither pay, sign nor are written.
pub open spec fn readonly_unsigned_keys(ixs: Seq<InstructionView>, payer: Pubkey) -> Set<Pubkey> {
    Set::new(|k: Pubkey| k != payer && names_key(ixs, k) && !signs_or_writes(ixs, k))
}

/// Accounts every doppler update transaction loads whatever its updates, by
/// key: the fee payer (the admin), the compute budget program and the doppler
/// program. (The programdata account is loaded too; its address is not known
/// here.)
pub open spec fn is_fixed_account(key: Pubkey, admin: Pubkey) -> bool {
    key == admin || key == spec_program_id() || key == spec_compute_budget_program_id()
}

/// The oracle accounts of the updates, in order.
pub open spec fn oracle_keys(oracles: Seq<(Pubkey, OracleView)>) -> Seq<Pubkey> {
    oracles.map_values(|u: (Pubkey, OracleView)| u.0)
}

/// An update of `key` after `oracles` loads one more account: `key` is
/// neither a fixed account nor the oracle account of an earlier update.
pub open spec fn loads_new_account(
    oracles: Seq<(Pubkey, OracleView)>,
    key: Pubkey,
    admin: Pubkey,
) -> bool {
    !is_fixed_account(key, admin) && !oracle_keys(oracles).contains(key)
}

/// Data lengths of the oracle accounts the updates load, each account once:
/// an update of an account already loaded adds none.
pub open spec fn loaded_oracle_data_lens(oracles: Seq<(Pubkey, OracleView)>, admin: Pubkey) -> Seq<
    int,
>
    decreases oracles.len(),
{
    if oracles.len() == 0 {
        Seq::empty()
    } else {
        let rest = oracles.drop_last();
        let lens = loaded_oracle_data_lens(rest, admin);
        if loads_new_account(rest, oracles.last().0, admin) {
            lens.push(update_data_len(oracles.last().1) as int)
        } else {
            lens
        }
    }
}

/// Data lengths of the accounts loaded whatever the updates: the fee payer,
/// the compute budget program, the doppler program and its programdata.
pub open spec fn fixed_account_data_lens() -> Seq<int> {
    seq![
        0int,
        COMPUTE_BUDGET_PROGRAM_SIZE as int,
        DOPPLER_PROGRAM_SIZE as int,
        DOPPLER_PROGRAM_DATA_SIZE as int,
    ]
}

/// Data lengths of the unique accounts a doppler update transaction loads:
/// the fixed accounts, then each oracle account once.
pub open spec fn loaded_account_data_lens(oracles: Seq<(Pubkey, OracleView)>, admin: Pubkey) -> Seq<
    int,
> {
    fixed_account_data_lens() + loaded_oracle_data_lens(oracles, admin)
}

/// SIMD-0186 size of loaded accounts: each account counts its data length
/// plus `ACCOUNT_METADATA` bytes.
pub open spec fn metered_size(lens: Seq<int>) -> int
    decreases lens.len(),
{
    if lens.len() == 0 {
        0
    } else {
        metered_size(lens.drop_last()) + lens.last() + ACCOUNT_METADATA
    }
}

/// Compute units of a list of updates: the sum of each one's.
pub open spec fn updates_compute_units(oracles: Seq<(Pubkey, OracleView)>) -> int
    decreases oracles.len(),
{
    if oracles.len() == 0 {
        0
    } else {
        updates_compute_units(oracles.drop_last()) + update_compute_units(oracles.last().1)
    }
}

/// The metered size of two lists of accounts together is the sum of theirs.
pub proof fn lemma_metered_size_append(a: Seq<int>, b: Seq<int>)
    ensures
        metered_size(a + b) == metered_size(a) + metered_size(b),
    decreases b.len(),
{
    if b.len() == 0 {
        assert(a + b =~= a);
    } else {
        lemma_metered_size_append(a, b.drop_last());
        assert((a + b).drop_last() =~= a + b.drop_last());
    }
}

/// The loaded size is the 1503 bytes of the fixed accounts plus, for each
/// unique oracle account, its data length and `ACCOUNT_METADATA`.
pub proof fn lemma_loaded_size_sums_accounts(oracles: Seq<(Pubkey, OracleView)>, admin: Pubkey)
    ensures
        metered_size(loaded_account_data_lens(oracles, admin)) == 1503 + metered_size(
            loaded_oracle_data_lens(oracles, admin),
        ),
{
    lemma_metered_size_append(fixed_account_data_lens(), loaded_oracle_data_lens(oracles, admin));
    reveal_with_fuel(metered_size, 5);
}

proof fn lemma_uniform_oracle_lens(
    oracles: Seq<(Pubkey, OracleView)>,
    admin: Pubkey,
    len: u32,
)
    requires
        forall|i: int| 0 <= i < oracles.len() ==> update_data_len(#[trigger] oracles[i].1) == len,
        forall|i: int| 0 <= i < oracles.len() ==> !is_fixed_account(#[trigger] oracles[i].0, admin),
        forall|i: int, j: int|
            0 <= i < j < oracles.len() ==> (#[trigger] oracles[i]).0 != (#[trigger] oracles[j]).0,
    ensures
        metered_size(loaded_oracle_data_lens(oracles, admin)) == oracles.len() * (len
            + ACCOUNT_METADATA),
    decreases oracles.len(),
{
    if oracles.len() > 0 {
        let rest = oracles.drop_last();
        let last = oracles.last();
        lemma_uniform_oracle_lens(rest, admin, len);
        assert(!oracle_keys(rest).contains(last.0)) by {
            if oracle_keys(rest).contains(last.0) {
                let k = choose|k: int| 0 <= k < rest.len() && oracle_keys(rest)[k] == last.0;
                assert(oracles[k].0 == oracles[oracles.len() - 1].0);
            }
        }
        assert(!is_fixed_account(oracles[oracles.len() - 1].0, admin));
        let lens = loaded_oracle_data_lens(rest, admin);
        assert(loaded_oracle_data_lens(oracles, admin).drop_last() =~= lens);
        assert(update_data_len(oracles[oracles.len() - 1].1) == len);
        assert(oracles.len() * (len + ACCOUNT_METADATA) == rest.len() * (len + ACCOUNT_METADATA)
            + (len + ACCOUNT_METADATA)) by (nonlinear_arith)
            requires
                oracles.len() == rest.len() + 1,
        ;
    }
}

/// With `n` updates of distinct oracle accounts, none of them a fixed
/// account, each of data length `len`, the loaded size is
/// `1503 + n * (len + 64)`.
pub proof fn lemma_loaded_size_of_uniform_oracles(
    oracles: Seq<(Pubkey, OracleView)>,
    admin: Pubkey,
    len: u32,
)
    requires
        forall|i: int| 0 <= i < oracles.len() ==> update_data_len(#[trigger] oracles[i].1) == len,
        forall|i: int| 0 <= i < oracles.len() ==> !is_fixed_account(#[trigger] oracles[i].0, admin),
        forall|i: int, j: int|
            0 <= i < j < oracles.len() ==> (#[trigger] oracles[i]).0 != (#[trigger] oracles[j]).0,
    ensures
        metered_size(loaded_account_data_lens(oracles, admin)) == 1503 + oracles.len() * (len
            + ACCOUNT_METADATA),
{
    lemma_uniform_oracle_lens(oracles, admin, len);
    lemma_loaded_size_sums_accounts(oracles, admin);
}

/// Updates whose records are all `record` bytes cost, together, 17 + record / 4
/// compute units each.
proof fn lemma_updates_compute_units_uniform(oracles: Seq<(Pubkey, OracleView)>, record: int)
    requires
        0 <= record / 4 <= u32::MAX,
        forall|i: int|
            0 <= i < oracles.len() ==> (#[trigger] oracles[i]).1.layout.spec_record_size() == record,
    ensures
        updates_compute_units(oracles) == oracles.len() * (17 + record / 4),
    decreases oracles.len(),
{
    if oracles.len() > 0 {
        let rest = oracles.drop_last();
        lemma_updates_compute_units_uniform(rest, record);
        assert(oracles[oracles.len() - 1].1.layout.spec_record_size() == record);
        assert(oracles.len() * (17 + record / 4) == rest.len() * (17 + record / 4) + (17 + record
            / 4)) by (nonlinear_arith)
            requires
                oracles.len() == rest.len() + 1,
        ;
    }
}

/// With `n` updates whose records are all `record` bytes, the compute unit
/// limit is 300 for the two limit instructions, 150 more with a price, and
/// 17 + record / 4 for each update.
pub proof fn lemma_compute_unit_limit_of_uniform_oracles(b: Builder, record: int)
    requires
        0 <= record / 4 <= u32::MAX,
        forall|i: int|
            0 <= i < b.spec_oracles().len() ==> (#[trigger] b.spec_oracles()[i]).1.layout.spec_record_size()
                == record,
    ensures
        b.spec_compute_unit_limit() == 300 + (if b.spec_unit_price() is Some {
            150int
        } else {
            0int
        }) + b.spec_oracles().len() * (17 + record / 4),
{
    lemma_updates_compute_units_uniform(b.spec_oracles(), record);
}

/// The compute unit limit a builder requests is 150 for each compute budget
/// instruction of its transaction plus the compute units of its updates.
pub proof fn lemma_compute_unit_limit_counts_instructions(b: Builder)
    ensures
        b.spec_compute_unit_limit() == COMPUTE_BUDGET_IX_CU * (b.spec_instructions().len()
            - b.spec_oracles().len()) + updates_compute_units(b.spec_oracles()),
{
}

/// With updates of distinct oracle accounts, none of them a fixed account,
/// every oracle account is loaded once, in the order added, so the loaded
/// size is 1503 plus, for each update, its data length and
/// `ACCOUNT_METADATA`.
pub proof fn lemma_loaded_size_of_distinct_oracles(
    oracles: Seq<(Pubkey, OracleView)>,
    admin: Pubkey,
)
    requires
        forall|i: int| 0 <= i < oracles.len() ==> !is_fixed_account(#[trigger] oracles[i].0, admin),
        forall|i: int, j: int|
            0 <= i < j < oracles.len() ==> (#[trigger] oracles[i]).0 != (#[trigger] oracles[j]).0,
    ensures
        loaded_oracle_data_lens(oracles, admin) == oracles.map_values(
            |u: (Pubkey, OracleView)| update_data_len(u.1) as int,
        ),
        metered_size(loaded_account_data_lens(oracles, admin)) == 1503 + metered_size(
            oracles.map_values(|u: (Pubkey, OracleView)| update_data_len(u.1) as int),
        ),
    decreases oracles.len(),
{
    if oracles.len() > 0 {
        let rest = oracles.drop_last();
        let last = oracles.last();
        lemma_loaded_size_of_distinct_oracles(rest, admin);
        assert(!oracle_keys(rest).contains(last.0)) by {
            if oracle_keys(rest).contains(last.0) {
                let k = choose|k: int| 0 <= k < rest.len() && oracle_keys(rest)[k] == last.0;
                assert(oracles[k].0 == oracles[oracles.len() - 1].0);
            }
        }
        assert(!is_fixed_account(oracles[oracles.len() - 1].0, admin));
        assert(oracles.map_values(|u: (Pubkey, OracleView)| update_data_len(u.1) as int)
            =~= rest.map_values(|u: (Pubkey, OracleView)| update_data_len(u.1) as int).push(
            update_data_len(last.1) as int,
        ));
    } else {
        assert(oracles.map_values(|u: (Pubkey, OracleView)| update_data_len(u.1) as int)
            =~= Seq::<int>::empty());
    }
    lemma_loaded_size_sums_accounts(oracles, admin);
}

/// An update's compute units and data length depend only on its payload's
/// layout, never on keys, sequence number or payload bytes.
pub proof fn lemma_update_costs_depend_on_layout(o1: OracleView, o2: OracleView)
    requires
        o1.layout == o2.layout,
    ensures
        update_compute_units(o1) == update_compute_units(o2),
        update_data_len(o1) == update_data_len(o2),
{
}

/// The transaction's instructions, in order: the compute budget
/// instructions (the price, with the last price set, where one is set; the
/// data size limit carrying the loaded size; the compute unit limit carrying
/// the compute units, 150 more with a price), then the update instruction of
/// each oracle in the order added.
pub proof fn lemma_instruction_plan(b: Builder)
    ensures
        b.spec_instructions().len() == b.spec_budget_instruction_count()
            + b.spec_oracles().len(),
        b.spec_unit_price() matches Some(p) ==> b.spec_instructions()[0]
            == compute_budget_instruction(3, u64_le_bytes(p)),
        b.spec_instructions()[b.spec_budget_instruction_count() - 2] == compute_budget_instruction(
            4,
            u32_le_bytes(b.spec_loaded_size() as u32),
        ),
        b.spec_instructions()[b.spec_budget_instruction_count() - 1] == compute_budget_instruction(
            2,
            u32_le_bytes(b.spec_compute_unit_limit() as u32),
        ),
        forall|i: int|
            0 <= i < b.spec_budget_instruction_count() ==> (#[trigger] b.spec_instructions()[i]).program_id
                == spec_compute_budget_program_id() && b.spec_instructions()[i].accounts.len() == 0
                && b.spec_instructions()[i].data.len() <= 9,
        forall|i: int|
            0 <= i < b.spec_oracles().len() ==> #[trigger] b.spec_instructions()[b.spec_budget_instruction_count() + i]
                == update_instruction(b.spec_admin(), b.spec_oracles()[i].0, b.spec_oracles()[i].1),
{
    let plan = b.spec_instructions();
    let nb = b.spec_budget_instruction_count();
    assert forall|i: int| 0 <= i < b.spec_oracles().len() implies #[trigger] plan[nb + i]
        == update_instruction(b.spec_admin(), b.spec_oracles()[i].0, b.spec_oracles()[i].1) by {}
}

/// The keys of the transaction's message are the admin, the two programs and
/// the oracle accounts: at most three more than the updates.
pub proof fn lemma_message_keys_bound(b: Builder)
    ensures
        message_keys(b.spec_instructions(), b.spec_admin()).finite(),
        message_keys(b.spec_instructions(), b.spec_admin()).len() <= 3 + b.spec_oracles().len(),
{
    lemma_instruction_plan(b);
    let plan = b.spec_instructions();
    let admin = b.spec_admin();
    let nb = b.spec_budget_instruction_count();
    let keys = message_keys(plan, admin);
    let fixed = Set::<Pubkey>::empty().insert(admin).insert(spec_compute_budget_program_id()).insert(
        spec_program_id(),
    );
    let oracle_set = oracle_keys(b.spec_oracles()).to_set();
    assert forall|k: Pubkey| keys.contains(k) implies fixed.union(oracle_set).contains(k) by {
        if k != admin {
            let i = choose|i: int|
                0 <= i < plan.len() && ((#[trigger] plan[i]).program_id == k || exists|j: int|
                    0 <= j < plan[i].accounts.len() && (#[trigger] plan[i].accounts[j]).pubkey == k);
            if i >= nb {
                assert(plan[nb + (i - nb)] == plan[i]);
                if plan[i].program_id != k {
                    let j = choose|j: int|
                        0 <= j < plan[i].accounts.len() && (#[trigger] plan[i].accounts[j]).pubkey
                            == k;
                    assert(oracle_keys(b.spec_oracles())[i - nb] == k);
                }
            }
        }
    }
    assert(fixed.finite() && fixed.len() <= 3) by {
        broadcast use vstd::set::axiom_set_empty_finite, vstd::set::axiom_set_empty_len,
            vstd::set::axiom_set_insert_finite, vstd::set::axiom_set_insert_len;

    }
    oracle_keys(b.spec_oracles()).lemma_cardinality_of_set();
    vstd::seq_lib::seq_to_set_is_finite(oracle_keys(b.spec_oracles()));
    vstd::set_lib::lemma_len_union(fixed, oracle_set);
    assert(fixed.union(oracle_set).finite()) by {
        broadcast use vstd::set::axiom_set_union_finite;

    }
    vstd::set_lib::lemma_len_subset(keys, fixed.union(oracle_set));
}

/// Builders with the same admin keypair, updates and price plan the same
/// instructions, and so sign the same transaction for a blockhash.
pub proof fn lemma_equal_builders_build_equal(b1: Builder, b2: Builder, h: solana_hash::Hash)
    requires
        b1.spec_admin() == b2.spec_admin(),
        b1.spec_admin_keypair() == b2.spec_admin_keypair(),
        b1.spec_oracles() == b2.spec_oracles(),
        b1.spec_unit_price() == b2.spec_unit_price(),
    ensures
        b1.spec_instructions() == b2.spec_instructions(),
        signed_transaction(b1.spec_instructions(), b1.spec_admin(), b1.spec_admin_keypair(), h)
            == signed_transaction(b2.spec_instructions(), b2.spec_admin(), b2.spec_admin_keypair(), h),
{
}

/// Builds a transaction of oracle updates signed by the admin, with a compute
/// unit limit and a loaded-accounts data size limit that fit the updates.
pub struct Builder<'a> {
    oracle_update_ixs: Vec<Instruction>,
    admin: &'a Keypair,
    /// The admin keypair's public key, read once when the builder is made.
    admin_pubkey: Pubkey,
    unit_price: Option<u64>,
    compute_units: u32,
    loaded_account_data_size: u32,
    /// The updates added so far: oracle account and oracle.
    oracles: Ghost<Seq<(Pubkey, OracleView)>>,
}

impl<'a> Builder<'a> {
    #[verifier::type_invariant]
    closed spec fn inv(self) -> bool {
        &&& self.oracle_update_ixs@.len() == self.oracles@.len()
        &&& forall|i: int|
            0 <= i < self.oracles@.len() ==> (#[trigger] self.oracle_update_ixs@[i])@
                == update_instruction(self.admin_pubkey, self.oracles@[i].0, self.oracles@[i].1)
        &&& self.compute_units == self.spec_compute_units()
        &&& self.loaded_account_data_size == self.spec_loaded_size()
        &&& self.admin_pubkey == keypair_public_key(*self.admin)
    }

    /// The admin keypair: the only signer.
    pub closed spec fn spec_admin_keypair(self) -> Keypair {
        *self.admin
    }

    /// The admin's public key: signer of every update and fee payer.
    pub closed spec fn spec_admin(self) -> Pubkey {
        self.admin_pubkey
    }

    /// The updates added so far, in order: oracle account and oracle.
    pub closed spec fn spec_oracles(self) -> Seq<(Pubkey, OracleView)> {
        self.oracles@
    }

    /// The compute unit price, if one was set.
    pub closed spec fn spec_unit_price(self) -> Option<u64> {
        self.unit_price
    }

    /// Compute units before the price instruction: two compute budget
    /// instructions and the updates.
    pub open spec fn spec_compute_units(self) -> int {
        2 * COMPUTE_BUDGET_IX_CU + updates_compute_units(self.spec_oracles())
    }

    /// The loaded-accounts data size the transaction requests: the SIMD-0186
    /// size of the accounts it loads.
    pub open spec fn spec_loaded_size(self) -> int {
        metered_size(loaded_account_data_lens(self.spec_oracles(), self.spec_admin()))
    }

    /// The compute unit limit the transaction requests: the compute units,
    /// and one more compute budget instruction where a price is set.
    pub open spec fn spec_compute_unit_limit(self) -> int {
        self.spec_compute_units() + if self.spec_unit_price() is Some {
            COMPUTE_BUDGET_IX_CU as int
        } else {
            0
        }
    }

    /// How many compute budget instructions open the transaction: the data
    /// size limit and the compute unit limit, and the price where one is set.
    pub open spec fn spec_budget_instruction_count(self) -> int {
        if self.spec_unit_price() is Some {
            3
        } else {
            2
        }
    }

    /// The transaction's instructions in order: the price (if set), the data
    /// size limit, the compute unit limit, then one update per oracle.
    pub open spec fn spec_instructions(self) -> Seq<InstructionView> {
        let price = match self.spec_unit_price() {
            Some(p) => seq![compute_budget_instruction(3, u64_le_bytes(p))],
            None => Seq::empty(),
        };
        price + seq![
            compute_budget_instruction(4, u32_le_bytes(self.spec_loaded_size() as u32)),
            compute_budget_instruction(2, u32_le_bytes(self.spec_compute_unit_limit() as u32)),
        ] + self.spec_oracles().map_values(
            |u: (Pubkey, OracleView)| update_instruction(self.spec_admin(), u.0, u.1),
        )
    }

    /// A builder for updates signed by `admin`, with no update and no price.
    pub fn new(admin: &'a Keypair) -> (b: Self)
        ensures
            b.spec_admin_keypair() == *admin,
            b.spec_admin() == keypair_public_key(*admin),
            b.spec_oracles() == Seq::<(Pubkey, OracleView)>::empty(),
            b.spec_unit_price() is None,
            b.spec_compute_units() == 2 * COMPUTE_BUDGET_IX_CU,
            b.spec_loaded_size() == 4 * ACCOUNT_METADATA + COMPUTE_BUDGET_PROGRAM_SIZE
                + DOPPLER_PROGRAM_SIZE + DOPPLER_PROGRAM_DATA_SIZE,
    {
        let admin_pubkey = keypair_pubkey(admin);
        let ghost oracles = Seq::<(Pubkey, OracleView)>::empty();
        assert(loaded_account_data_lens(oracles, admin_pubkey) =~= fixed_account_data_lens());
        reveal_with_fuel(metered_size, 5);
        Builder {
            oracle_update_ixs: Vec::new(),
            admin,
            admin_pubkey,
            unit_price: None,
            compute_units: COMPUTE_BUDGET_IX_CU * 2,
            loaded_account_data_size: 4 * ACCOUNT_METADATA + COMPUTE_BUDGET_PROGRAM_SIZE
                + DOPPLER_PROGRAM_SIZE + DOPPLER_PROGRAM_DATA_SIZE,
            oracles: Ghost(oracles),
        }
    }

    /// The oracle account of some update added so far is `key`.
    fn has_oracle_account(&self, key: &Pubkey) -> (r: bool)
        ensures
            r == oracle_keys(self.spec_oracles()).contains(*key),
    {
        proof {
            use_type_invariant(self);
        }
        let n = self.oracle_update_ixs.len();
        let mut i: usize = 0;
        while i < n
            invariant
                n == self.oracle_update_ixs@.len(),
                n == self.oracles@.len(),
                i <= n,
                forall|k: int| 0 <= k < n ==> (#[trigger] self.oracle_update_ixs@[k])@
                    == update_instruction(self.admin_pubkey, self.oracles@[k].0, self.oracles@[k].1),
                forall|k: int| 0 <= k < i ==> (#[trigger] self.oracles@[k]).0 != *key,
            decreases n - i,
        {
            let ix = &self.oracle_update_ixs[i];
            assert(ix@ == update_instruction(
                self.admin_pubkey,
                self.oracles@[i as int].0,
                self.oracles@[i as int].1,
            ));
            if pubkey_eq(&ix.accounts[1].pubkey, key) {
                assert(oracle_keys(self.spec_oracles())[i as int] == *key);
                return true;
            }
            i = i + 1;
        }
        assert(!oracle_keys(self.spec_oracles()).contains(*key)) by {
            if oracle_keys(self.spec_oracles()).contains(*key) {
                let k = choose|k: int|
                    0 <= k < n && oracle_keys(self.spec_oracles())[k] == *key;
                assert(self.oracles@[k].0 == *key);
            }
        }
        false
    }

    /// Adds an update of the oracle account `oracle_pubkey` to `oracle`: its
    /// compute units join the total; where its oracle account is not loaded
    /// yet (neither a fixed account nor the oracle of an earlier update), that
    /// account adds its data length plus `ACCOUNT_METADATA` to the loaded
    /// size, and otherwise the loaded size stays.
    pub fn add_oracle_update(self, oracle_pubkey: Pubkey, oracle: Oracle) -> (b: Self)
        requires
            self.spec_compute_units() + update_compute_units(oracle@) <= u32::MAX,
            loads_new_account(self.spec_oracles(), oracle_pubkey, self.spec_admin())
                ==> self.spec_loaded_size() + update_data_len(oracle@) + ACCOUNT_METADATA
                <= u32::MAX,
        ensures
            b.spec_admin() == self.spec_admin(),
            b.spec_admin_keypair() == self.spec_admin_keypair(),
            b.spec_unit_price() == self.spec_unit_price(),
            b.spec_oracles() == self.spec_oracles().push((oracle_pubkey, oracle@)),
            b.spec_compute_units() == self.spec_compute_units() + update_compute_units(oracle@),
            b.spec_loaded_size() == self.spec_loaded_size() + if loads_new_account(
                self.spec_oracles(),
                oracle_pubkey,
                self.spec_admin(),
            ) {
                update_data_len(oracle@) + ACCOUNT_METADATA
            } else {
                0
            },
    {
        proof {
            use_type_invariant(&self);
        }
        let ghost old_oracles = self.oracles@;
        let ghost entry = (oracle_pubkey, oracle@);
        let doppler = id();
        let budget = compute_budget_program_id();
        let new_account = !pubkey_eq(&oracle_pubkey, &self.admin_pubkey) && !pubkey_eq(
            &oracle_pubkey,
            &doppler,
        ) && !pubkey_eq(&oracle_pubkey, &budget) && !self.has_oracle_account(&oracle_pubkey);
        let Builder {
            mut oracle_update_ixs,
            admin,
            admin_pubkey,
            unit_price,
            compute_units,
            loaded_account_data_size,
            oracles,
        } = self;
        let update_ix = UpdateInstruction { admin: admin_pubkey, oracle_pubkey, oracle };
        let update_cu = update_ix.compute_units();
        let data_len = update_ix.oracle_data_len();
        oracle_update_ixs.push(update_ix.into_instruction());
        let ghost new_oracles = old_oracles.push(entry);
        let loaded = if new_account {
            loaded_account_data_size + data_len + ACCOUNT_METADATA
        } else {
            loaded_account_data_size
        };
        proof {
            assert(new_oracles.drop_last() =~= old_oracles);
            let old_lens = loaded_account_data_lens(old_oracles, admin_pubkey);
            let new_lens = loaded_account_data_lens(new_oracles, admin_pubkey);
            if new_account {
                assert(new_lens =~= old_lens.push(update_data_len(entry.1) as int));
                assert(new_lens.drop_last() =~= old_lens);
            } else {
                assert(new_lens =~= old_lens);
            }
        }
        Builder {
            oracle_update_ixs,
            admin,
            admin_pubkey,
            unit_price,
            compute_units: compute_units + update_cu,
            loaded_account_data_size: loaded,
            oracles: Ghost(new_oracles),
        }
    }

    /// The loaded-accounts data size the transaction will request.
    pub fn loaded_accounts_data_size(&self) -> (size: u32)
        ensures
            size == self.spec_loaded_size(),
    {
        proof {
            use_type_invariant(self);
        }
        self.loaded_account_data_size
    }

    /// Sets the compute unit price, in micro-lamports. The price instruction
    /// reuses the compute budget program's account, so the loaded size is
    /// unchanged.
    pub fn with_unit_price(self, micro_lamports: u64) -> (b: Self)
        ensures
            b.spec_admin() == self.spec_admin(),
            b.spec_admin_keypair() == self.spec_admin_keypair(),
            b.spec_oracles() == self.spec_oracles(),
            b.spec_unit_price() == Some(micro_lamports),
            b.spec_compute_units() == self.spec_compute_units(),
            b.spec_loaded_size() == self.spec_loaded_size(),
    {
        proof {
            use_type_invariant(&self);
        }
        let Builder {
            oracle_update_ixs,
            admin,
            admin_pubkey,
            unit_price,
            compute_units,
            loaded_account_data_size,
            oracles,
        } = self;
        Builder {
            oracle_update_ixs,
            admin,
            admin_pubkey,
            unit_price: Some(micro_lamports),
            compute_units,
            loaded_account_data_size,
            oracles,
        }
    }

    /// The transaction's instructions in order: the price (if set), the data
    /// size limit, the compute unit limit, then one update per oracle.
    pub fn instructions(&self) -> (ixs: Vec<Instruction>)
        requires
            self.spec_compute_unit_limit() <= u32::MAX,
        ensures
            ixs@.map_values(|ix: Instruction| ix@) == self.spec_instructions(),
    {
        proof {
            use_type_invariant(self);
        }
        let mut ixs: Vec<Instruction> = Vec::new();
        let mut compute_units = self.compute_units;
        if let Some(unit_price) = self.unit_price {
            ixs.push(set_compute_unit_price(unit_price));
            // Reuses the compute budget account, so the loaded size is unchanged.
            compute_units = compute_units + COMPUTE_BUDGET_IX_CU;
        }
        ixs.push(set_loaded_accounts_data_size_limit(self.loaded_account_data_size));
        ixs.push(set_compute_unit_limit(compute_units));
        let ghost head = ixs@.map_values(|ix: Instruction| ix@);
        let ghost updates = self.spec_oracles().map_values(
            |u: (Pubkey, OracleView)| update_instruction(self.spec_admin(), u.0, u.1),
        );
        assert(head.len() + updates.len() == self.spec_instructions().len());
        assert forall|k: int| 0 <= k < head.len() implies head[k]
            == self.spec_instructions()[k] by {}
        let n = self.oracle_update_ixs.len();
        let mut i: usize = 0;
        while i < n
            invariant
                n == self.oracle_update_ixs@.len(),
                n == updates.len(),
                i <= n,
                ixs@.len() == head.len() + i,
                forall|k: int| 0 <= k < head.len() ==> (#[trigger] ixs@[k])@ == head[k],
                forall|k: int| 0 <= k < i ==> (#[trigger] ixs@[head.len() + k])@ == updates[k],
                forall|k: int|
                    0 <= k < n ==> (#[trigger] self.oracle_update_ixs@[k])@ == updates[k],
            decreases n - i,
        {
            ixs.push(self.oracle_update_ixs[i].duplicate());
            i = i + 1;
        }
        assert(ixs@.map_values(|ix: Instruction| ix@) =~= self.spec_instructions()) by {
            assert forall|k: int| 0 <= k < ixs@.len() implies ixs@.map_values(
                |ix: Instruction| ix@,
            )[k] == self.spec_instructions()[k] by {
                if k >= head.len() {
                    assert(ixs@[head.len() + (k - head.len())] == ixs@[k]);
                }
            }
        }
        ixs
    }

    /// Signs the transaction of these instructions with the admin keypair as
    /// fee payer and only signer.
    pub fn build(self, recent_blockhash: solana_hash::Hash) -> (tx: Transaction)
        requires
            self.spec_compute_unit_limit() <= u32::MAX,
            self.spec_instructions().len() <= u16::MAX,
            forall|i: int|
                0 <= i < self.spec_oracles().len() ==> oracle_to_bytes(
                    (#[trigger] self.spec_oracles()[i]).1,
                ).len() <= u16::MAX,
            message_keys(self.spec_instructions(), self.spec_admin()).len() <= u16::MAX,
        ensures
            tx == signed_transaction(
                self.spec_instructions(),
                self.spec_admin(),
                self.spec_admin_keypair(),
                recent_blockhash,
            ),
    {
        proof {
            use_type_invariant(&self);
        }
        let ixs = self.instructions();
        proof {
            let plan = self.spec_instructions();
            let admin = self.spec_admin();
            let nb = self.spec_budget_instruction_count();
            lemma_instruction_plan(self);
            lemma_message_keys_bound(self);
            assert(ixs@.map_values(|ix: Instruction| ix@) == plan);
            assert forall|i: int| 0 <= i < plan.len() implies {
                &&& i < nb ==> (#[trigger] plan[i]).program_id == spec_compute_budget_program_id()
                    && plan[i].accounts.len() == 0 && plan[i].data.len() <= 9
                &&& i >= nb ==> plan[i] == update_instruction(
                    admin,
                    self.spec_oracles()[i - nb].0,
                    self.spec_oracles()[i - nb].1,
                )
            } by {
                if i >= nb {
                    assert(plan[nb + (i - nb)] == plan[i]);
                }
            }
            assert forall|i: int|
                0 <= i < ixs@.len() implies (#[trigger] ixs@[i]).accounts@.len() <= u16::MAX
                && ixs@[i].data@.len() <= u16::MAX by {
                assert(ixs@.map_values(|ix: Instruction| ix@)[i] == plan[i]);
                if i >= nb {
                    let u = self.spec_oracles()[i - nb];
                    assert(oracle_to_bytes(u.1).len() <= u16::MAX);
                }
            }
            assert forall|i: int, j: int|
                0 <= i < ixs@.len() && 0 <= j < ixs@[i].accounts@.len()
                    && (#[trigger] ixs@[i].accounts@[j]).is_signer implies ixs@[i].accounts@[j].pubkey
                == admin by {
                assert(ixs@.map_values(|ix: Instruction| ix@)[i] == plan[i]);
            }
            let fixed = Set::<Pubkey>::empty().insert(spec_compute_budget_program_id()).insert(
                spec_program_id(),
            );
            let readonly = readonly_unsigned_keys(plan, admin);
            assert forall|k: Pubkey| readonly.contains(k) implies fixed.contains(k) by {
                let i = choose|i: int|
                    0 <= i < plan.len() && ((#[trigger] plan[i]).program_id == k || exists|j: int|
                        0 <= j < plan[i].accounts.len() && (#[trigger] plan[i].accounts[j]).pubkey
                            == k);
                if plan[i].program_id != k {
                    let j = choose|j: int|
                        0 <= j < plan[i].accounts.len() && (#[trigger] plan[i].accounts[j]).pubkey
                            == k;
                    assert(plan[i].accounts[j].is_signer || plan[i].accounts[j].is_writable);
                    assert(signs_or_writes(plan, k));
                }
            }
            assert(fixed.finite() && fixed.len() <= 2) by {
                broadcast use vstd::set::axiom_set_empty_finite, vstd::set::axiom_set_empty_len,
                    vstd::set::axiom_set_insert_finite, vstd::set::axiom_set_insert_len;

            }
            vstd::set_lib::lemma_len_subset(readonly, fixed);
        }
        sign_transaction(&ixs, self.admin_pubkey, self.admin, recent_blockhash)
    }
}

} // verus!
