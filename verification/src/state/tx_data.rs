//! The instructions that a transaction runs once accepted.

use vstd::prelude::*;
use crate::key::Pubkey;

verus! {

/// Bytes that one account entry of an instruction takes.
pub const ACCOUNT_META_SPACE: usize = 32 + 1 + 1;

/// An account that an instruction uses, given by its address.
#[derive(Clone, Copy, Debug)]
pub struct InstructionAccount {
    pub pubkey: Pubkey,
    pub is_signer: bool,
    pub is_writable: bool,
}

/// An instruction to run: program, data, and accounts by address.
#[derive(Clone, Debug)]
pub struct InstructionData {
    pub program_id: Pubkey,
    pub data: Vec<u8>,
    pub keys: Vec<InstructionAccount>,
}

/// An instruction as the contracts see it.
#[verifier::ext_equal]
pub struct InstructionDataView {
    pub program_id: Pubkey,
    pub data: Seq<u8>,
    pub keys: Seq<InstructionAccount>,
}

impl View for InstructionData {
    type V = InstructionDataView;

    open spec fn view(&self) -> InstructionDataView {
        InstructionDataView { program_id: self.program_id, data: self.data@, keys: self.keys@ }
    }
}

/// The views of a list of instructions.
pub open spec fn instructions_view(ixs: Seq<InstructionData>) -> Seq<InstructionDataView> {
    ixs.map_values(|ix: InstructionData| ix@)
}

/// An account that a versioned instruction uses, given by its place among the
/// accounts passed along with the call.
#[derive(Clone, Copy, Debug)]
pub struct VersionedInstructionAccount {
    pub pubkey_index: u8,
    pub is_signer: bool,
    pub is_writable: bool,
}

/// An instruction whose program and accounts are places among the accounts
/// passed along with the call.
#[derive(Clone, Debug)]
pub struct VersionedInstructionData {
    pub program_id_index: u8,
    pub data: Vec<u8>,
    pub keys: Vec<VersionedInstructionAccount>,
}

/// A versioned instruction as the contracts see it.
#[verifier::ext_equal]
pub struct VersionedInstructionDataView {
    pub program_id_index: u8,
    pub data: Seq<u8>,
    pub keys: Seq<VersionedInstructionAccount>,
}

impl View for VersionedInstructionData {
    type V = VersionedInstructionDataView;

    open spec fn view(&self) -> VersionedInstructionDataView {
        VersionedInstructionDataView {
            program_id_index: self.program_id_index,
            data: self.data@,
            keys: self.keys@,
        }
    }
}

/// The views of a list of versioned instructions.
pub open spec fn versioned_view(ixs: Seq<VersionedInstructionData>) -> Seq<
    VersionedInstructionDataView,
> {
    ixs.map_values(|ix: VersionedInstructionData| ix@)
}

/// The two ways in which the instructions of a transaction are given.
#[derive(Clone, Debug)]
pub enum TransactionType {
    Legacy { data: Vec<InstructionData> },
    Versioned { data: Vec<VersionedInstructionData> },
}

/// The instructions of a transaction, stored once the transaction is proposed.
#[derive(Clone, Debug)]
pub struct TxData {
    pub transaction: Pubkey,
    pub instructions: Vec<InstructionData>,
    pub bump: u8,
    pub lookup_table: Option<Pubkey>,
}

/// The instructions of a transaction as the contracts see them.
#[verifier::ext_equal]
pub struct TxDataView {
    pub transaction: Pubkey,
    pub instructions: Seq<InstructionDataView>,
    pub bump: u8,
    pub lookup_table: Option<Pubkey>,
}

impl View for TxData {
    type V = TxDataView;

    open spec fn view(&self) -> TxDataView {
        TxDataView {
            transaction: self.transaction,
            instructions: instructions_view(self.instructions@),
            bump: self.bump,
            lookup_table: self.lookup_table,
        }
    }
}

/// A copy of a byte string.
pub fn copy_bytes(v: &Vec<u8>) -> (r: Vec<u8>)
    ensures
        r@ == v@,
{
    let mut r: Vec<u8> = Vec::new();
    let mut i: usize = 0;
    while i < v.len()
        invariant
            0 <= i <= v.len(),
            r@ =~= v@.take(i as int),
        decreases v.len() - i,
    {
        r.push(v[i]);
        i = i + 1;
    }
    proof {
        assert(v@.take(v@.len() as int) =~= v@);
    }
    r
}

/// Bytes of the fixed part of a transaction data account.
pub open spec fn tx_data_base_space() -> int {
    8int + 32 + 1 + 4 + 33
}

/// Bytes that one stored instruction takes.
pub open spec fn ix_space(data_len: int, keys_len: int) -> int {
    32 + 4 + data_len + 4 + keys_len * 34
}

/// The sum of a list of sizes.
pub open spec fn sum_space(s: Seq<int>) -> int
    decreases s.len(),
{
    if s.len() == 0 {
        0
    } else {
        sum_space(s.drop_last()) + s.last()
    }
}

/// The sizes of a list of instructions.
pub open spec fn legacy_sizes(ixs: Seq<InstructionDataView>) -> Seq<int> {
    ixs.map_values(|ix: InstructionDataView| ix_space(ix.data.len() as int, ix.keys.len() as int))
}

/// The sizes of a list of versioned instructions.
pub open spec fn versioned_sizes(ixs: Seq<VersionedInstructionDataView>) -> Seq<int> {
    ixs.map_values(
        |ix: VersionedInstructionDataView| ix_space(ix.data.len() as int, ix.keys.len() as int),
    )
}

/// Bytes that a transaction data account with these instructions takes.
pub open spec fn tx_data_space(ixs: Seq<InstructionDataView>) -> int {
    tx_data_base_space() + sum_space(legacy_sizes(ixs))
}

/// Bytes that a transaction data account for these instructions takes.
pub open spec fn transaction_type_space(t: TransactionType) -> int {
    match t {
        TransactionType::Legacy { data } => tx_data_space(instructions_view(data@)),
        TransactionType::Versioned { data } => tx_data_base_space() + sum_space(
            versioned_sizes(versioned_view(data@)),
        ),
    }
}

/// A sum of non-negative sizes bounds the sum of any prefix.
pub proof fn lemma_sum_space_prefix(s: Seq<int>, i: int)
    requires
        0 <= i <= s.len(),
        forall|j: int| 0 <= j < s.len() ==> s[j] >= 0,
    ensures
        0 <= sum_space(s.take(i)) <= sum_space(s),
    decreases s.len(),
{
    if i == s.len() {
        assert(s.take(i) =~= s);
        if s.len() > 0 {
            lemma_sum_space_prefix(s.drop_last(), i - 1);
            assert(s.drop_last().take(i - 1) =~= s.drop_last());
        }
    } else {
        assert(s.take(i) =~= s.drop_last().take(i));
        lemma_sum_space_prefix(s.drop_last(), i);
    }
}

/// Replacing one size changes the sum by the difference.
pub proof fn lemma_sum_space_update(s: Seq<int>, i: int, v: int)
    requires
        0 <= i < s.len(),
    ensures
        sum_space(s.update(i, v)) == sum_space(s) - s[i] + v,
    decreases s.len(),
{
    if i == s.len() - 1 {
        assert(s.update(i, v).drop_last() =~= s.drop_last());
    } else {
        assert(s.update(i, v).drop_last() =~= s.drop_last().update(i, v));
        lemma_sum_space_update(s.drop_last(), i, v);
    }
}

/// The stored instructions with `keys` added at the end of instruction `index`'s accounts.
pub open spec fn keys_added(td: TxDataView, index: int, keys: Seq<InstructionAccount>) -> TxDataView {
    TxDataView {
        instructions: td.instructions.update(
            index,
            InstructionDataView { keys: td.instructions[index].keys + keys, ..td.instructions[index] },
        ),
        ..td
    }
}

/// The account size that `TxData::realloc_bytes` asks for before accounts are
/// added to an instruction is exactly the size of the data after the addition.
pub proof fn law_tx_data_realloc_fits(td: TxDataView, index: int, keys: Seq<InstructionAccount>)
    requires
        0 <= index < td.instructions.len(),
    ensures
        tx_data_space(keys_added(td, index, keys).instructions) == tx_data_space(td.instructions)
            + keys.len() * 34,
{
    let n = keys_added(td, index, keys);
    let old_sizes = legacy_sizes(td.instructions);
    let ix = n.instructions[index];
    lemma_sum_space_update(old_sizes, index, ix_space(ix.data.len() as int, ix.keys.len() as int));
    assert(legacy_sizes(n.instructions) =~= old_sizes.update(
        index,
        ix_space(ix.data.len() as int, ix.keys.len() as int),
    ));
}

/// An instruction, as far as the space it takes in an account goes.
pub trait InstructionShape {
    /// The length of the instruction's data.
    spec fn data_len_of(&self) -> nat;

    /// The number of the instruction's accounts.
    spec fn keys_len_of(&self) -> nat;

    fn data_len(&self) -> (n: usize)
        ensures
            n == self.data_len_of(),
    ;

    fn keys_len(&self) -> (n: usize)
        ensures
            n == self.keys_len_of(),
    ;
}

impl InstructionShape for InstructionData {
    open spec fn data_len_of(&self) -> nat {
        self.data@.len()
    }

    open spec fn keys_len_of(&self) -> nat {
        self.keys@.len()
    }

    fn data_len(&self) -> (n: usize) {
        self.data.len()
    }

    fn keys_len(&self) -> (n: usize) {
        self.keys.len()
    }
}

impl InstructionShape for VersionedInstructionData {
    open spec fn data_len_of(&self) -> nat {
        self.data@.len()
    }

    open spec fn keys_len_of(&self) -> nat {
        self.keys@.len()
    }

    fn data_len(&self) -> (n: usize) {
        self.data.len()
    }

    fn keys_len(&self) -> (n: usize) {
        self.keys.len()
    }
}

/// The sizes of a list of instructions of either kind.
pub open spec fn shape_sizes<T: InstructionShape>(ixs: Seq<T>) -> Seq<int> {
    ixs.map_values(|ix: T| ix_space(ix.data_len_of() as int, ix.keys_len_of() as int))
}

/// Bytes that a transaction data account with these instructions takes.
fn instructions_space<T: InstructionShape>(data: &Vec<T>) -> (size: usize)
    requires
        tx_data_base_space() + sum_space(shape_sizes(data@)) <= usize::MAX,
    ensures
        size == tx_data_base_space() + sum_space(shape_sizes(data@)),
{
    let ghost sizes = shape_sizes(data@);
    let mut size: usize = 8 + 32 + 1 + 4 + 33;
    let mut i: usize = 0;
    proof {
        assert(sizes.take(0) =~= Seq::<int>::empty());
    }
    while i < data.len()
        invariant
            0 <= i <= data.len(),
            sizes == shape_sizes(data@),
            tx_data_base_space() + sum_space(sizes) <= usize::MAX,
            size == tx_data_base_space() + sum_space(sizes.take(i as int)),
        decreases data.len() - i,
    {
        proof {
            assert(sizes.take(i + 1).drop_last() =~= sizes.take(i as int));
            lemma_sum_space_prefix(sizes, i + 1);
        }
        size = size + (32 + 4 + data[i].data_len() + 4 + data[i].keys_len() * (32 + 1 + 1));
        i = i + 1;
    }
    proof {
        assert(sizes.take(i as int) =~= sizes);
    }
    size
}

/// The sizes of stored instructions are their shape sizes.
proof fn lemma_legacy_shape(data: Seq<InstructionData>)
    ensures
        shape_sizes(data) =~= legacy_sizes(instructions_view(data)),
{
}

/// The sizes of versioned instructions are their shape sizes.
proof fn lemma_versioned_shape(data: Seq<VersionedInstructionData>)
    ensures
        shape_sizes(data) =~= versioned_sizes(versioned_view(data)),
{
}

impl TxData {
    /// Bytes that a transaction data account for these instructions takes.
    pub fn len(data_type: TransactionType) -> (size: usize)
        requires
            transaction_type_space(data_type) <= usize::MAX,
        ensures
            size == transaction_type_space(data_type),
    {
        match data_type {
            TransactionType::Legacy { data } => {
                proof {
                    lemma_legacy_shape(data@);
                }
                instructions_space(&data)
            },
            TransactionType::Versioned { data } => {
                proof {
                    lemma_versioned_shape(data@);
                }
                instructions_space(&data)
            },
        }
    }

    /// The account size needed once `new_keys` are added to one instruction.
    pub fn realloc_bytes(&self, new_keys: &Vec<InstructionAccount>) -> (size: usize)
        requires
            tx_data_space(self@.instructions) + new_keys@.len() * 34 <= usize::MAX,
        ensures
            size == tx_data_space(self@.instructions) + new_keys@.len() * 34,
            forall|i: int|
                0 <= i < self@.instructions.len() ==> size == tx_data_space(
                    #[trigger] keys_added(self@, i, new_keys@).instructions,
                ),
    {
        proof {
            assert forall|i: int| 0 <= i < self@.instructions.len() implies tx_data_space(
                self@.instructions,
            ) + new_keys@.len() * 34 == tx_data_space(
                #[trigger] keys_added(self@, i, new_keys@).instructions,
            ) by {
                law_tx_data_realloc_fits(self@, i, new_keys@);
            }
        }
        proof {
            lemma_legacy_shape(self.instructions@);
        }
        let current_len = instructions_space(&self.instructions);
        let require_bytes = new_keys.len() * (32 + 1 + 1);
        current_len + require_bytes
    }

    /// The stored instructions of `transaction`.
    pub fn new(
        transaction: Pubkey,
        instructions: Vec<InstructionData>,
        bump: u8,
        lookup_table: Option<Pubkey>,
    ) -> (t: TxData)
        ensures
            t.transaction == transaction,
            t.instructions@ == instructions@,
            t.bump == bump,
            t.lookup_table == lookup_table,
    {
        TxData { transaction, instructions, bump, lookup_table }
    }
}

} // verus!
