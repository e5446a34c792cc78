//! Block references, decoded chain records, and the assembled block view.

use vstd::prelude::*;
use crate::uint::U256;

verus! {

/// A 32-byte hash.
pub type H256 = [u8; 32];

/// A 20-byte account address.
pub type H160 = [u8; 20];

/// A 2048-bit logs bloom filter.
pub type Bloom = [u8; 256];

/// A block reference as a caller writes it.
#[derive(Clone, Copy, Debug, PartialEq, Eq)]
pub enum BlockNumber {
    /// An exact block number.
    Num(u64),
    /// The latest canonical block.
    Latest,
    /// The genesis block.
    Earliest,
    /// The block currently being assembled (deprecated).
    Pending,
}

/// A block identifier as the chain reader understands it.
#[derive(Clone, Copy, Debug, PartialEq, Eq)]
pub enum BlockId {
    Hash(H256),
    Number(u64),
    Earliest,
    Latest,
}

/// Either a caller's block reference or a chain-reader identifier.
#[derive(Clone, Copy, Debug, PartialEq, Eq)]
pub enum BlockNumberOrId {
    Number(BlockNumber),
    Id(BlockId),
}

impl From<BlockId> for BlockNumberOrId {
    fn from(value: BlockId) -> (r: BlockNumberOrId)
        ensures
            r == BlockNumberOrId::Id(value),
    {
        BlockNumberOrId::Id(value)
    }
}

impl vstd::std_specs::convert::FromSpecImpl<BlockId> for BlockNumberOrId {
    open spec fn obeys_from_spec() -> bool {
        true
    }

    open spec fn from_spec(v: BlockId) -> BlockNumberOrId {
        BlockNumberOrId::Id(v)
    }
}

impl From<BlockNumber> for BlockNumberOrId {
    fn from(value: BlockNumber) -> (r: BlockNumberOrId)
        ensures
            r == BlockNumberOrId::Number(value),
    {
        BlockNumberOrId::Number(value)
    }
}

impl vstd::std_specs::convert::FromSpecImpl<BlockNumber> for BlockNumberOrId {
    open spec fn obeys_from_spec() -> bool {
        true
    }

    open spec fn from_spec(v: BlockNumber) -> BlockNumberOrId {
        BlockNumberOrId::Number(v)
    }
}

/// A decoded block header.
#[derive(Clone, Debug, PartialEq, Eq)]
pub struct Header {
    pub hash: H256,
    pub parent_hash: H256,
    pub uncles_hash: H256,
    pub author: H160,
    pub state_root: H256,
    pub transactions_root: H256,
    pub receipts_root: H256,
    pub number: u64,
    pub gas_used: U256,
    pub gas_limit: U256,
    pub extra_data: Vec<u8>,
    pub log_bloom: Bloom,
    pub timestamp: u64,
    pub difficulty: U256,
    /// Engine-specific seal fields, each an encoded item, in stored order.
    pub seal: Vec<Vec<u8>>,
}

/// The contents of each seal field.
pub open spec fn seal_view(seal: Seq<Vec<u8>>) -> Seq<Seq<u8>> {
    seal.map_values(|s: Vec<u8>| s@)
}

impl Header {
    /// The two headers hold the same fields.
    pub open spec fn same(self, o: Header) -> bool {
        &&& self.hash == o.hash
        &&& self.parent_hash == o.parent_hash
        &&& self.uncles_hash == o.uncles_hash
        &&& self.author == o.author
        &&& self.state_root == o.state_root
        &&& self.transactions_root == o.transactions_root
        &&& self.receipts_root == o.receipts_root
        &&& self.number == o.number
        &&& self.gas_used == o.gas_used
        &&& self.gas_limit == o.gas_limit
        &&& self.extra_data@ == o.extra_data@
        &&& self.log_bloom == o.log_bloom
        &&& self.timestamp == o.timestamp
        &&& self.difficulty == o.difficulty
        &&& seal_view(self.seal@) == seal_view(o.seal@)
    }
}

/// A decoded transaction of a block.
#[derive(Clone, Debug, PartialEq, Eq)]
pub struct Transaction {
    pub hash: H256,
    pub nonce: U256,
    pub from: H160,
    pub to: Option<H160>,
    pub value: U256,
    pub gas_price: U256,
    pub gas: U256,
    pub input: Vec<u8>,
}

impl Transaction {
    /// The two transactions hold the same fields.
    pub open spec fn same(self, o: Transaction) -> bool {
        &&& self.hash == o.hash
        &&& self.nonce == o.nonce
        &&& self.from == o.from
        &&& self.to == o.to
        &&& self.value == o.value
        &&& self.gas_price == o.gas_price
        &&& self.gas == o.gas
        &&& self.input@ == o.input@
    }
}

/// Both sequences have the same length and pairwise the same transactions.
pub open spec fn same_transactions(a: Seq<Transaction>, b: Seq<Transaction>) -> bool {
    &&& a.len() == b.len()
    &&& forall|i: int| 0 <= i < a.len() ==> (#[trigger] a[i]).same(b[i])
}

/// A block as the chain reader hands it out: its decoded header, the hashes
/// of its uncles and its transactions, in stored order, and the byte length
/// of its raw encoding.
#[derive(Clone, Debug, PartialEq, Eq)]
pub struct Block {
    pub header: Header,
    pub uncle_hashes: Vec<H256>,
    pub transactions: Vec<Transaction>,
    pub size: usize,
}

impl Block {
    /// The two blocks hold the same fields.
    pub open spec fn same(self, o: Block) -> bool {
        &&& self.header.same(o.header)
        &&& self.uncle_hashes@ == o.uncle_hashes@
        &&& same_transactions(self.transactions@, o.transactions@)
        &&& self.size == o.size
    }
}

/// The outcome of a transaction's execution.
#[derive(Clone, Copy, Debug, PartialEq, Eq)]
pub struct Receipt {
    pub transaction_hash: H256,
    pub cumulative_gas_used: U256,
    pub gas_used: U256,
    pub contract_address: Option<H160>,
    pub status_code: Option<u8>,
}

/// One call recorded while a transaction was replayed.
#[derive(Clone, Copy, Debug, PartialEq, Eq)]
pub struct LocalizedTrace {
    pub transaction_hash: H256,
    pub subtraces: u64,
    pub from: H160,
    pub to: Option<H160>,
    pub value: U256,
    pub gas_used: U256,
}

/// A transaction with its receipt and its traces.
#[derive(Clone, Debug, PartialEq, Eq)]
pub struct TransactionWithReceipt {
    pub transaction: Transaction,
    pub receipt: Receipt,
    pub traces: Vec<LocalizedTrace>,
}

/// A block with its transactions, receipts and traces.
#[derive(Clone, Debug, PartialEq, Eq)]
pub struct BlockWithTransactions {
    /// Absent for a pending block.
    pub hash: Option<H256>,
    pub parent_hash: H256,
    pub uncles_hash: H256,
    pub author: H160,
    /// The same as `author`.
    pub miner: H160,
    pub state_root: H256,
    pub transactions_root: H256,
    pub receipts_root: H256,
    /// Absent for a pending block.
    pub number: Option<u64>,
    pub gas_used: U256,
    pub gas_limit: U256,
    pub extra_data: Vec<u8>,
    /// Absent for a pending block.
    pub logs_bloom: Option<Bloom>,
    pub timestamp: u64,
    pub difficulty: U256,
    pub total_difficulty: Option<U256>,
    pub seal_fields: Vec<Vec<u8>>,
    pub uncles: Vec<H256>,
    pub transactions: Vec<TransactionWithReceipt>,
    /// Byte length of the raw block.
    pub size: Option<usize>,
}

/// Both sequences have the same length and pairwise the same transactions,
/// receipts and traces.
pub open spec fn same_entries(a: Seq<TransactionWithReceipt>, b: Seq<TransactionWithReceipt>) -> bool {
    &&& a.len() == b.len()
    &&& forall|i: int|
        0 <= i < a.len() ==> {
            &&& (#[trigger] a[i]).transaction.same(b[i].transaction)
            &&& a[i].receipt == b[i].receipt
            &&& a[i].traces@ == b[i].traces@
        }
}

impl BlockWithTransactions {
    /// The two views hold the same fields.
    pub open spec fn same(self, o: BlockWithTransactions) -> bool {
        &&& self.hash == o.hash
        &&& self.parent_hash == o.parent_hash
        &&& self.uncles_hash == o.uncles_hash
        &&& self.author == o.author
        &&& self.miner == o.miner
        &&& self.state_root == o.state_root
        &&& self.transactions_root == o.transactions_root
        &&& self.receipts_root == o.receipts_root
        &&& self.number == o.number
        &&& self.gas_used == o.gas_used
        &&& self.gas_limit == o.gas_limit
        &&& self.extra_data@ == o.extra_data@
        &&& self.logs_bloom == o.logs_bloom
        &&& self.timestamp == o.timestamp
        &&& self.difficulty == o.difficulty
        &&& self.total_difficulty == o.total_difficulty
        &&& seal_view(self.seal_fields@) == seal_view(o.seal_fields@)
        &&& self.uncles@ == o.uncles@
        &&& same_entries(self.transactions@, o.transactions@)
        &&& self.size == o.size
    }
}

/// Why a block query failed: the stores disagree with each other.
#[derive(Clone, Copy, Debug, PartialEq, Eq)]
pub enum BulkError {
    /// A transaction of the resolved block has no receipt.
    MissingReceipt(H256),
    /// The latest canonical block has no total difficulty.
    MissingLatestTotalDifficulty,
    /// The pending block's total difficulty does not fit in 256 bits.
    TotalDifficultyOverflow,
}

/// A deprecation notice raised while a query is answered.
#[derive(Clone, Copy, Debug, PartialEq, Eq)]
pub enum Deprecation {
    /// The `pending` tag was used and a pending block was served.
    PendingTag,
    /// The `pending` tag was used and no pending block existed: `latest` was served.
    PendingFallbackToLatest,
}

} // verus!
