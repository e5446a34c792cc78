//! Answers a block query: resolves the reference, reads the block and its
//! total difficulty, and joins every transaction with its receipt and traces.

use std::sync::Arc;
use vstd::prelude::*;
use crate::client::{BlockChainClient, MinerService};
use crate::types::{
    Block, BlockId, BlockNumber, BlockNumberOrId, BlockWithTransactions, BulkError, Deprecation,
    H256, Header, LocalizedTrace, Transaction, TransactionWithReceipt, seal_view,
    same_transactions,
};
use crate::uint::U256;

verus! {

/// Where a reference is looked up.
#[derive(Clone, Copy, Debug, PartialEq, Eq)]
pub enum Lookup {
    /// The miner's pending block, falling back to the latest canonical block.
    Pending,
    /// The canonical chain, under this identifier.
    Chain(BlockId),
}

pub open spec fn spec_normalize(id: BlockNumberOrId) -> Lookup {
    match id {
        BlockNumberOrId::Number(BlockNumber::Pending) => Lookup::Pending,
        BlockNumberOrId::Number(BlockNumber::Latest) => Lookup::Chain(BlockId::Latest),
        BlockNumberOrId::Number(BlockNumber::Earliest) => Lookup::Chain(BlockId::Earliest),
        BlockNumberOrId::Number(BlockNumber::Num(n)) => Lookup::Chain(BlockId::Number(n)),
        BlockNumberOrId::Id(b) => Lookup::Chain(b),
    }
}

/// Maps a reference to the store that answers it.
pub fn normalize(id: BlockNumberOrId) -> (r: Lookup)
    ensures
        r == spec_normalize(id),
{
    match id {
        BlockNumberOrId::Number(BlockNumber::Pending) => Lookup::Pending,
        BlockNumberOrId::Number(BlockNumber::Latest) => Lookup::Chain(BlockId::Latest),
        BlockNumberOrId::Number(BlockNumber::Earliest) => Lookup::Chain(BlockId::Earliest),
        BlockNumberOrId::Number(BlockNumber::Num(n)) => Lookup::Chain(BlockId::Number(n)),
        BlockNumberOrId::Id(b) => Lookup::Chain(b),
    }
}

/// A resolved block: the block, its total difficulty, and whether it is pending.
pub type Resolved = (Block, nat, bool);

/// The canonical block under `id` with its total difficulty, when both are stored.
pub open spec fn resolve_chain<C: BlockChainClient>(c: &C, id: BlockId) -> Option<Resolved> {
    match (c.spec_block(id), c.spec_total_difficulty(id)) {
        (Some(b), Some(td)) => Some((b, td.value(), false)),
        _ => None,
    }
}

/// The total difficulty of a pending block: its own difficulty, when its
/// header is known, on top of the latest canonical total difficulty.
pub open spec fn pending_total_difficulty(header: Option<Header>, latest: U256) -> nat {
    match header {
        Some(h) => h.difficulty.value() + latest.value(),
        None => latest.value(),
    }
}

/// The block that a query for `id` serves, or why it fails.
pub open spec fn resolve<C: BlockChainClient, M: MinerService>(
    c: &C,
    m: &M,
    id: BlockNumberOrId,
) -> Result<Option<Resolved>, BulkError> {
    match spec_normalize(id) {
        Lookup::Chain(b) => Ok(resolve_chain(c, b)),
        Lookup::Pending => {
            let best = c.spec_best_block_number();
            match m.spec_pending_block(best) {
                None => Ok(resolve_chain(c, BlockId::Latest)),
                Some(pb) => match c.spec_total_difficulty(BlockId::Latest) {
                    None => Err(BulkError::MissingLatestTotalDifficulty),
                    Some(latest) => {
                        let td = pending_total_difficulty(
                            m.spec_pending_block_header(best),
                            latest,
                        );
                        if td >= U256::modulus() {
                            Err(BulkError::TotalDifficultyOverflow)
                        } else {
                            Ok(Some((pb, td, true)))
                        }
                    },
                },
            }
        },
    }
}

/// The deprecation notices that a query for `id` raises.
pub open spec fn deprecations<C: BlockChainClient, M: MinerService>(
    c: &C,
    m: &M,
    id: BlockNumberOrId,
) -> Seq<Deprecation> {
    match spec_normalize(id) {
        Lookup::Chain(_) => seq![],
        Lookup::Pending => if m.spec_pending_block(c.spec_best_block_number()) is Some {
            seq![Deprecation::PendingTag]
        } else {
            seq![Deprecation::PendingFallbackToLatest]
        },
    }
}

pub open spec fn receipt_missing<C: BlockChainClient>(c: &C, t: Transaction) -> bool {
    c.spec_receipt(t.hash) is None
}

/// Some transaction of `txs` has no receipt.
pub open spec fn some_receipt_missing<C: BlockChainClient>(c: &C, txs: Seq<Transaction>) -> bool {
    exists|k: int| 0 <= k < txs.len() && receipt_missing(c, #[trigger] txs[k])
}

/// `k` is the first transaction of `txs` without a receipt.
pub open spec fn first_missing_receipt<C: BlockChainClient>(
    c: &C,
    txs: Seq<Transaction>,
    k: int,
) -> bool {
    &&& 0 <= k < txs.len()
    &&& receipt_missing(c, txs[k])
    &&& forall|j: int| 0 <= j < k ==> !receipt_missing(c, #[trigger] txs[j])
}

/// The stored traces of a transaction; none when the store keeps none.
pub open spec fn traces_or_empty<C: BlockChainClient>(c: &C, hash: H256) -> Seq<LocalizedTrace> {
    match c.spec_traces(hash) {
        Some(s) => s,
        None => seq![],
    }
}

/// `e` holds transaction `t` with its stored receipt and traces.
pub open spec fn entry_for<C: BlockChainClient>(
    c: &C,
    e: TransactionWithReceipt,
    t: Transaction,
) -> bool {
    &&& e.transaction.same(t)
    &&& c.spec_receipt(t.hash) == Some(e.receipt)
    &&& e.traces@ == traces_or_empty(c, t.hash)
}

/// `out` holds, in order, each transaction of `txs` with its receipt and traces.
pub open spec fn entries_for<C: BlockChainClient>(
    c: &C,
    out: Seq<TransactionWithReceipt>,
    txs: Seq<Transaction>,
) -> bool {
    &&& out.len() == txs.len()
    &&& forall|i: int| 0 <= i < out.len() ==> entry_for(c, #[trigger] out[i], txs[i])
}

/// `out` shows block `b` with total difficulty `td`; the hash, the number and
/// the logs bloom are left out when the block is pending.
pub open spec fn describes<C: BlockChainClient>(
    c: &C,
    out: BlockWithTransactions,
    b: Block,
    td: nat,
    pending: bool,
) -> bool {
    let h = b.header;
    &&& out.hash == (if pending { None } else { Some(h.hash) })
    &&& out.parent_hash == h.parent_hash
    &&& out.uncles_hash == h.uncles_hash
    &&& out.author == h.author
    &&& out.miner == h.author
    &&& out.state_root == h.state_root
    &&& out.transactions_root == h.transactions_root
    &&& out.receipts_root == h.receipts_root
    &&& out.number == (if pending { None } else { Some(h.number) })
    &&& out.gas_used == h.gas_used
    &&& out.gas_limit == h.gas_limit
    &&& out.extra_data@ == h.extra_data@
    &&& out.logs_bloom == (if pending { None } else { Some(h.log_bloom) })
    &&& out.timestamp == h.timestamp
    &&& out.difficulty == h.difficulty
    &&& out.total_difficulty matches Some(t) && t.value() == td
    &&& seal_view(out.seal_fields@) == seal_view(h.seal@)
    &&& out.uncles@ == b.uncle_hashes@
    &&& entries_for(c, out.transactions@, b.transactions@)
    &&& out.size == Some(b.size)
}

/// What a query for `id` returns: the error of the resolution; nothing when no
/// block is found; the first transaction without a receipt as an error; else
/// the block described in full.
pub open spec fn block_result<C: BlockChainClient, M: MinerService>(
    c: &C,
    m: &M,
    id: BlockNumberOrId,
    r: Result<Option<BlockWithTransactions>, BulkError>,
) -> bool {
    match resolve(c, m, id) {
        Err(e) => r == Err::<Option<BlockWithTransactions>, BulkError>(e),
        Ok(None) => r == Ok::<Option<BlockWithTransactions>, BulkError>(None),
        Ok(Some((b, td, pending))) => if some_receipt_missing(c, b.transactions@) {
            r matches Err(BulkError::MissingReceipt(h)) && exists|k: int|
                first_missing_receipt(c, b.transactions@, k) && b.transactions@[k].hash == h
        } else {
            r matches Ok(Some(out)) && describes(c, out, b, td, pending)
        },
    }
}

/// Receipts and entries are looked up by hash, so sequences of transactions
/// with the same fields agree on them.
proof fn lemma_same_transactions<C: BlockChainClient>(c: &C, a: Seq<Transaction>, b: Seq<Transaction>)
    requires
        same_transactions(a, b),
    ensures
        some_receipt_missing(c, a) == some_receipt_missing(c, b),
        forall|k: int| #[trigger] first_missing_receipt(c, a, k) ==> first_missing_receipt(c, b, k) && a[k].hash == b[k].hash,
        forall|out: Seq<TransactionWithReceipt>| #[trigger] entries_for(c, out, a) ==> entries_for(c, out, b),
{
    assert forall|k: int| 0 <= k < a.len() implies receipt_missing(c, #[trigger] a[k]) == receipt_missing(c, b[k]) by {
        assert(a[k].same(b[k]));
    }
    assert forall|k: int| #[trigger] first_missing_receipt(c, a, k) implies first_missing_receipt(c, b, k) && a[k].hash == b[k].hash by {
        assert(a[k].same(b[k]));
        assert forall|j: int| 0 <= j < k implies !receipt_missing(c, #[trigger] b[j]) by {
            assert(a[j].same(b[j]));
            assert(!receipt_missing(c, a[j]));
        }
    }
    if some_receipt_missing(c, b) {
        let k = choose|k: int| 0 <= k < b.len() && receipt_missing(c, #[trigger] b[k]);
        assert(receipt_missing(c, a[k]));
    }
    assert forall|out: Seq<TransactionWithReceipt>| #[trigger] entries_for(c, out, a) implies entries_for(c, out, b) by {
        assert forall|i: int| 0 <= i < out.len() implies entry_for(c, #[trigger] out[i], b[i]) by {
            assert(entry_for(c, out[i], a[i]));
            assert(a[i].same(b[i]));
        }
    }
}

/// Serves block queries from a chain reader and a miner.
pub struct BulkClient<C: BlockChainClient, M: MinerService> {
    client: Arc<C>,
    miner: Arc<M>,
}

impl<C: BlockChainClient, M: MinerService> BulkClient<C, M> {
    pub closed spec fn client(&self) -> C {
        *self.client
    }

    pub closed spec fn miner(&self) -> M {
        *self.miner
    }

    /// Creates a client that reads from `client` and `miner`.
    pub fn new(client: &Arc<C>, miner: &Arc<M>) -> (r: Self)
        ensures
            r.client() == **client,
            r.miner() == **miner,
    {
        BulkClient { client: client.clone(), miner: miner.clone() }
    }

    /// The canonical block under `id` with its total difficulty.
    fn query_chain(&self, id: BlockId) -> (r: Option<(Block, U256)>)
        ensures
            match resolve_chain(&self.client(), id) {
                Some((b, td, _)) => r matches Some((x, t)) && x.same(b) && t.value() == td,
                None => r is None,
            },
    {
        let block = self.client.block(id);
        let total_difficulty = self.client.block_total_difficulty(id);
        match (block, total_difficulty) {
            (Some(b), Some(t)) => Some((b, t)),
            _ => None,
        }
    }

    /// Joins each transaction, in order, with its receipt and its traces
    /// (none when the store keeps none); fails on the first transaction that
    /// has no receipt.
    fn transactions_with_receipts(&self, txs: Vec<Transaction>) -> (r: Result<
        Vec<TransactionWithReceipt>,
        BulkError,
    >)
        ensures
            some_receipt_missing(&self.client(), txs@) ==> (r matches Err(
                BulkError::MissingReceipt(h),
            ) && exists|k: int|
                first_missing_receipt(&self.client(), txs@, k) && txs@[k].hash == h),
            !some_receipt_missing(&self.client(), txs@) ==> (r matches Ok(out) && entries_for(
                &self.client(),
                out@,
                txs@,
            )),
    {
        let ghost all = txs@;
        let mut out: Vec<TransactionWithReceipt> = Vec::new();
        for t in iter: txs.into_iter()
            invariant
                iter.seq() == all,
                out.len() == iter.index(),
                forall|i: int| 0 <= i < out.len() ==> entry_for(&self.client(), #[trigger] out@[i], all[i]),
                forall|j: int| 0 <= j < iter.index() ==> !receipt_missing(&self.client(), #[trigger] all[j]),
        {
            let hash = t.hash;
            match self.client.transaction_receipt(hash) {
                None => {
                    assert(first_missing_receipt(&self.client(), all, iter.index() as int));
                    return Err(BulkError::MissingReceipt(hash));
                },
                Some(receipt) => {
                    let traces = match self.client.transaction_traces(hash) {
                        Some(v) => v,
                        None => Vec::new(),
                    };
                    out.push(TransactionWithReceipt { transaction: t, receipt, traces });
                },
            }
        }
        Ok(out)
    }

    /// The block that `id` names, with its transactions, receipts and traces.
    /// `Ok(None)` when the block or its total difficulty is not stored. The
    /// `pending` tag serves the miner's pending block, and the latest block
    /// when there is none; each use of it adds a notice to `notices`.
    pub fn block(&self, id: BlockNumberOrId, notices: &mut Vec<Deprecation>) -> (r: Result<
        Option<BlockWithTransactions>,
        BulkError,
    >)
        ensures
            block_result(&self.client(), &self.miner(), id, r),
            final(notices)@ == old(notices)@ + deprecations(&self.client(), &self.miner(), id),
    {
        let ghost expected = resolve(&self.client(), &self.miner(), id);
        let resolved: Option<(Block, U256, bool)> = match normalize(id) {
            Lookup::Pending => {
                let best = self.client.best_block_number();
                match self.miner.pending_block(best) {
                    Some(pending_block) => {
                        notices.push(Deprecation::PendingTag);
                        let latest = match self.client.block_total_difficulty(BlockId::Latest) {
                            Some(d) => d,
                            None => {
                                return Err(BulkError::MissingLatestTotalDifficulty);
                            },
                        };
                        let difficulty = match self.miner.pending_block_header(best) {
                            Some(header) => match header.difficulty.checked_add(&latest) {
                                Some(sum) => sum,
                                None => {
                                    return Err(BulkError::TotalDifficultyOverflow);
                                },
                            },
                            None => latest,
                        };
                        Some((pending_block, difficulty, true))
                    },
                    None => {
                        notices.push(Deprecation::PendingFallbackToLatest);
                        match self.query_chain(BlockId::Latest) {
                            Some((b, d)) => Some((b, d, false)),
                            None => None,
                        }
                    },
                }
            },
            Lookup::Chain(chain_id) => match self.query_chain(chain_id) {
                Some((b, d)) => Some((b, d, false)),
                None => None,
            },
        };
        let (block, total_difficulty, is_pending) = match resolved {
            Some(found) => found,
            None => {
                return Ok(None);
            },
        };
        let ghost spec_block = expected.unwrap().unwrap().0;
        assert(block.same(spec_block));
        proof {
            lemma_same_transactions(&self.client(), block.transactions@, spec_block.transactions@);
        }
        let Block { header, uncle_hashes, transactions, size } = block;
        let transactions = match self.transactions_with_receipts(transactions) {
            Ok(entries) => entries,
            Err(e) => {
                return Err(e);
            },
        };
        let Header {
            hash,
            parent_hash,
            uncles_hash,
            author,
            state_root,
            transactions_root,
            receipts_root,
            number,
            gas_used,
            gas_limit,
            extra_data,
            log_bloom,
            timestamp,
            difficulty,
            seal,
        } = header;
        Ok(
            Some(
                BlockWithTransactions {
                    hash: if is_pending {
                        None
                    } else {
                        Some(hash)
                    },
                    parent_hash,
                    uncles_hash,
                    author,
                    miner: author,
                    state_root,
                    transactions_root,
                    receipts_root,
                    number: if is_pending {
                        None
                    } else {
                        Some(number)
                    },
                    gas_used,
                    gas_limit,
                    extra_data,
                    logs_bloom: if is_pending {
                        None
                    } else {
                        Some(log_bloom)
                    },
                    timestamp,
                    difficulty,
                    total_difficulty: Some(total_difficulty),
                    seal_fields: seal,
                    uncles: uncle_hashes,
                    transactions,
                    size: Some(size),
                },
            ),
        )
    }

    /// The block that `num` names; see [`BulkClient::block`].
    pub fn block_by_number(&self, num: BlockNumber, notices: &mut Vec<Deprecation>) -> (r: Result<
        Option<BlockWithTransactions>,
        BulkError,
    >)
        ensures
            block_result(&self.client(), &self.miner(), BlockNumberOrId::Number(num), r),
            final(notices)@ == old(notices)@ + deprecations(
                &self.client(),
                &self.miner(),
                BlockNumberOrId::Number(num),
            ),
    {
        self.block(BlockNumberOrId::from(num), notices)
    }
}

} // verus!
