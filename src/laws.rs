//! Properties of block queries that follow from the contract of
//! [`BulkClient::block`](crate::bulk::BulkClient::block).

use vstd::prelude::*;
use crate::bulk::{
    block_result, entry_for, first_missing_receipt, receipt_missing, resolve, resolve_chain,
    some_receipt_missing, spec_normalize, traces_or_empty, describes, Lookup,
};
use crate::client::{BlockChainClient, MinerService};
use crate::types::{
    BlockId, BlockNumber, BlockNumberOrId, BlockWithTransactions, BulkError, Transaction,
    seal_view,
};
use crate::uint::{U256, lemma_value_injective};

verus! {

/// The two query results are equal: the same error, both empty, or two
/// blocks with the same fields.
pub open spec fn same_result(
    a: Result<Option<BlockWithTransactions>, BulkError>,
    b: Result<Option<BlockWithTransactions>, BulkError>,
) -> bool {
    match (a, b) {
        (Ok(Some(x)), Ok(Some(y))) => x.same(y),
        (Ok(None), Ok(None)) => true,
        (Err(x), Err(y)) => x == y,
        _ => false,
    }
}

proof fn lemma_first_missing_unique<C: BlockChainClient>(
    c: &C,
    txs: Seq<Transaction>,
    k1: int,
    k2: int,
)
    requires
        first_missing_receipt(c, txs, k1),
        first_missing_receipt(c, txs, k2),
    ensures
        k1 == k2,
{
    if k1 < k2 {
        assert(!receipt_missing(c, txs[k1]));
    } else if k2 < k1 {
        assert(!receipt_missing(c, txs[k2]));
    }
}

proof fn lemma_describes_unique<C: BlockChainClient>(
    c: &C,
    x: BlockWithTransactions,
    y: BlockWithTransactions,
    b: crate::types::Block,
    td: nat,
    pending: bool,
)
    requires
        describes(c, x, b, td, pending),
        describes(c, y, b, td, pending),
    ensures
        x.same(y),
{
    lemma_value_injective(x.total_difficulty.unwrap(), y.total_difficulty.unwrap());
    let txs = b.transactions@;
    assert forall|i: int| 0 <= i < x.transactions@.len() implies {
        &&& (#[trigger] x.transactions@[i]).transaction.same(y.transactions@[i].transaction)
        &&& x.transactions@[i].receipt == y.transactions@[i].receipt
        &&& x.transactions@[i].traces@ == y.transactions@[i].traces@
    } by {
        assert(entry_for(c, x.transactions@[i], txs[i]));
        assert(entry_for(c, y.transactions@[i], txs[i]));
    }
}

/// A query's result is determined by the stores' contents and the reference:
/// two queries with the same reference against unchanged stores return equal
/// results.
pub proof fn lemma_query_idempotent<C: BlockChainClient, M: MinerService>(
    c: &C,
    m: &M,
    id: BlockNumberOrId,
    r1: Result<Option<BlockWithTransactions>, BulkError>,
    r2: Result<Option<BlockWithTransactions>, BulkError>,
)
    requires
        block_result(c, m, id, r1),
        block_result(c, m, id, r2),
    ensures
        same_result(r1, r2),
{
    match resolve(c, m, id) {
        Ok(Some((b, td, pending))) => {
            if some_receipt_missing(c, b.transactions@) {
                let h1 = r1->Err_0->MissingReceipt_0;
                let h2 = r2->Err_0->MissingReceipt_0;
                let k1 = choose|k: int|
                    first_missing_receipt(c, b.transactions@, k) && b.transactions@[k].hash == h1;
                let k2 = choose|k: int|
                    first_missing_receipt(c, b.transactions@, k) && b.transactions@[k].hash == h2;
                lemma_first_missing_unique(c, b.transactions@, k1, k2);
            } else {
                lemma_describes_unique(c, r1->Ok_0->Some_0, r2->Ok_0->Some_0, b, td, pending);
            }
        },
        _ => {},
    }
}

/// A canonical block stored under number `n`, with its total difficulty and
/// a receipt for each transaction, is returned with number `n`, its stored
/// difficulty and total difficulty, and one entry per transaction.
pub proof fn lemma_canonical_block_found<C: BlockChainClient, M: MinerService>(
    c: &C,
    m: &M,
    n: u64,
    r: Result<Option<BlockWithTransactions>, BulkError>,
)
    requires
        c.spec_block(BlockId::Number(n)) matches Some(b) && b.header.number == n,
        c.spec_total_difficulty(BlockId::Number(n)) is Some,
        !some_receipt_missing(c, c.spec_block(BlockId::Number(n)).unwrap().transactions@),
        block_result(c, m, BlockNumberOrId::Number(BlockNumber::Num(n)), r),
    ensures
        r matches Ok(Some(out)) && {
            let b = c.spec_block(BlockId::Number(n)).unwrap();
            &&& out.number == Some(n)
            &&& out.difficulty == b.header.difficulty
            &&& out.total_difficulty == c.spec_total_difficulty(BlockId::Number(n))
            &&& out.transactions.len() == b.transactions.len()
        },
{
    let out = r->Ok_0->Some_0;
    lemma_value_injective(
        out.total_difficulty.unwrap(),
        c.spec_total_difficulty(BlockId::Number(n)).unwrap(),
    );
}

/// A number under which no block is stored gives an empty result.
pub proof fn lemma_missing_block_is_none<C: BlockChainClient, M: MinerService>(
    c: &C,
    m: &M,
    n: u64,
    r: Result<Option<BlockWithTransactions>, BulkError>,
)
    requires
        c.spec_block(BlockId::Number(n)) is None,
        block_result(c, m, BlockNumberOrId::Number(BlockNumber::Num(n)), r),
    ensures
        r == Ok::<Option<BlockWithTransactions>, BulkError>(None),
{
}

/// When the miner has a pending block, the `pending` tag returns it without
/// hash, number or logs bloom, and with the pending header's difficulty on
/// top of the latest total difficulty (the latter alone when the miner has
/// no pending header).
pub proof fn lemma_pending_block<C: BlockChainClient, M: MinerService>(
    c: &C,
    m: &M,
    latest: U256,
    r: Result<Option<BlockWithTransactions>, BulkError>,
)
    requires
        m.spec_pending_block(c.spec_best_block_number()) is Some,
        c.spec_total_difficulty(BlockId::Latest) == Some(latest),
        !some_receipt_missing(
            c,
            m.spec_pending_block(c.spec_best_block_number()).unwrap().transactions@,
        ),
        block_result(c, m, BlockNumberOrId::Number(BlockNumber::Pending), r),
    ensures
        match m.spec_pending_block_header(c.spec_best_block_number()) {
            Some(h) => h.difficulty.value() + latest.value() >= U256::modulus() ==> r == Err::<
                Option<BlockWithTransactions>,
                BulkError,
            >(BulkError::TotalDifficultyOverflow),
            None => true,
        },
        r is Ok ==> (r matches Ok(Some(out)) && {
            &&& out.hash is None
            &&& out.number is None
            &&& out.logs_bloom is None
            &&& out.total_difficulty matches Some(t) && t.value() == match m.spec_pending_block_header(
                c.spec_best_block_number(),
            ) {
                Some(h) => h.difficulty.value() + latest.value(),
                None => latest.value(),
            }
        }),
        match m.spec_pending_block_header(c.spec_best_block_number()) {
            Some(h) => h.difficulty.value() + latest.value() < U256::modulus(),
            None => true,
        } ==> r is Ok,
{
}

/// Without a pending block, the `pending` tag returns what `latest` returns.
pub proof fn lemma_pending_falls_back_to_latest<C: BlockChainClient, M: MinerService>(
    c: &C,
    m: &M,
    pending: Result<Option<BlockWithTransactions>, BulkError>,
    latest: Result<Option<BlockWithTransactions>, BulkError>,
)
    requires
        m.spec_pending_block(c.spec_best_block_number()) is None,
        block_result(c, m, BlockNumberOrId::Number(BlockNumber::Pending), pending),
        block_result(c, m, BlockNumberOrId::Number(BlockNumber::Latest), latest),
    ensures
        same_result(pending, latest),
{
    assert(block_result(c, m, BlockNumberOrId::Number(BlockNumber::Latest), pending));
    lemma_query_idempotent(c, m, BlockNumberOrId::Number(BlockNumber::Latest), pending, latest);
}

/// Each transaction of a canonical block comes back with the store's receipt
/// for its hash and the store's traces for it, or no traces when the store
/// keeps none.
pub proof fn lemma_receipts_and_traces<C: BlockChainClient, M: MinerService>(
    c: &C,
    m: &M,
    id: BlockNumberOrId,
    r: Result<Option<BlockWithTransactions>, BulkError>,
)
    requires
        spec_normalize(id) matches Lookup::Chain(b) && resolve_chain(c, b) is Some,
        block_result(c, m, id, r),
        r matches Ok(Some(_)),
    ensures
        ({
            let txs = resolve_chain(c, spec_normalize(id)->Chain_0).unwrap().0.transactions@;
            let out = r->Ok_0->Some_0.transactions@;
            &&& out.len() == txs.len()
            &&& forall|i: int|
                0 <= i < out.len() ==> {
                    &&& c.spec_receipt(txs[i].hash) == Some(#[trigger] out[i].receipt)
                    &&& out[i].traces@ == traces_or_empty(c, txs[i].hash)
                }
        }),
{
    let txs = resolve_chain(c, spec_normalize(id)->Chain_0).unwrap().0.transactions@;
    let out = r->Ok_0->Some_0.transactions@;
    assert forall|i: int| 0 <= i < out.len() implies {
        &&& c.spec_receipt(txs[i].hash) == Some(#[trigger] out[i].receipt)
        &&& out[i].traces@ == traces_or_empty(c, txs[i].hash)
    } by {
        assert(entry_for(c, out[i], txs[i]));
    }
}

/// A returned block keeps the stored order of its transactions, its uncles
/// and its seal fields.
pub proof fn lemma_order_kept<C: BlockChainClient, M: MinerService>(
    c: &C,
    m: &M,
    id: BlockNumberOrId,
    r: Result<Option<BlockWithTransactions>, BulkError>,
)
    requires
        resolve(c, m, id) matches Ok(Some(_)),
        block_result(c, m, id, r),
        r matches Ok(Some(_)),
    ensures
        ({
            let b = resolve(c, m, id)->Ok_0->Some_0.0;
            let out = r->Ok_0->Some_0;
            &&& out.transactions.len() == b.transactions.len()
            &&& forall|i: int|
                0 <= i < out.transactions.len() ==> (#[trigger] out.transactions@[i]).transaction.same(
                    b.transactions@[i],
                )
            &&& out.uncles@ == b.uncle_hashes@
            &&& seal_view(out.seal_fields@) == seal_view(b.header.seal@)
        }),
{
    let b = resolve(c, m, id)->Ok_0->Some_0.0;
    let out = r->Ok_0->Some_0;
    assert forall|i: int| 0 <= i < out.transactions.len() implies (#[trigger] out.transactions@[i]).transaction.same(
        b.transactions@[i],
    ) by {
        assert(entry_for(c, out.transactions@[i], b.transactions@[i]));
    }
}

} // verus!
