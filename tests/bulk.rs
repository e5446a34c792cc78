use std::sync::Arc;

use bulk_rpc::bulk::{normalize, BulkClient, Lookup};
use bulk_rpc::memory::{MemoryChain, MemoryMiner};
use bulk_rpc::types::{
    Block, BlockId, BlockNumber, BlockNumberOrId, BlockWithTransactions, BulkError, Deprecation,
    Header, LocalizedTrace, Receipt, Transaction,
};
use bulk_rpc::uint::U256;

fn h(b: u8) -> [u8; 32] {
    [b; 32]
}

fn q(n: u64) -> U256 {
    U256::from_u64(n)
}

fn tx(b: u8) -> Transaction {
    Transaction {
        hash: h(b),
        nonce: q(b as u64),
        from: [b; 20],
        to: Some([b.wrapping_add(1); 20]),
        value: q(1000 + b as u64),
        gas_price: q(20),
        gas: q(21000),
        input: vec![b, b, 7],
    }
}

fn receipt(b: u8) -> Receipt {
    Receipt {
        transaction_hash: h(b),
        cumulative_gas_used: q(21000 * b as u64),
        gas_used: q(21000),
        contract_address: None,
        status_code: Some(1),
    }
}

fn trace(b: u8, subtraces: u64) -> LocalizedTrace {
    LocalizedTrace {
        transaction_hash: h(b),
        subtraces,
        from: [b; 20],
        to: None,
        value: q(5),
        gas_used: q(100 + subtraces),
    }
}

fn block(number: u64, difficulty: u64, txs: Vec<Transaction>) -> Block {
    let tag = 100 + number as u8;
    Block {
        header: Header {
            hash: h(tag),
            parent_hash: h(tag.wrapping_sub(1)),
            uncles_hash: h(200),
            author: [9; 20],
            state_root: h(201),
            transactions_root: h(202),
            receipts_root: h(203),
            number,
            gas_used: q(42000),
            gas_limit: q(8_000_000),
            extra_data: vec![1, 2, 3],
            log_bloom: [tag; 256],
            timestamp: 1_500_000_000 + number,
            difficulty: q(difficulty),
            seal: vec![vec![0xa0, tag], vec![0x88, 1, 2]],
        },
        uncle_hashes: vec![h(50), h(51)],
        transactions: txs,
        size: 500 + number as usize,
    }
}

/// Blocks 0, 1 and 2; block 1 holds transactions 11 and 12, block 2 holds 21.
/// Transaction 12 has no traces stored.
fn chain() -> MemoryChain {
    let mut c = MemoryChain::new();
    c.push_block(block(0, 10, vec![]), q(10));
    c.push_block(block(1, 20, vec![tx(11), tx(12)]), q(30));
    c.push_block(block(2, 30, vec![tx(21)]), q(60));
    for b in [11u8, 12, 21] {
        c.add_receipt(receipt(b));
    }
    c.add_traces(h(11), vec![trace(11, 0), trace(11, 1)]);
    c.add_traces(h(21), vec![trace(21, 3)]);
    c
}

fn client(c: MemoryChain, m: MemoryMiner) -> BulkClient<MemoryChain, MemoryMiner> {
    BulkClient::new(&Arc::new(c), &Arc::new(m))
}

fn query(
    cl: &BulkClient<MemoryChain, MemoryMiner>,
    num: BlockNumber,
) -> (Result<Option<BlockWithTransactions>, BulkError>, Vec<Deprecation>) {
    let mut notices = Vec::new();
    let r = cl.block_by_number(num, &mut notices);
    (r, notices)
}

#[test]
fn canonical_block_by_number_is_found() {
    let cl = client(chain(), MemoryMiner::new());
    let (r, notices) = query(&cl, BlockNumber::Num(1));
    let out = r.unwrap().unwrap();
    assert!(notices.is_empty());
    assert_eq!(out.number, Some(1));
    assert_eq!(out.hash, Some(h(101)));
    assert_eq!(out.difficulty, q(20));
    assert_eq!(out.total_difficulty, Some(q(30)));
    assert_eq!(out.transactions.len(), 2);
    assert_eq!(out.parent_hash, h(100));
    assert_eq!(out.author, [9; 20]);
    assert_eq!(out.miner, [9; 20]);
    assert_eq!(out.logs_bloom, Some([101; 256]));
    assert_eq!(out.extra_data, vec![1, 2, 3]);
    assert_eq!(out.timestamp, 1_500_000_001);
    assert_eq!(out.gas_limit, q(8_000_000));
    assert_eq!(out.size, Some(501));
}

#[test]
fn missing_block_number_is_none() {
    let cl = client(chain(), MemoryMiner::new());
    let (r, notices) = query(&cl, BlockNumber::Num(3));
    assert_eq!(r, Ok(None));
    assert!(notices.is_empty());
    let cl = client(MemoryChain::new(), MemoryMiner::new());
    assert_eq!(query(&cl, BlockNumber::Latest).0, Ok(None));
    assert_eq!(query(&cl, BlockNumber::Earliest).0, Ok(None));
}

#[test]
fn pending_block_hides_final_fields() {
    let pending = block(3, 40, vec![]);
    let cl = client(chain(), MemoryMiner::with_pending(2, pending));
    let (r, notices) = query(&cl, BlockNumber::Pending);
    let out = r.unwrap().unwrap();
    assert_eq!(notices, vec![Deprecation::PendingTag]);
    assert_eq!(out.hash, None);
    assert_eq!(out.number, None);
    assert_eq!(out.logs_bloom, None);
    assert_eq!(out.difficulty, q(40));
    assert_eq!(out.total_difficulty, Some(q(100)));
    assert_eq!(out.parent_hash, h(102));
}

#[test]
fn pending_without_pending_block_serves_latest() {
    let stale = block(9, 40, vec![]);
    let cl = client(chain(), MemoryMiner::with_pending(1, stale));
    let (pending, notices) = query(&cl, BlockNumber::Pending);
    let (latest, latest_notices) = query(&cl, BlockNumber::Latest);
    assert_eq!(pending, latest);
    assert_eq!(notices, vec![Deprecation::PendingFallbackToLatest]);
    assert!(latest_notices.is_empty());
    assert_eq!(pending.unwrap().unwrap().number, Some(2));
}

#[test]
fn receipts_and_traces_come_from_the_store() {
    let cl = client(chain(), MemoryMiner::new());
    let out = query(&cl, BlockNumber::Num(1)).0.unwrap().unwrap();
    assert_eq!(out.transactions[0].transaction, tx(11));
    assert_eq!(out.transactions[0].receipt, receipt(11));
    assert_eq!(out.transactions[0].traces, vec![trace(11, 0), trace(11, 1)]);
    assert_eq!(out.transactions[1].transaction, tx(12));
    assert_eq!(out.transactions[1].receipt, receipt(12));
    assert!(out.transactions[1].traces.is_empty());
}

#[test]
fn stored_order_is_kept() {
    let cl = client(chain(), MemoryMiner::new());
    let out = query(&cl, BlockNumber::Num(1)).0.unwrap().unwrap();
    let hashes: Vec<[u8; 32]> = out.transactions.iter().map(|t| t.transaction.hash).collect();
    assert_eq!(hashes, vec![h(11), h(12)]);
    assert_eq!(out.uncles, vec![h(50), h(51)]);
    assert_eq!(out.seal_fields, vec![vec![0xa0, 101], vec![0x88, 1, 2]]);
}

#[test]
fn repeated_query_gives_equal_results() {
    let cl = client(chain(), MemoryMiner::new());
    let first = query(&cl, BlockNumber::Num(2));
    let second = query(&cl, BlockNumber::Num(2));
    assert_eq!(first, second);
    assert!(first.0.unwrap().is_some());
}

#[test]
fn missing_receipt_fails_the_query() {
    let mut c = chain();
    c.push_block(block(3, 40, vec![tx(31), tx(32), tx(33)]), q(100));
    c.add_receipt(receipt(31));
    let cl = client(c, MemoryMiner::new());
    assert_eq!(query(&cl, BlockNumber::Num(3)).0, Err(BulkError::MissingReceipt(h(32))));
}

#[test]
fn pending_without_latest_difficulty_fails() {
    let cl = client(MemoryChain::new(), MemoryMiner::with_pending(0, block(0, 5, vec![])));
    let (r, notices) = query(&cl, BlockNumber::Pending);
    assert_eq!(r, Err(BulkError::MissingLatestTotalDifficulty));
    assert_eq!(notices, vec![Deprecation::PendingTag]);
}

#[test]
fn pending_total_difficulty_overflow_fails() {
    let mut c = MemoryChain::new();
    let max = U256 { words: [u64::MAX; 4] };
    c.push_block(block(0, 1, vec![]), max);
    let cl = client(c, MemoryMiner::with_pending(0, block(1, 1, vec![])));
    assert_eq!(query(&cl, BlockNumber::Pending).0, Err(BulkError::TotalDifficultyOverflow));
}

#[test]
fn block_by_hash_and_earliest() {
    let cl = client(chain(), MemoryMiner::new());
    let mut notices = Vec::new();
    let by_hash = cl.block(BlockNumberOrId::Id(BlockId::Hash(h(102))), &mut notices).unwrap().unwrap();
    assert_eq!(by_hash.number, Some(2));
    let unknown = cl.block(BlockNumberOrId::Id(BlockId::Hash(h(7))), &mut notices).unwrap();
    assert!(unknown.is_none());
    let earliest = query(&cl, BlockNumber::Earliest).0.unwrap().unwrap();
    assert_eq!(earliest.number, Some(0));
    assert!(earliest.transactions.is_empty());
    assert!(notices.is_empty());
}

#[test]
fn references_are_normalized() {
    assert_eq!(normalize(BlockNumberOrId::from(BlockNumber::Pending)), Lookup::Pending);
    assert_eq!(normalize(BlockNumberOrId::from(BlockNumber::Latest)), Lookup::Chain(BlockId::Latest));
    assert_eq!(normalize(BlockNumberOrId::from(BlockNumber::Earliest)), Lookup::Chain(BlockId::Earliest));
    assert_eq!(normalize(BlockNumberOrId::from(BlockNumber::Num(7))), Lookup::Chain(BlockId::Number(7)));
    assert_eq!(normalize(BlockNumberOrId::from(BlockId::Hash(h(1)))), Lookup::Chain(BlockId::Hash(h(1))));
}

#[test]
fn checked_add_carries_across_words() {
    let a = U256 { words: [u64::MAX, 0, 0, 0] };
    assert_eq!(a.checked_add(&q(1)), Some(U256 { words: [0, 1, 0, 0] }));
    assert_eq!(q(2).checked_add(&q(3)), Some(q(5)));
    let max = U256 { words: [u64::MAX; 4] };
    assert_eq!(max.checked_add(&q(1)), None);
    assert_eq!(max.checked_add(&U256::zero()), Some(max));
}
