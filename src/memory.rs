//! Chain and miner stores held in memory.

use vstd::prelude::*;
use crate::client::{BlockChainClient, MinerService};
use crate::types::{
    Block, BlockId, H256, Header, LocalizedTrace, Receipt, Transaction, seal_view,
    same_transactions,
};
use crate::uint::U256;

verus! {

/// Compares two hashes byte by byte.
fn hash_eq(a: &H256, b: &H256) -> (r: bool)
    ensures
        r == (*a == *b),
{
    for i in 0..32
        invariant
            forall|j: int| 0 <= j < i ==> a@[j] == b@[j],
    {
        if a[i] != b[i] {
            return false;
        }
    }
    assert(*a =~= *b);
    true
}

/// A copy of a vector of plain values.
fn copy_vec<T: Copy>(v: &Vec<T>) -> (r: Vec<T>)
    ensures
        r@ == v@,
{
    let mut r: Vec<T> = Vec::new();
    for i in 0..v.len()
        invariant
            r@ == v@.subrange(0, i as int),
    {
        r.push(v[i]);
        assert(r@ =~= v@.subrange(0, i + 1));
    }
    assert(r@ =~= v@);
    r
}

fn copy_seal(seal: &Vec<Vec<u8>>) -> (r: Vec<Vec<u8>>)
    ensures
        seal_view(r@) == seal_view(seal@),
{
    let mut r: Vec<Vec<u8>> = Vec::new();
    for i in 0..seal.len()
        invariant
            r.len() == i,
            i <= seal.len(),
            forall|j: int| 0 <= j < i ==> (#[trigger] r@[j])@ == seal@[j]@,
    {
        r.push(copy_vec(&seal[i]));
    }
    assert(seal_view(r@) =~= seal_view(seal@));
    r
}

fn copy_header(h: &Header) -> (r: Header)
    ensures
        r.same(*h),
{
    Header {
        hash: h.hash,
        parent_hash: h.parent_hash,
        uncles_hash: h.uncles_hash,
        author: h.author,
        state_root: h.state_root,
        transactions_root: h.transactions_root,
        receipts_root: h.receipts_root,
        number: h.number,
        gas_used: h.gas_used,
        gas_limit: h.gas_limit,
        extra_data: copy_vec(&h.extra_data),
        log_bloom: h.log_bloom,
        timestamp: h.timestamp,
        difficulty: h.difficulty,
        seal: copy_seal(&h.seal),
    }
}

fn copy_transaction(t: &Transaction) -> (r: Transaction)
    ensures
        r.same(*t),
{
    Transaction {
        hash: t.hash,
        nonce: t.nonce,
        from: t.from,
        to: t.to,
        value: t.value,
        gas_price: t.gas_price,
        gas: t.gas,
        input: copy_vec(&t.input),
    }
}

fn copy_block(b: &Block) -> (r: Block)
    ensures
        r.same(*b),
{
    let mut transactions: Vec<Transaction> = Vec::new();
    for i in 0..b.transactions.len()
        invariant
            transactions.len() == i,
            i <= b.transactions.len(),
            forall|j: int| 0 <= j < i ==> (#[trigger] transactions@[j]).same(b.transactions@[j]),
    {
        transactions.push(copy_transaction(&b.transactions[i]));
    }
    Block {
        header: copy_header(&b.header),
        uncle_hashes: copy_vec(&b.uncle_hashes),
        transactions,
        size: b.size,
    }
}

/// The first position of `key` in `keys`.
pub open spec fn first_index(keys: Seq<H256>, key: H256) -> Option<int>
    decreases keys.len(),
{
    if keys.len() == 0 {
        None
    } else {
        match first_index(keys.drop_last(), key) {
            Some(i) => Some(i),
            None => if keys.last() == key {
                Some(keys.len() - 1)
            } else {
                None
            },
        }
    }
}

proof fn lemma_first_index_bounds(keys: Seq<H256>, key: H256)
    ensures
        first_index(keys, key) matches Some(i) ==> 0 <= i < keys.len() && keys[i] == key,
    decreases keys.len(),
{
    if keys.len() > 0 {
        lemma_first_index_bounds(keys.drop_last(), key);
    }
}

pub open spec fn block_hashes(blocks: Seq<(Block, U256)>) -> Seq<H256> {
    blocks.map_values(|e: (Block, U256)| e.0.header.hash)
}

pub open spec fn receipt_hashes(receipts: Seq<Receipt>) -> Seq<H256> {
    receipts.map_values(|r: Receipt| r.transaction_hash)
}

pub open spec fn trace_hashes(traces: Seq<(H256, Vec<LocalizedTrace>)>) -> Seq<H256> {
    traces.map_values(|e: (H256, Vec<LocalizedTrace>)| e.0)
}

/// A canonical chain in memory: blocks in order of their numbers, starting
/// at zero, each with its total difficulty; receipts; and the traces kept
/// per transaction.
pub struct MemoryChain {
    blocks: Vec<(Block, U256)>,
    receipts: Vec<Receipt>,
    traces: Vec<(H256, Vec<LocalizedTrace>)>,
}

impl MemoryChain {
    pub closed spec fn blocks(&self) -> Seq<(Block, U256)> {
        self.blocks@
    }

    pub closed spec fn receipts(&self) -> Seq<Receipt> {
        self.receipts@
    }

    pub closed spec fn traces(&self) -> Seq<(H256, Vec<LocalizedTrace>)> {
        self.traces@
    }

    /// The position of the block that `id` names.
    pub open spec fn position(&self, id: BlockId) -> Option<int> {
        let n = self.blocks().len();
        match id {
            BlockId::Number(k) => if k < n {
                Some(k as int)
            } else {
                None
            },
            BlockId::Latest => if n > 0 {
                Some(n - 1)
            } else {
                None
            },
            BlockId::Earliest => if n > 0 {
                Some(0int)
            } else {
                None
            },
            BlockId::Hash(h) => first_index(block_hashes(self.blocks()), h),
        }
    }

    /// An empty chain.
    pub fn new() -> (r: Self)
        ensures
            r.blocks().len() == 0,
            r.receipts().len() == 0,
            r.traces().len() == 0,
    {
        MemoryChain { blocks: Vec::new(), receipts: Vec::new(), traces: Vec::new() }
    }

    /// Appends a block, numbered by its position, with its total difficulty.
    pub fn push_block(&mut self, block: Block, total_difficulty: U256)
        ensures
            final(self).blocks() == old(self).blocks().push((block, total_difficulty)),
            final(self).receipts() == old(self).receipts(),
            final(self).traces() == old(self).traces(),
    {
        self.blocks.push((block, total_difficulty));
    }

    /// Records a receipt under its transaction's hash.
    pub fn add_receipt(&mut self, receipt: Receipt)
        ensures
            final(self).blocks() == old(self).blocks(),
            final(self).receipts() == old(self).receipts().push(receipt),
            final(self).traces() == old(self).traces(),
    {
        self.receipts.push(receipt);
    }

    /// Records the traces of the transaction with hash `hash`.
    pub fn add_traces(&mut self, hash: H256, traces: Vec<LocalizedTrace>)
        ensures
            final(self).blocks() == old(self).blocks(),
            final(self).receipts() == old(self).receipts(),
            final(self).traces() == old(self).traces().push((hash, traces)),
    {
        self.traces.push((hash, traces));
    }

    fn position_of(&self, id: BlockId) -> (r: Option<usize>)
        ensures
            r matches Some(j) ==> self.position(id) == Some(j as int),
            r is None <==> self.position(id) is None,
    {
        let n = self.blocks.len();
        match id {
            BlockId::Number(k) => if k < n as u64 {
                Some(k as usize)
            } else {
                None
            },
            BlockId::Latest => if n > 0 {
                Some(n - 1)
            } else {
                None
            },
            BlockId::Earliest => if n > 0 {
                Some(0)
            } else {
                None
            },
            BlockId::Hash(h) => {
                let ghost keys = block_hashes(self.blocks@);
                let mut found: Option<usize> = None;
                for i in 0..n
                    invariant
                        n == self.blocks@.len(),
                        keys == block_hashes(self.blocks@),
                        found matches Some(f) ==> first_index(keys.subrange(0, i as int), h) == Some(f as int),
                        found is None <==> first_index(keys.subrange(0, i as int), h) is None,
                {
                    assert(keys.subrange(0, i + 1).drop_last() =~= keys.subrange(0, i as int));
                    if found.is_none() && hash_eq(&self.blocks[i].0.header.hash, &h) {
                        found = Some(i);
                    }
                }
                assert(keys.subrange(0, n as int) =~= keys);
                found
            },
        }
    }
}

impl BlockChainClient for MemoryChain {
    open spec fn spec_block(&self, id: BlockId) -> Option<Block> {
        match self.position(id) {
            Some(i) => Some(self.blocks()[i].0),
            None => None,
        }
    }

    open spec fn spec_total_difficulty(&self, id: BlockId) -> Option<U256> {
        match self.position(id) {
            Some(i) => Some(self.blocks()[i].1),
            None => None,
        }
    }

    open spec fn spec_best_block_number(&self) -> u64 {
        if self.blocks().len() == 0 {
            0
        } else {
            (self.blocks().len() - 1) as u64
        }
    }

    open spec fn spec_receipt(&self, hash: H256) -> Option<Receipt> {
        match first_index(receipt_hashes(self.receipts()), hash) {
            Some(i) => Some(self.receipts()[i]),
            None => None,
        }
    }

    open spec fn spec_traces(&self, hash: H256) -> Option<Seq<LocalizedTrace>> {
        match first_index(trace_hashes(self.traces()), hash) {
            Some(i) => Some(self.traces()[i].1@),
            None => None,
        }
    }

    fn block(&self, id: BlockId) -> (r: Option<Block>) {
        proof {
            if let BlockId::Hash(h) = id {
                lemma_first_index_bounds(block_hashes(self.blocks@), h);
            }
        }
        match self.position_of(id) {
            Some(i) => Some(copy_block(&self.blocks[i].0)),
            None => None,
        }
    }

    fn block_total_difficulty(&self, id: BlockId) -> (r: Option<U256>) {
        proof {
            if let BlockId::Hash(h) = id {
                lemma_first_index_bounds(block_hashes(self.blocks@), h);
            }
        }
        match self.position_of(id) {
            Some(i) => Some(self.blocks[i].1),
            None => None,
        }
    }

    fn best_block_number(&self) -> (r: u64) {
        if self.blocks.len() == 0 {
            0
        } else {
            (self.blocks.len() - 1) as u64
        }
    }

    fn transaction_receipt(&self, hash: H256) -> (r: Option<Receipt>) {
        let ghost keys = receipt_hashes(self.receipts@);
        let mut found: Option<Receipt> = None;
        for i in 0..self.receipts.len()
            invariant
                keys == receipt_hashes(self.receipts@),
                match first_index(keys.subrange(0, i as int), hash) {
                    Some(j) => found == Some(self.receipts@[j]),
                    None => found is None,
                },
        {
            assert(keys.subrange(0, i + 1).drop_last() =~= keys.subrange(0, i as int));
            if found.is_none() && hash_eq(&self.receipts[i].transaction_hash, &hash) {
                found = Some(self.receipts[i]);
            }
        }
        assert(keys.subrange(0, self.receipts@.len() as int) =~= keys);
        found
    }

    fn transaction_traces(&self, hash: H256) -> (r: Option<Vec<LocalizedTrace>>) {
        let ghost keys = trace_hashes(self.traces@);
        let mut found: Option<usize> = None;
        for i in 0..self.traces.len()
            invariant
                keys == trace_hashes(self.traces@),
                found matches Some(f) ==> first_index(keys.subrange(0, i as int), hash) == Some(f as int),
                found is None <==> first_index(keys.subrange(0, i as int), hash) is None,
        {
            assert(keys.subrange(0, i + 1).drop_last() =~= keys.subrange(0, i as int));
            if found.is_none() && hash_eq(&self.traces[i].0, &hash) {
                found = Some(i);
            }
        }
        assert(keys.subrange(0, self.traces@.len() as int) =~= keys);
        proof {
            lemma_first_index_bounds(keys, hash);
        }
        match found {
            Some(i) => Some(copy_vec(&self.traces[i].1)),
            None => None,
        }
    }
}

/// A miner in memory that holds at most one pending block, built on the
/// block with a given number.
pub struct MemoryMiner {
    pending: Option<(u64, Block)>,
}

impl MemoryMiner {
    pub closed spec fn pending(&self) -> Option<(u64, Block)> {
        self.pending
    }

    /// A miner with no pending block.
    pub fn new() -> (r: Self)
        ensures
            r.pending() is None,
    {
        MemoryMiner { pending: None }
    }

    /// A miner whose pending block `block` is built on block number `parent`.
    pub fn with_pending(parent: u64, block: Block) -> (r: Self)
        ensures
            r.pending() == Some((parent, block)),
    {
        MemoryMiner { pending: Some((parent, block)) }
    }
}

impl MinerService for MemoryMiner {
    open spec fn spec_pending_block(&self, best: u64) -> Option<Block> {
        match self.pending() {
            Some((parent, b)) => if parent == best {
                Some(b)
            } else {
                None
            },
            None => None,
        }
    }

    open spec fn spec_pending_block_header(&self, best: u64) -> Option<Header> {
        match self.spec_pending_block(best) {
            Some(b) => Some(b.header),
            None => None,
        }
    }

    fn pending_block(&self, best: u64) -> (r: Option<Block>) {
        match &self.pending {
            Some((parent, b)) => if *parent == best {
                Some(copy_block(b))
            } else {
                None
            },
            None => None,
        }
    }

    fn pending_block_header(&self, best: u64) -> (r: Option<Header>) {
        match &self.pending {
            Some((parent, b)) => if *parent == best {
                Some(copy_header(&b.header))
            } else {
                None
            },
            None => None,
        }
    }
}

} // verus!
