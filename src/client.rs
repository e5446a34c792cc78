//! The stores a block query reads: the canonical chain with its receipt and
//! trace indices, and the miner's pending block.

use vstd::prelude::*;
use crate::types::{Block, BlockId, H256, Header, LocalizedTrace, Receipt};
use crate::uint::U256;

verus! {

/// Both are absent, or both are present with the same fields.
pub open spec fn same_block(a: Option<Block>, b: Option<Block>) -> bool {
    match (a, b) {
        (Some(x), Some(y)) => x.same(y),
        (None, None) => true,
        _ => false,
    }
}

/// Both are absent, or both are present with the same fields.
pub open spec fn same_header(a: Option<Header>, b: Option<Header>) -> bool {
    match (a, b) {
        (Some(x), Some(y)) => x.same(y),
        (None, None) => true,
        _ => false,
    }
}

/// Read access to the canonical chain and its indices. Each query answers
/// from the store's current contents, which the `spec_` functions describe.
pub trait BlockChainClient {
    /// The block that `id` names, if stored.
    spec fn spec_block(&self, id: BlockId) -> Option<Block>;

    /// The total difficulty of the chain up to the block that `id` names.
    spec fn spec_total_difficulty(&self, id: BlockId) -> Option<U256>;

    /// The number of the best canonical block.
    spec fn spec_best_block_number(&self) -> u64;

    /// The receipt of the transaction with this hash.
    spec fn spec_receipt(&self, hash: H256) -> Option<Receipt>;

    /// The traces of the transaction with this hash, when traces are kept.
    spec fn spec_traces(&self, hash: H256) -> Option<Seq<LocalizedTrace>>;

    fn block(&self, id: BlockId) -> (r: Option<Block>)
        ensures
            same_block(r, self.spec_block(id)),
    ;

    fn block_total_difficulty(&self, id: BlockId) -> (r: Option<U256>)
        ensures
            r == self.spec_total_difficulty(id),
    ;

    fn best_block_number(&self) -> (r: u64)
        ensures
            r == self.spec_best_block_number(),
    ;

    fn transaction_receipt(&self, hash: H256) -> (r: Option<Receipt>)
        ensures
            r == self.spec_receipt(hash),
    ;

    fn transaction_traces(&self, hash: H256) -> (r: Option<Vec<LocalizedTrace>>)
        ensures
            r is Some <==> self.spec_traces(hash) is Some,
            r matches Some(v) ==> v@ == self.spec_traces(hash).unwrap(),
    ;
}

/// The miner's view of the block it is assembling on top of the chain.
pub trait MinerService {
    /// The pending block built on the block numbered `best`, if any.
    spec fn spec_pending_block(&self, best: u64) -> Option<Block>;

    /// The header of that pending block, if any.
    spec fn spec_pending_block_header(&self, best: u64) -> Option<Header>;

    fn pending_block(&self, best: u64) -> (r: Option<Block>)
        ensures
            same_block(r, self.spec_pending_block(best)),
    ;

    fn pending_block_header(&self, best: u64) -> (r: Option<Header>)
        ensures
            same_header(r, self.spec_pending_block_header(best)),
    ;
}

} // verus!
