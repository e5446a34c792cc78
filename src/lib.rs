//! Block-with-transactions query: resolves a block reference against a chain
//! reader and a pending-block provider, and assembles the block's header
//! fields, total difficulty, and every transaction with its receipt and traces.

pub mod uint;
pub mod types;
pub mod client;
pub mod bulk;
pub mod laws;
pub mod memory;
