//! Verified core of a block indexer: the records kept for each block, the
//! crawler's catch-up and per-block decisions, and the rules of the block API.

pub mod block;
pub mod catch_up;
pub mod crawl;
pub mod api;
pub mod bond;
pub mod client;
pub mod namada;
