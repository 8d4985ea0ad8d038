//! Hybrid HTTP response cache engine: cache-key derivation and freshness
//! decisions, the base-tag rewrite state machine applied to cached page
//! bodies, header sanitisation, and the rate-limited deduplicating worker
//! that ships cached entries to a remote cache server and seeds entries
//! pulled back from it.

pub mod headers;
pub mod keys;
pub mod remote;
pub mod rewriter;
pub mod store;
pub mod worker;

