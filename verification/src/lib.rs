//! Host-keyed request dispatch for a reverse proxy: a routing table from
//! virtual-host keys to backend pools, a fallback route, and the step that
//! turns a routing decision into a concrete upstream target.

pub mod host_text;
pub mod host_trie;
pub mod pool;
pub mod proxy;
