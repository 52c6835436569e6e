//! Per-host route configuration.

use crate::pool::BackendPool;
use std::sync::Arc;
use vstd::prelude::*;

verus! {

/// One route: the pool that serves a virtual host and how to reach it.
///
/// Several routes may share one pool; the pool lives as long as any route
/// that refers to it.
#[derive(Clone)]
pub struct ServerConf {
    /// The pool that serves requests for this route.
    pub upstream: Arc<BackendPool>,
    /// The virtual-host key this route was configured for. The fallback route
    /// is not bound to a host and does not use it.
    pub host: &'static [u8],
    /// Whether connections to the chosen endpoint use TLS.
    pub tls: bool,
}

impl ServerConf {
    /// A route for `host` served by `upstream`.
    pub fn new(upstream: Arc<BackendPool>, host: &'static [u8], tls: bool) -> (conf: Self)
        ensures
            conf.upstream == upstream,
            conf.host == host,
            conf.tls == tls,
    {
        ServerConf { upstream, host, tls }
    }
}

} // verus!
