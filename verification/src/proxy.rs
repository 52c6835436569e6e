//! The routing table and the per-request dispatch decision.

pub mod server;

use crate::host_text::{host_name, host_text};
use crate::host_trie::{routes, trie_get, trie_insert, trie_new, trie_remove};
use crate::pool::{selection, SelectionError};
use radix_trie::Trie;
use server::ServerConf;
use vstd::prelude::*;

verus! {

/// How many candidates a strategy may walk through before it gives up.
pub const SELECTION_ATTEMPTS: usize = 256;

/// Per-request scratch state carried alongside a dispatch decision.
pub struct Ctx {}

/// Why a route could not be registered.
#[derive(Clone, Copy, Debug, PartialEq, Eq, Structural)]
pub enum ConfigError {
    /// A route must be registered under a non-empty host key.
    InvalidKey,
}

/// Why a request could not be given an upstream.
#[derive(Clone, Copy, Debug, PartialEq, Eq, Structural)]
pub enum DispatchError {
    /// No route matches the host and no fallback route is configured.
    NoRoute,
    /// The pool of the matching route could not supply an endpoint.
    NoHealthyBackend,
}

/// Where to send a request.
#[derive(Clone, Debug, PartialEq, Eq)]
pub struct UpstreamTarget {
    /// Address of the chosen endpoint.
    pub address: String,
    /// Whether to connect with TLS.
    pub use_tls: bool,
    /// Host name to present upstream; empty if the request's host key is
    /// empty or is not valid UTF-8.
    pub sni_or_host: String,
}

/// The mathematical content of a routing table.
pub struct Routes {
    /// Routes by host key.
    pub table: Map<Seq<u8>, ServerConf>,
    /// The route used when no host matches or none is presented.
    pub fallback: Option<ServerConf>,
}

impl Routes {
    /// No stored route sits under the empty host key.
    pub open spec fn wf(self) -> bool {
        !self.table.contains_key(Seq::<u8>::empty())
    }

    /// The table without any route.
    pub open spec fn empty() -> Routes {
        Routes { table: Map::empty(), fallback: None }
    }

    /// The table after registering `conf` under `host`.
    pub open spec fn insert(self, host: Seq<u8>, conf: ServerConf) -> Routes {
        Routes { table: self.table.insert(host, conf), fallback: self.fallback }
    }

    /// The table after dropping whatever is registered under `host`.
    pub open spec fn remove(self, host: Seq<u8>) -> Routes {
        Routes { table: self.table.remove(host), fallback: self.fallback }
    }

    /// The table after making `conf` the fallback route.
    pub open spec fn set_fallback(self, conf: ServerConf) -> Routes {
        Routes { table: self.table, fallback: Some(conf) }
    }

    /// The route registered under exactly `host`. The empty key never
    /// matches.
    pub open spec fn lookup(self, host: Seq<u8>) -> Option<ServerConf> {
        if host.len() != 0 && self.table.contains_key(host) {
            Some(self.table[host])
        } else {
            None
        }
    }

    /// The route that serves a request for `host`: the fallback when no host
    /// is presented, else the exact match, else the fallback.
    pub open spec fn route(self, host: Seq<u8>) -> Option<ServerConf> {
        if host.len() == 0 {
            self.fallback
        } else {
            match self.lookup(host) {
                Some(conf) => Some(conf),
                None => self.fallback,
            }
        }
    }
}

/// The outcome of a dispatch through `conf` for a request with host key
/// `host`, given what the route's pool selected.
pub open spec fn peer_outcome(
    conf: ServerConf,
    host: Seq<u8>,
    selected: Result<String, SelectionError>,
    outcome: Result<UpstreamTarget, DispatchError>,
) -> bool {
    match selected {
        Ok(address) => {
            &&& outcome matches Ok(target)
            &&& target.address == address
            &&& target.use_tls == conf.tls
            &&& target.sni_or_host@ == host_text(host)
        },
        Err(_) => outcome == Err::<UpstreamTarget, DispatchError>(DispatchError::NoHealthyBackend),
    }
}

/// Whether `outcome` is a possible result of dispatching a request with host
/// key `host` through `conf`: the result for some answer of the strategy of
/// the route's pool.
pub open spec fn dispatched(
    conf: ServerConf,
    host: Seq<u8>,
    outcome: Result<UpstreamTarget, DispatchError>,
) -> bool {
    exists|picked: Option<usize>|
        peer_outcome(conf, host, #[trigger] selection(conf.upstream.endpoints(), picked), outcome)
}

/// Whether `outcome` is a possible result of deciding a request with host key
/// `host` against `routes`: `NoRoute` when no route serves the host, and
/// otherwise a possible result of dispatching through the route that does.
pub open spec fn resolved(
    routes: Routes,
    host: Seq<u8>,
    outcome: Result<UpstreamTarget, DispatchError>,
) -> bool {
    match routes.route(host) {
        Some(conf) => dispatched(conf, host, outcome),
        None => outcome == Err::<UpstreamTarget, DispatchError>(DispatchError::NoRoute),
    }
}

impl ServerConf {
    /// Builds the upstream target for a request routed through this entry,
    /// from what the entry's pool selected. A failed selection becomes
    /// `NoHealthyBackend`; an undecodable host key only empties the host name.
    pub fn peer(&self, host: &[u8], selected: Result<String, SelectionError>) -> (outcome: Result<
        UpstreamTarget,
        DispatchError,
    >)
        ensures
            peer_outcome(*self, host@, selected, outcome),
    {
        match selected {
            Ok(address) => Ok(
                UpstreamTarget { address, use_tls: self.tls, sni_or_host: host_name(host) },
            ),
            Err(_) => Err(DispatchError::NoHealthyBackend),
        }
    }

    /// Dispatches a request through this route: asks the pool for an
    /// endpoint and builds the target from it.
    ///
    /// Which endpoint comes back is the strategy's choice; whatever it is,
    /// the outcome is the one that `peer` gives for some selection of this
    /// route's pool.
    pub fn dispatch(&self, host: &[u8]) -> (outcome: Result<UpstreamTarget, DispatchError>)
        ensures
            dispatched(*self, host@, outcome),
            self.upstream.endpoints().len() == 0 ==> outcome is Err,
            outcome matches Err(e) ==> e == DispatchError::NoHealthyBackend,
            outcome matches Ok(target) ==> self.upstream.endpoints().contains(target.address),
            outcome matches Ok(target) ==> target.use_tls == self.tls,
            outcome matches Ok(target) ==> target.sni_or_host@ == host_text(host@),
    {
        let selected = self.upstream.select(&[], SELECTION_ATTEMPTS);
        self.peer(host, selected)
    }
}

/// Routing table keyed by virtual host, with an optional fallback route.
pub struct Proxy {
    v_server: Trie<&'static [u8], ServerConf>,
    global_server: Option<ServerConf>,
}

impl View for Proxy {
    type V = Routes;

    closed spec fn view(&self) -> Routes {
        Routes { table: routes(self.v_server), fallback: self.global_server }
    }
}

impl Proxy {
    /// An empty table without a fallback route.
    pub fn new() -> (proxy: Self)
        ensures
            proxy@ == Routes::empty(),
            proxy@.wf(),
    {
        Proxy { v_server: trie_new(), global_server: None }
    }

    /// Registers `conf` under `host`, replacing any route already there.
    /// The empty host key is refused and leaves the table as it was.
    pub fn add_server(&mut self, host: &'static [u8], conf: ServerConf) -> (r: Result<
        (),
        ConfigError,
    >)
        ensures
            host@.len() == 0 ==> r == Err::<(), ConfigError>(ConfigError::InvalidKey),
            host@.len() == 0 ==> final(self)@ == old(self)@,
            host@.len() != 0 ==> r == Ok::<(), ConfigError>(()),
            host@.len() != 0 ==> final(self)@ == old(self)@.insert(host@, conf),
            old(self)@.wf() ==> final(self)@.wf(),
    {
        if host.len() == 0 {
            return Err(ConfigError::InvalidKey);
        }
        let _ = trie_insert(&mut self.v_server, host, conf);
        Ok(())
    }

    /// Makes `conf` the fallback route, replacing any earlier one.
    pub fn set_global_server(&mut self, conf: ServerConf)
        ensures
            final(self)@ == old(self)@.set_fallback(conf),
            old(self)@.wf() ==> final(self)@.wf(),
    {
        self.global_server = Some(conf);
    }

    /// The fallback route, if one is configured.
    pub fn get_global_server(&self) -> (r: Option<&ServerConf>)
        ensures
            r == match self@.fallback {
                Some(conf) => Some(&conf),
                None => None,
            },
    {
        self.global_server.as_ref()
    }

    /// The route registered under exactly `host`; nothing for the empty key
    /// or a key that is not registered.
    pub fn get_server(&self, host: &[u8]) -> (r: Option<&ServerConf>)
        ensures
            r == match self@.lookup(host@) {
                Some(conf) => Some(&conf),
                None => None,
            },
    {
        if host.len() == 0 {
            return None;
        }
        trie_get(&self.v_server, host)
    }

    /// Drops the route registered under `host`, if there is one.
    pub fn remove_server(&mut self, host: &[u8])
        ensures
            final(self)@ == old(self)@.remove(host@),
            !old(self)@.table.contains_key(host@) ==> final(self)@ == old(self)@,
            old(self)@.wf() ==> final(self)@.wf(),
    {
        let _ = trie_remove(&mut self.v_server, host);
        proof {
            if !old(self)@.table.contains_key(host@) {
                assert(old(self)@.table.remove(host@) =~= old(self)@.table);
            }
        }
    }

    /// The route that serves a request for `host`: the fallback when the key
    /// is empty, else the exact match, else the fallback.
    pub fn route(&self, host: &[u8]) -> (r: Option<&ServerConf>)
        ensures
            r == match self@.route(host@) {
                Some(conf) => Some(&conf),
                None => None,
            },
    {
        if host.len() == 0 {
            return self.get_global_server();
        }
        match self.get_server(host) {
            Some(conf) => Some(conf),
            None => self.get_global_server(),
        }
    }

    /// Dispatches a request through the fallback route, whatever is
    /// registered for its host; `NoRoute` if no fallback is configured.
    pub fn global_upstream(&self, host: &[u8]) -> (outcome: Result<UpstreamTarget, DispatchError>)
        ensures
            self@.fallback is None <==> outcome == Err::<UpstreamTarget, DispatchError>(
                DispatchError::NoRoute,
            ),
            self@.fallback matches Some(conf) ==> dispatched(conf, host@, outcome),
    {
        match self.get_global_server() {
            Some(conf) => conf.dispatch(host),
            None => Err(DispatchError::NoRoute),
        }
    }

    /// Decides where a request for `host` goes.
    ///
    /// An empty key goes straight to the fallback route. Any other key goes
    /// to the route registered under exactly that key, and to the fallback
    /// route if there is none. Without a route the request fails with
    /// `NoRoute`; with one, the route's pool selects an endpoint, and the
    /// request fails with `NoHealthyBackend` if the pool has none to give.
    /// The table is never changed.
    pub fn upstream_peer(&self, host: &[u8]) -> (outcome: Result<UpstreamTarget, DispatchError>)
        ensures
            resolved(self@, host@, outcome),
            self@.route(host@) is None <==> outcome == Err::<UpstreamTarget, DispatchError>(
                DispatchError::NoRoute,
            ),
            self@.route(host@) matches Some(conf) ==> dispatched(conf, host@, outcome),
    {
        if host.len() == 0 {
            return self.global_upstream(host);
        }
        let conf = match self.get_server(host) {
            Some(conf) => conf,
            None => {
                return self.global_upstream(host);
            },
        };
        conf.dispatch(host)
    }

    /// A fresh per-request context.
    pub fn new_ctx(&self) -> Ctx {
        Ctx {}
    }
}

/// Registering twice under one host key leaves only the second route: the
/// table is the one that the second registration alone would give, and a
/// lookup of the key finds the second route.
pub proof fn lemma_last_registration_wins(
    routes: Routes,
    host: Seq<u8>,
    first: ServerConf,
    second: ServerConf,
)
    requires
        host.len() != 0,
    ensures
        routes.insert(host, first).insert(host, second).lookup(host) == Some(second),
        routes.insert(host, first).insert(host, second) == routes.insert(host, second),
{
    assert(routes.table.insert(host, first).insert(host, second) =~= routes.table.insert(
        host,
        second,
    ));
}

/// Removing a host key that is not registered changes nothing, and removing
/// a key a second time changes nothing more.
pub proof fn lemma_remove_is_idempotent(routes: Routes, host: Seq<u8>)
    ensures
        !routes.table.contains_key(host) ==> routes.remove(host) == routes,
        routes.remove(host).remove(host) == routes.remove(host),
        routes.remove(host).lookup(host) is None,
{
    if !routes.table.contains_key(host) {
        assert(routes.table.remove(host) =~= routes.table);
    }
    assert(routes.table.remove(host).remove(host) =~= routes.table.remove(host));
}

/// A host without a route of its own is served by the fallback route, as a
/// request without a host is: both are dispatched through the fallback.
pub proof fn lemma_fallback_serves_unmatched(
    routes: Routes,
    host: Seq<u8>,
    fallback: ServerConf,
    outcome: Result<UpstreamTarget, DispatchError>,
)
    requires
        !routes.table.contains_key(host),
        routes.fallback == Some(fallback),
    ensures
        routes.route(host) == Some(fallback),
        routes.route(Seq::<u8>::empty()) == Some(fallback),
        resolved(routes, host, outcome) <==> dispatched(fallback, host, outcome),
        resolved(routes, Seq::<u8>::empty(), outcome) <==> dispatched(
            fallback,
            Seq::<u8>::empty(),
            outcome,
        ),
{
}

/// With no route registered and no fallback, every request fails with
/// `NoRoute`.
pub proof fn lemma_empty_table_has_no_route(
    host: Seq<u8>,
    outcome: Result<UpstreamTarget, DispatchError>,
)
    requires
        resolved(Routes::empty(), host, outcome),
    ensures
        outcome == Err::<UpstreamTarget, DispatchError>(DispatchError::NoRoute),
{
}

/// A request without a host is decided by the fallback route alone: the
/// table plays no part, whatever it holds, even a route under the empty key.
pub proof fn lemma_empty_host_uses_fallback(
    routes: Routes,
    outcome: Result<UpstreamTarget, DispatchError>,
)
    ensures
        routes.lookup(Seq::<u8>::empty()) is None,
        routes.route(Seq::<u8>::empty()) == routes.fallback,
        resolved(routes, Seq::<u8>::empty(), outcome) <==> match routes.fallback {
            Some(conf) => dispatched(conf, Seq::<u8>::empty(), outcome),
            None => outcome == Err::<UpstreamTarget, DispatchError>(DispatchError::NoRoute),
        },
{
}

/// A dispatch through a route never reports `NoRoute`; it fails only with
/// `NoHealthyBackend`, and a success names an endpoint of the route's pool
/// with the route's TLS setting and the host's text.
pub proof fn lemma_dispatched_outcomes(
    conf: ServerConf,
    host: Seq<u8>,
    outcome: Result<UpstreamTarget, DispatchError>,
)
    requires
        dispatched(conf, host, outcome),
    ensures
        outcome matches Err(e) ==> e == DispatchError::NoHealthyBackend,
        conf.upstream.endpoints().len() == 0 ==> outcome is Err,
        outcome matches Ok(target) ==> conf.upstream.endpoints().contains(target.address)
            && target.use_tls == conf.tls && target.sni_or_host@ == host_text(host),
{
}

} // verus!
