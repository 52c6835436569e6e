//! Backend pools: an ordered set of endpoints plus a pluggable strategy that
//! chooses among them.

use vstd::prelude::*;

verus! {

/// Why a pool could not hand out an endpoint.
#[derive(Clone, Copy, Debug, PartialEq, Eq, Structural)]
pub enum SelectionError {
    /// The pool was configured without any endpoint.
    EmptyPool,
    /// The pool has endpoints, but none of them is available.
    NoHealthyBackend,
}

/// A load-balancing algorithm.
///
/// A strategy owns whatever state it needs (a cursor, a hash ring, health
/// flags) and must keep it consistent under concurrent calls. It answers with
/// the position of the endpoint it chose, or `None` when it regards every
/// endpoint as unavailable. The pool checks the answer, so a strategy cannot
/// make a pool hand out an address that is not one of its endpoints.
pub trait SelectionStrategy: Send + Sync {
    fn pick(&self, endpoints: &Vec<String>, hint: &[u8], hint_strength: usize) -> Option<usize>;
}

/// What a pool with the given endpoints hands out when its strategy answers
/// `picked`.
pub open spec fn selection(endpoints: Seq<String>, picked: Option<usize>) -> Result<
    String,
    SelectionError,
> {
    if endpoints.len() == 0 {
        Err(SelectionError::EmptyPool)
    } else {
        match picked {
            Some(i) if i < endpoints.len() => Ok(endpoints[i as int]),
            _ => Err(SelectionError::NoHealthyBackend),
        }
    }
}

/// A set of backend endpoints, fixed at construction, and the strategy that
/// selects among them.
pub struct BackendPool {
    endpoints: Vec<String>,
    strategy: Box<dyn SelectionStrategy>,
}

impl BackendPool {
    /// The endpoints of the pool, in configuration order.
    pub closed spec fn endpoints(&self) -> Seq<String> {
        self.endpoints@
    }

    /// A pool over `endpoints` that selects with `strategy`.
    pub fn new(endpoints: Vec<String>, strategy: Box<dyn SelectionStrategy>) -> (pool: Self)
        ensures
            pool.endpoints() == endpoints@,
    {
        BackendPool { endpoints, strategy }
    }

    /// Number of endpoints in the pool.
    pub fn len(&self) -> (n: usize)
        ensures
            n == self.endpoints().len(),
    {
        self.endpoints.len()
    }

    /// The endpoint at position `i`, if there is one.
    pub fn endpoint(&self, i: usize) -> (e: Option<&String>)
        ensures
            e == if i < self.endpoints().len() {
                Some(&self.endpoints()[i as int])
            } else {
                None
            },
    {
        if i < self.endpoints.len() {
            Some(&self.endpoints[i])
        } else {
            None
        }
    }

    /// Turns a strategy's answer into the pool's answer: an empty pool has
    /// nothing to give, an answer inside the pool names its endpoint, and
    /// anything else means that no endpoint is available.
    pub fn resolve_pick(&self, picked: Option<usize>) -> (r: Result<String, SelectionError>)
        ensures
            r == selection(self.endpoints(), picked),
    {
        if self.endpoints.len() == 0 {
            return Err(SelectionError::EmptyPool);
        }
        match picked {
            Some(i) => {
                if i < self.endpoints.len() {
                    Ok(self.endpoints[i].clone())
                } else {
                    Err(SelectionError::NoHealthyBackend)
                }
            },
            None => Err(SelectionError::NoHealthyBackend),
        }
    }

    /// Selects one endpoint of the pool.
    ///
    /// The strategy decides which; whatever it answers, the result is the
    /// pool's reading of that answer, so a success is always an endpoint of
    /// this pool, and an empty pool always fails with `EmptyPool` without
    /// consulting the strategy.
    pub fn select(&self, hint: &[u8], hint_strength: usize) -> (r: Result<String, SelectionError>)
        ensures
            exists|picked: Option<usize>| r == selection(self.endpoints(), picked),
            self.endpoints().len() == 0 <==> r == Err::<String, SelectionError>(
                SelectionError::EmptyPool,
            ),
            r matches Ok(address) ==> self.endpoints().contains(address),
    {
        if self.endpoints.len() == 0 {
            assert(Err::<String, SelectionError>(SelectionError::EmptyPool) == selection(
                self.endpoints(),
                None,
            ));
            return Err(SelectionError::EmptyPool);
        }
        let picked = self.strategy.pick(&self.endpoints, hint, hint_strength);
        self.resolve_pick(picked)
    }
}

} // verus!
