//! The prefix trie that indexes routes by host key.

use crate::proxy::server::ServerConf;
use radix_trie::Trie;
use vstd::prelude::*;

verus! {

/// `radix_trie::Trie`. Opaque to the verifier: what a trie holds is known
/// only through `routes` and the calls below.
#[verifier::external_type_specification]
#[verifier::external_body]
#[verifier::reject_recursive_types(K)]
#[verifier::reject_recursive_types(V)]
pub struct ExTrie<K, V>(Trie<K, V>);

/// The routes a trie holds, by the bytes of their keys.
pub uninterp spec fn routes(trie: Trie<&'static [u8], ServerConf>) -> Map<Seq<u8>, ServerConf>;

/// Calls `Trie::new`. Trusted: the new trie holds nothing.
#[verifier::external_body]
pub(crate) fn trie_new() -> (trie: Trie<&'static [u8], ServerConf>)
    ensures
        routes(trie) == (Map::<Seq<u8>, ServerConf>::empty()),
{
    Trie::new()
}

/// Calls `Trie::get`. Trusted: the result is the value stored under exactly
/// these key bytes, and nothing when no such key is stored; a stored key that
/// is only a prefix or an extension of `key` does not match.
#[verifier::external_body]
pub(crate) fn trie_get<'a>(trie: &'a Trie<&'static [u8], ServerConf>, key: &[u8]) -> (found: Option<
    &'a ServerConf,
>)
    ensures
        found == if routes(*trie).contains_key(key@) {
            Some(&routes(*trie)[key@])
        } else {
            None
        },
{
    trie.get(key)
}

/// Calls `Trie::insert`. Trusted: afterwards the key maps to `value`, every
/// other key is as before, and the value that the key had before, if any, is
/// returned.
#[verifier::external_body]
pub(crate) fn trie_insert(
    trie: &mut Trie<&'static [u8], ServerConf>,
    key: &'static [u8],
    value: ServerConf,
) -> (previous: Option<ServerConf>)
    ensures
        routes(*final(trie)) == routes(*old(trie)).insert(key@, value),
        previous == if routes(*old(trie)).contains_key(key@) {
            Some(routes(*old(trie))[key@])
        } else {
            None
        },
{
    trie.insert(key, value)
}

/// Calls `Trie::remove`. Trusted: afterwards the key is absent, every other
/// key is as before, and the value that the key had, if any, is returned.
#[verifier::external_body]
pub(crate) fn trie_remove(trie: &mut Trie<&'static [u8], ServerConf>, key: &[u8]) -> (removed:
    Option<ServerConf>)
    ensures
        routes(*final(trie)) == routes(*old(trie)).remove(key@),
        removed == if routes(*old(trie)).contains_key(key@) {
            Some(routes(*old(trie))[key@])
        } else {
            None
        },
{
    trie.remove(key)
}

} // verus!
