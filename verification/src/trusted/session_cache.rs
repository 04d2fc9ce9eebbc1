//! The cache of the `moka` crate that holds the sessions.
//!
//! The cache is given to one owner and reached through `&mut` only, so that
//! what it holds changes at the owner's calls and at no other time. It is made
//! with a limit on the number of its entries, every entry counting as one, and
//! with no rule of expiry and no listener. `moka` keeps an entry until it is
//! invalidated or evicted, and evicts for size only once an insert finds the
//! entries it has counted, with the new one, above the limit. It applies such
//! an eviction when it next does its housekeeping, which can be during any
//! later call. None of the calls below unwinds.

use crate::models::session::{Session, SessionView};
use moka::sync::Cache;
use vstd::prelude::*;

verus! {

#[verifier::external_type_specification]
#[verifier::external_body]
#[verifier::reject_recursive_types(K)]
#[verifier::reject_recursive_types(V)]
#[verifier::reject_recursive_types(S)]
pub struct ExCache<K, V, S>(Cache<K, V, S>);

/// The sessions that a lookup in the cache finds, each under its key.
pub uninterp spec fn cache_entries(cache: Cache<String, Session>) -> Map<Seq<char>, SessionView>;

/// The number of entries that the cache was made to hold.
pub uninterp spec fn cache_limit(cache: Cache<String, Session>) -> nat;

/// True as long as no insert has taken the cache past its limit. A cache that
/// was once filled past its limit chooses entries to drop, and may do so
/// during any later call.
pub uninterp spec fn cache_within_limit(cache: Cache<String, Session>) -> bool;

/// Every entry of `after` is an entry of `before`, unchanged.
pub open spec fn drawn_from(
    after: Map<Seq<char>, SessionView>,
    before: Map<Seq<char>, SessionView>,
) -> bool {
    forall|key: Seq<char>| #[trigger]
        after.contains_key(key) ==> before.contains_key(key) && after[key] == before[key]
}

/// Calls `Cache::new`. The new cache is empty, keeps the limit it was given
/// and has not been filled past it.
#[verifier::external_body]
pub(crate) fn cache_new(max_capacity: u64) -> (cache: Cache<String, Session>)
    ensures
        cache_entries(cache) =~= Map::empty(),
        cache_limit(cache) == max_capacity,
        cache_within_limit(cache),
{
    Cache::new(max_capacity)
}

/// Calls `Cache::insert`. Nothing appears in the cache but the new entry,
/// which replaces an entry under the same key. While the cache is within its
/// limit and stays so with the new entry, nothing is dropped either. Past the
/// limit the cache may drop any entries, the new one included.
#[verifier::external_body]
pub(crate) fn cache_insert(cache: &mut Cache<String, Session>, key: String, value: Session)
    ensures
        cache_limit(*final(cache)) == cache_limit(*old(cache)),
        drawn_from(cache_entries(*final(cache)), cache_entries(*old(cache)).insert(key@, value@)),
        cache_within_limit(*old(cache))
            && cache_entries(*old(cache)).insert(key@, value@).len() <= cache_limit(*old(cache))
            ==> cache_within_limit(*final(cache))
            && cache_entries(*final(cache)) == cache_entries(*old(cache)).insert(key@, value@),
    no_unwind
{
    cache.insert(key, value)
}

/// Calls `Cache::get`. The result is a clone of the entry under the key, if
/// there is one. A cache within its limit is left as it was; past the limit
/// the call may drop entries.
#[verifier::external_body]
pub(crate) fn cache_get(cache: &mut Cache<String, Session>, key: &str) -> (found: Option<Session>)
    ensures
        cache_limit(*final(cache)) == cache_limit(*old(cache)),
        cache_within_limit(*final(cache)) == cache_within_limit(*old(cache)),
        match found {
            Some(session) => cache_entries(*old(cache)).contains_key(key@)
                && cache_entries(*old(cache))[key@] == session@,
            None => !cache_entries(*old(cache)).contains_key(key@),
        },
        drawn_from(cache_entries(*final(cache)), cache_entries(*old(cache))),
        cache_within_limit(*old(cache))
            ==> cache_entries(*final(cache)) == cache_entries(*old(cache)),
    no_unwind
{
    cache.get(key)
}

/// Calls `Cache::remove` and drops what it returns. The entry under the key
/// is gone and nothing is added. A cache within its limit loses nothing else,
/// and a call for a key without an entry changes nothing.
#[verifier::external_body]
pub(crate) fn cache_remove(cache: &mut Cache<String, Session>, key: &str)
    ensures
        cache_limit(*final(cache)) == cache_limit(*old(cache)),
        cache_within_limit(*final(cache)) == cache_within_limit(*old(cache)),
        drawn_from(cache_entries(*final(cache)), cache_entries(*old(cache)).remove(key@)),
        cache_within_limit(*old(cache)) || !cache_entries(*old(cache)).contains_key(key@)
            ==> cache_entries(*final(cache)) == cache_entries(*old(cache)).remove(key@),
    no_unwind
{
    cache.remove(key);
}

/// Calls `Cache::invalidate`. The entry under the key is gone and nothing is
/// added. A cache within its limit loses nothing else, and a call for a key
/// without an entry changes nothing.
#[verifier::external_body]
pub(crate) fn cache_invalidate(cache: &mut Cache<String, Session>, key: &str)
    ensures
        cache_limit(*final(cache)) == cache_limit(*old(cache)),
        cache_within_limit(*final(cache)) == cache_within_limit(*old(cache)),
        drawn_from(cache_entries(*final(cache)), cache_entries(*old(cache)).remove(key@)),
        cache_within_limit(*old(cache)) || !cache_entries(*old(cache)).contains_key(key@)
            ==> cache_entries(*final(cache)) == cache_entries(*old(cache)).remove(key@),
    no_unwind
{
    cache.invalidate(key)
}

} // verus!
