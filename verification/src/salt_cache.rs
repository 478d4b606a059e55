//! The login salt of an address: the stored salt of its account, or a
//! stand-in salt that the server keeps per address in a bounded LRU cache,
//! so that asking again gives the same answer whether or not an account
//! exists.

use std::num::NonZeroUsize;

use vstd::prelude::*;

verus! {

/// The cache of `lru`, keyed by address.
#[verifier::external_type_specification]
#[verifier::external_body]
#[verifier::reject_recursive_types(K)]
#[verifier::reject_recursive_types(V)]
#[verifier::reject_recursive_types(S)]
pub struct ExLruCache<K, V, S>(lru::LruCache<K, V, S>);

/// The hasher that `lru` caches use by default.
#[verifier::external_type_specification]
#[verifier::external_body]
pub struct ExLruDefaultHasher(lru::DefaultHasher);

/// The cache of stand-in salts by address.
pub type SaltCache = lru::LruCache<String, Vec<u8>>;

/// Name for what the cache holds: each address and its stand-in salt.
pub uninterp spec fn salt_cache_contents(cache: SaltCache) -> Map<Seq<char>, Seq<u8>>;

/// Name for the number of entries the cache was made to hold at most.
pub uninterp spec fn salt_cache_capacity(cache: SaltCache) -> nat;

/// Calls `lru::LruCache::new` with the capacity `cap`. Trusted: the cache
/// is empty and holds at most `cap` entries.
#[verifier::external_body]
fn new_salt_cache(cap: usize) -> (r: SaltCache)
    requires
        cap > 0,
    ensures
        salt_cache_contents(r).dom() == Set::<Seq<char>>::empty(),
        salt_cache_capacity(r) == cap,
{
    lru::LruCache::new(NonZeroUsize::new(cap).unwrap())
}

/// Calls `lru::LruCache::get_or_insert` for `key` with `fresh` as the value
/// to insert, and clones the value. Trusted, as the crate's source shows:
/// a cached key gives its value and the contents stay (only the order of
/// use changes); a new key gives `fresh` and is stored with it, and when the
/// cache was full the least recently used entry leaves first.
#[verifier::external_body]
fn cache_get_or_insert(cache: &mut SaltCache, key: String, fresh: Vec<u8>) -> (r: Vec<u8>)
    requires
        salt_cache_contents(*old(cache)).dom().finite(),
        salt_cache_contents(*old(cache)).dom().len() <= salt_cache_capacity(*old(cache)),
    ensures
        salt_cache_capacity(*final(cache)) == salt_cache_capacity(*old(cache)),
        salt_cache_contents(*old(cache)).dom().contains(key@) ==> {
            &&& r@ == salt_cache_contents(*old(cache))[key@]
            &&& salt_cache_contents(*final(cache)) == salt_cache_contents(*old(cache))
        },
        !salt_cache_contents(*old(cache)).dom().contains(key@) ==> {
            &&& r@ == fresh@
            &&& salt_cache_contents(*old(cache)).dom().len() < salt_cache_capacity(*old(cache))
                ==> salt_cache_contents(*final(cache)) == salt_cache_contents(*old(cache)).insert(key@, fresh@)
            &&& salt_cache_contents(*old(cache)).dom().len() >= salt_cache_capacity(*old(cache)) ==> exists|k: Seq<char>|
                salt_cache_contents(*old(cache)).dom().contains(k) && salt_cache_contents(*final(cache))
                    == salt_cache_contents(*old(cache)).remove(k).insert(key@, fresh@)
        },
{
    cache.get_or_insert(key, move || fresh).clone()
}

/// The entries a salt cache can hold in production.
pub const SALT_CACHE_CAPACITY: usize = 10000;

/// A salt cache holds finitely many entries, no more than it was made for.
pub open spec fn salt_cache_ok(cache: SaltCache) -> bool {
    &&& salt_cache_contents(cache).dom().finite()
    &&& salt_cache_contents(cache).dom().len() <= salt_cache_capacity(cache)
    &&& salt_cache_capacity(cache) > 0
}

/// The salt cache of the login-salt route, empty.
pub fn salt_cache() -> (r: SaltCache)
    ensures
        salt_cache_ok(r),
        salt_cache_contents(r).dom() == Set::<Seq<char>>::empty(),
        salt_cache_capacity(r) == SALT_CACHE_CAPACITY,
{
    new_salt_cache(SALT_CACHE_CAPACITY)
}

/// The salt the login-salt route answers for the lower-cased address
/// `email`: the stored salt of its account (`stored`), the cache left as it
/// was; else the stand-in salt cached for the address, or, when there is
/// none, `fresh`, which is then cached for it (the least recently used
/// entry leaves a full cache first).
pub fn login_salt(
    stored: Option<Vec<u8>>,
    email: String,
    cache: &mut SaltCache,
    fresh: Vec<u8>,
) -> (r: Vec<u8>)
    requires
        salt_cache_ok(*old(cache)),
    ensures
        salt_cache_ok(*final(cache)),
        stored matches Some(s) ==> r == s && salt_cache_contents(*final(cache)) == salt_cache_contents(*old(cache)),
        stored is None ==> salt_cache_contents(*final(cache)).dom().contains(email@)
            && salt_cache_contents(*final(cache))[email@] == r@,
        stored is None && salt_cache_contents(*old(cache)).dom().contains(email@) ==> r@ == salt_cache_contents(
            *old(cache),
        )[email@] && salt_cache_contents(*final(cache)) == salt_cache_contents(*old(cache)),
        stored is None && !salt_cache_contents(*old(cache)).dom().contains(email@) ==> r@ == fresh@,
{
    match stored {
        Some(s) => s,
        None => {
            let ghost before = salt_cache_contents(*cache);
            let r = cache_get_or_insert(cache, email, fresh);
            proof {
                let after = salt_cache_contents(*cache);
                if !before.dom().contains(email@) {
                    if before.dom().len() < salt_cache_capacity(*cache) {
                        assert(after.dom() == before.dom().insert(email@));
                    } else {
                        let k = choose|k: Seq<char>| before.dom().contains(k) && after == before.remove(k).insert(email@, fresh@);
                        assert(after.dom() == before.dom().remove(k).insert(email@));
                    }
                }
            }
            r
        },
    }
}

} // verus!
