//! The host-side values this library carries and the few host calls it makes.
//! Nothing in this file is proved: each contract records what the host
//! library's source shows. The host meters every call and ends the whole
//! invocation when its budget is spent; these contracts speak of calls that
//! return.

use vstd::prelude::*;

verus! {

/// The host environment handle, carried through to create host objects.
#[verifier::external_type_specification]
#[verifier::external_body]
pub struct ExEnv(soroban_sdk::Env);

/// A short host string used as an opaque product label.
#[verifier::external_type_specification]
#[verifier::external_body]
pub struct ExSymbol(soroban_sdk::Symbol);

/// The host's ordered key-value dictionary.
#[verifier::external_type_specification]
#[verifier::external_body]
#[verifier::reject_recursive_types(K)]
#[verifier::reject_recursive_types(V)]
pub struct ExHostMap<K, V>(soroban_sdk::Map<K, V>);

/// The entries of a host map that hold a 128-bit signed value, by key.
pub uninterp spec fn host_map_entries(m: soroban_sdk::Map<u64, i128>) -> Map<u64, i128>;

/// The map without entries.
pub open spec fn no_entries() -> Map<u64, i128> {
    Map::empty()
}

/// `soroban_sdk::Map::new`: a fresh host map has no entries.
#[verifier::external_body]
pub(crate) fn host_map_new(env: &soroban_sdk::Env) -> (fresh: soroban_sdk::Map<u64, i128>)
    ensures
        host_map_entries(fresh) == no_entries(),
{
    soroban_sdk::Map::new(env)
}

/// `soroban_sdk::Map::try_get`: the value stored under `k`, or `None` when the
/// map has no entry under `k` that holds a 128-bit signed value.
#[verifier::external_body]
pub(crate) fn host_map_get(m: &soroban_sdk::Map<u64, i128>, k: u64) -> (r: Option<i128>)
    ensures
        r == (if host_map_entries(*m).dom().contains(k) {
            Some(host_map_entries(*m)[k])
        } else {
            None
        }),
{
    match m.try_get(k) {
        Ok(v) => v,
        Err(_) => None,
    }
}

/// `soroban_sdk::Map::set`: the entry under `k` becomes `v`, whether or not
/// one was there; every other entry stays.
#[verifier::external_body]
pub(crate) fn host_map_set(m: &mut soroban_sdk::Map<u64, i128>, k: u64, v: i128)
    ensures
        host_map_entries(*final(m)) == host_map_entries(*old(m)).insert(k, v),
{
    m.set(k, v)
}

/// `Clone` of `soroban_sdk::Map`: the copy has the entries of the map it was
/// made from. A host map object never changes, a write makes a new one, so
/// later writes to either handle leave the other as it was.
#[verifier::external_body]
pub(crate) fn host_map_clone(m: &soroban_sdk::Map<u64, i128>) -> (r: soroban_sdk::Map<u64, i128>)
    ensures
        host_map_entries(r) == host_map_entries(*m),
{
    m.clone()
}

/// `Clone` of `soroban_sdk::Symbol`: the copy is the same label.
pub assume_specification[ <soroban_sdk::Symbol as Clone>::clone ](s: &soroban_sdk::Symbol) -> (r: soroban_sdk::Symbol)
    ensures
        r == *s,
;

} // verus!
