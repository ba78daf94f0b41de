use vstd::prelude::*;
use rustc_hash::{FxHashMap, FxHashSet};
use std::hash::Hash;

verus! {

/// The hasher that rustc_hash's maps and sets are built with; carried through
/// opaquely.
#[verifier::external_type_specification]
#[verifier::external_body]
pub struct ExFxHasher(rustc_hash::FxHasher);

/// std's builder of default-constructed hashers; carried through opaquely.
#[verifier::external_type_specification]
#[verifier::external_body]
#[verifier::reject_recursive_types(H)]
pub struct ExBuildHasherDefault<H>(std::hash::BuildHasherDefault<H>);

/// Relies on `HashSet::contains` over rustc_hash's `FxHasher`, which holds no
/// random state: the same key always hashes the same way, so membership is
/// answered exactly.
#[verifier::external_body]
pub fn fx_contains<K: Hash + Eq>(s: &FxHashSet<K>, k: &K) -> (r: bool)
    requires
        vstd::std_specs::hash::obeys_key_model::<K>(),
    ensures
        r == s@.contains(*k),
{
    s.contains(k)
}

/// Relies on `HashMap::get` over rustc_hash's `FxHasher`, which holds no
/// random state: the lookup finds exactly the entry stored under the key.
#[verifier::external_body]
pub fn fx_get<'a, K: Hash + Eq, V>(m: &'a FxHashMap<K, V>, k: &K) -> (r: Option<&'a V>)
    requires
        vstd::std_specs::hash::obeys_key_model::<K>(),
    ensures
        r is None <==> !m@.contains_key(*k),
        r is Some ==> *r->0 == m@[*k],
{
    m.get(k)
}

} // verus!
