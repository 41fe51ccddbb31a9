//! The set of talkgroups seen to carry encrypted traffic.
//!
//! It is a `fnv::FnvHashSet` of talkgroup ids: a hash set of the standard
//! library that hashes with FNV, which is quick on keys this short. What is
//! stated of it here is taken on trust.

use fnv::FnvHashSet;
use fnv::FnvHasher;
use std::hash::BuildHasherDefault;
use vstd::prelude::*;

verus! {

/// `fnv::FnvHasher`, the hasher of the set. Nothing is said of its insides.
#[verifier::external_type_specification]
#[verifier::external_body]
pub struct ExFnvHasher(FnvHasher);

/// `std::hash::BuildHasherDefault`, which makes each hasher of the set by
/// `Default`. Nothing is said of its insides.
#[verifier::external_type_specification]
#[verifier::external_body]
#[verifier::reject_recursive_types(H)]
pub struct ExBuildHasherDefault<H>(BuildHasherDefault<H>);

/// `HashSet::contains` on a set that hashes with `fnv::FnvHasher`. That hasher
/// starts from a fixed state and folds the written bytes into it, so equal ids
/// hash equally and the set answers whether `id` is among its members.
#[verifier::external_body]
pub(crate) fn contains(ids: &FnvHashSet<u16>, id: u16) -> (r: bool)
    ensures
        r == ids@.contains(id),
{
    ids.contains(&id)
}

/// `HashSet::insert` on a set that hashes with `fnv::FnvHasher`: afterwards
/// the members are those from before and `id`.
#[verifier::external_body]
pub(crate) fn insert(ids: &mut FnvHashSet<u16>, id: u16)
    ensures
        final(ids)@ == old(ids)@.insert(id),
{
    ids.insert(id);
}

} // verus!
