//! Point identity: the engine keys points by number, callers by string. The
//! number is the standard library's default hash of the string. The hasher
//! starts from fixed keys, not from a seed of the process, so a string has
//! one number in every process and after every restart.

use std::collections::hash_map::DefaultHasher;
use std::hash::Hash;
use std::hash::Hasher;
use vstd::prelude::*;
use vstd::std_specs::hash::DefaultHasherAdditionalSpecFns;

verus! {

/// The writes that hashing a string feeds to a hasher: a function of the
/// string's characters alone.
pub uninterp spec fn str_hash_writes(s: Seq<char>) -> Seq<Seq<u8>>;

/// `<str as Hash>::hash` of the standard library on a `DefaultHasher`: the
/// hasher receives the writes that belong to the string, after those it had
/// received before.
#[verifier::external_body]
fn feed_str(hasher: &mut DefaultHasher, s: &str)
    ensures
        final(hasher)@ == old(hasher)@ + str_hash_writes(s@),
{
    s.hash(hasher);
}

/// The engine-native identifier that belongs to the caller's identifier `s`.
pub open spec fn native_id(s: Seq<char>) -> u64 {
    DefaultHasher::spec_finish(str_hash_writes(s))
}

/// Maps a caller-chosen string identifier to the engine's numeric key. Total
/// on every string, the empty one included, and a function of the string's
/// characters alone: the same string gives the same key on every call.
pub fn string_to_point_id(point_id: &str) -> (id: u64)
    ensures
        id == native_id(point_id@),
{
    let mut hasher = DefaultHasher::new();
    feed_str(&mut hasher, point_id);
    assert(hasher@ =~= str_hash_writes(point_id@));
    hasher.finish()
}

/// Equal identifiers have equal keys.
pub proof fn lemma_native_id_deterministic(a: Seq<char>, b: Seq<char>)
    requires
        a == b,
    ensures
        native_id(a) == native_id(b),
{
}

} // verus!
