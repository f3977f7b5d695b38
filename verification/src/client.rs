use vstd::prelude::*;
use crate::error::Er;

verus! {

/// Looks a key up in the plain key-to-value part of the store.
pub open spec fn str_lookup(m: Map<Seq<char>, Seq<char>>, k: Seq<char>) -> Option<Seq<char>> {
    if m.contains_key(k) {
        Some(m[k])
    } else {
        None
    }
}

/// The flattened field/value pair sequence stored under a hash key, if the
/// key exists.
pub open spec fn hash_pairs(m: Map<Seq<char>, Seq<Seq<char>>>, k: Seq<char>) -> Option<
    Seq<Seq<char>>,
> {
    if m.contains_key(k) {
        Some(m[k])
    } else {
        None
    }
}

/// The value of `field` in a flattened pair sequence: the entry following
/// the first even-indexed entry equal to `field`.
pub open spec fn field_lookup(pairs: Seq<Seq<char>>, field: Seq<char>) -> Option<Seq<char>>
    decreases pairs.len(),
{
    if pairs.len() < 2 {
        None
    } else if pairs[0] == field {
        Some(pairs[1])
    } else {
        field_lookup(pairs.skip(2), field)
    }
}

/// A hash field looked up across the whole store: `None` when the key is
/// absent or the hash holds no such field.
pub open spec fn hash_lookup(
    m: Map<Seq<char>, Seq<Seq<char>>>,
    k: Seq<char>,
    field: Seq<char>,
) -> Option<Seq<char>> {
    match hash_pairs(m, k) {
        Some(pairs) => field_lookup(pairs, field),
        None => None,
    }
}

/// The storage-client contract: the four operations the command layer
/// depends on, over an abstract view of the backend state — a map of plain
/// string keys to values, and a map of hash keys to flattened field/value
/// pair sequences.
///
/// Every operation may fail with an opaque client error; nothing here
/// promises success, since a concrete backend decides that. A read never
/// changes the state, and a successful `set` updates exactly the written
/// key. When a read does succeed, its result is exactly what the state
/// holds for the given key (and field).
pub trait RedisClient {
    /// The plain key-to-value part of the backend state. The default is
    /// the empty store, so that a backend outside the verifier can
    /// implement just the four operations; a verified backend overrides
    /// it with its real model.
    open spec fn strings(&self) -> Map<Seq<char>, Seq<char>> {
        Map::empty()
    }

    /// The hash part of the backend state, flattened to field/value pair
    /// sequences; defaulted for the same reason as `strings`.
    open spec fn hashes(&self) -> Map<Seq<char>, Seq<Seq<char>>> {
        Map::empty()
    }

    fn get(&mut self, key: &str) -> (r: Result<Option<String>, Er>)
        ensures
            final(self).strings() == old(self).strings(),
            final(self).hashes() == old(self).hashes(),
            r matches Ok(v) ==> v.deep_view() == str_lookup(old(self).strings(), key@),
    ;

    fn set(&mut self, key: &str, val: &str) -> (r: Result<(), Er>)
        ensures
            r is Ok ==> final(self).strings() == old(self).strings().insert(key@, val@)
                && final(self).hashes() == old(self).hashes(),
    ;

    fn hget(&mut self, key: &str, field: &str) -> (r: Result<Option<String>, Er>)
        ensures
            final(self).strings() == old(self).strings(),
            final(self).hashes() == old(self).hashes(),
            r matches Ok(v) ==> v.deep_view() == hash_lookup(old(self).hashes(), key@, field@),
    ;

    fn hgetall(&mut self, key: &str) -> (r: Result<Option<Vec<String>>, Er>)
        ensures
            final(self).strings() == old(self).strings(),
            final(self).hashes() == old(self).hashes(),
            r matches Ok(v) ==> v.deep_view() == hash_pairs(old(self).hashes(), key@),
    ;
}

} // verus!
