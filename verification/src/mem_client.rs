use vstd::prelude::*;
use crate::client::{RedisClient, str_lookup, hash_pairs, field_lookup};
use crate::error::Er;

verus! {

/// The store described by a sequence of writes: later entries win.
spec fn kv_map(s: Seq<(String, String)>) -> Map<Seq<char>, Seq<char>>
    decreases s.len(),
{
    if s.len() == 0 {
        Map::empty()
    } else {
        kv_map(s.drop_last()).insert(s.last().0@, s.last().1@)
    }
}

/// The hash store described by a sequence of writes: later entries win.
spec fn hv_map(s: Seq<(String, Vec<String>)>) -> Map<Seq<char>, Seq<Seq<char>>>
    decreases s.len(),
{
    if s.len() == 0 {
        Map::empty()
    } else {
        hv_map(s.drop_last()).insert(s.last().0@, s.last().1.deep_view())
    }
}

/// An in-memory storage client: the backend a test substitutes for the
/// real one with no change to the command layer. Writes are appended; a
/// lookup scans backward, so the latest write for a key wins. It never
/// fails.
pub struct MemClient {
    kv: Vec<(String, String)>,
    hv: Vec<(String, Vec<String>)>,
}

/// Entries beyond index `i` that never mention key `k` do not change what
/// the store holds for `k`.
proof fn lemma_kv_map_unmatched(s: Seq<(String, String)>, i: int, k: Seq<char>)
    requires
        0 <= i <= s.len(),
        forall|j: int| i <= j < s.len() ==> #[trigger] s[j].0@ != k,
    ensures
        str_lookup(kv_map(s), k) == str_lookup(kv_map(s.take(i)), k),
    decreases s.len() - i,
{
    if i < s.len() {
        assert(s.drop_last() =~= s.take(s.len() - 1));
        lemma_kv_map_unmatched(s.take(s.len() - 1), i, k);
        assert(s.take(s.len() - 1).take(i) =~= s.take(i));
    } else {
        assert(s.take(i) =~= s);
    }
}

/// The same, for the hash store.
proof fn lemma_hv_map_unmatched(s: Seq<(String, Vec<String>)>, i: int, k: Seq<char>)
    requires
        0 <= i <= s.len(),
        forall|j: int| i <= j < s.len() ==> #[trigger] s[j].0@ != k,
    ensures
        hash_pairs(hv_map(s), k) == hash_pairs(hv_map(s.take(i)), k),
    decreases s.len() - i,
{
    if i < s.len() {
        assert(s.drop_last() =~= s.take(s.len() - 1));
        lemma_hv_map_unmatched(s.take(s.len() - 1), i, k);
        assert(s.take(s.len() - 1).take(i) =~= s.take(i));
    } else {
        assert(s.take(i) =~= s);
    }
}

impl MemClient {
    /// An empty store.
    pub fn new() -> (r: MemClient)
        ensures
            r.strings() == Map::<Seq<char>, Seq<char>>::empty(),
            r.hashes() == Map::<Seq<char>, Seq<Seq<char>>>::empty(),
    {
        MemClient { kv: Vec::new(), hv: Vec::new() }
    }

    /// Stores a whole hash under `key`: the flattened field/value pairs a
    /// later `hget` or `hgetall` will see.
    pub fn put_hash(&mut self, key: String, pairs: Vec<String>)
        ensures
            final(self).strings() == old(self).strings(),
            final(self).hashes() == old(self).hashes().insert(key@, pairs.deep_view()),
    {
        let ghost old_hv = self.hv@;
        self.hv.push((key, pairs));
        proof {
            assert(self.hv@.drop_last() =~= old_hv);
        }
    }

    /// The backward scan shared by the hash reads: the latest hash stored
    /// under `key`, if any.
    fn hgetall_ref(&self, key: &str) -> (r: Option<&Vec<String>>)
        ensures
            match r {
                Some(pairs) => hash_pairs(self.hashes(), key@) == Some(pairs.deep_view()),
                None => hash_pairs(self.hashes(), key@) is None,
            },
    {
        let k = key.to_owned();
        let mut i: usize = self.hv.len();
        while i > 0
            invariant
                i <= self.hv.len(),
                k@ == key@,
                forall|j: int| i <= j < self.hv@.len() ==> #[trigger] self.hv@[j].0@ != key@,
            decreases i,
        {
            i = i - 1;
            if self.hv[i].0 == k {
                proof {
                    lemma_hv_map_unmatched(self.hv@, i + 1, key@);
                    assert(self.hv@.take(i + 1).drop_last() =~= self.hv@.take(i as int));
                    assert(self.hv@.take(i + 1).last() == self.hv@[i as int]);
                }
                return Some(&self.hv[i].1);
            }
        }
        proof {
            lemma_hv_map_unmatched(self.hv@, 0, key@);
            assert(self.hv@.take(0) =~= Seq::<(String, Vec<String>)>::empty());
        }
        None
    }
}

impl RedisClient for MemClient {
    closed spec fn strings(&self) -> Map<Seq<char>, Seq<char>> {
        kv_map(self.kv@)
    }

    closed spec fn hashes(&self) -> Map<Seq<char>, Seq<Seq<char>>> {
        hv_map(self.hv@)
    }

    fn get(&mut self, key: &str) -> (r: Result<Option<String>, Er>)
        ensures
            r is Ok,
    {
        let k = key.to_owned();
        let mut i: usize = self.kv.len();
        while i > 0
            invariant
                i <= self.kv.len(),
                k@ == key@,
                forall|j: int| i <= j < self.kv@.len() ==> #[trigger] self.kv@[j].0@ != key@,
            decreases i,
        {
            i = i - 1;
            if self.kv[i].0 == k {
                let val = self.kv[i].1.clone();
                proof {
                    lemma_kv_map_unmatched(self.kv@, i + 1, key@);
                    assert(self.kv@.take(i + 1).drop_last() =~= self.kv@.take(i as int));
                    assert(self.kv@.take(i + 1).last() == self.kv@[i as int]);
                }
                return Ok(Some(val));
            }
        }
        proof {
            lemma_kv_map_unmatched(self.kv@, 0, key@);
            assert(self.kv@.take(0) =~= Seq::<(String, String)>::empty());
        }
        Ok(None)
    }

    fn set(&mut self, key: &str, val: &str) -> (r: Result<(), Er>)
        ensures
            r is Ok,
    {
        let ghost old_kv = self.kv@;
        self.kv.push((key.to_owned(), val.to_owned()));
        proof {
            assert(self.kv@.drop_last() =~= old_kv);
        }
        Ok(())
    }

    fn hget(&mut self, key: &str, field: &str) -> (r: Result<Option<String>, Er>)
        ensures
            r is Ok,
    {
        let pairs = match self.hgetall_ref(key) {
            Some(pairs) => pairs,
            None => {
                return Ok(None);
            },
        };
        let f = field.to_owned();
        let ghost pv = pairs.deep_view();
        proof {
            assert(pv.skip(0) =~= pv);
        }
        let mut i: usize = 0;
        while i + 1 < pairs.len()
            invariant
                field_lookup(pv, field@) == field_lookup(pv.skip(i as int), field@),
                pv == pairs.deep_view(),
                hash_pairs(self.hashes(), key@) == Some(pv),
                self.hashes() == old(self).hashes(),
                self.strings() == old(self).strings(),
                i <= pairs.len(),
                i % 2 == 0,
                f@ == field@,
            decreases pairs.len() - i,
        {
            proof {
                assert(pv.skip(i as int).skip(2) =~= pv.skip(i + 2));
                assert(pv.skip(i as int)[0] == pv[i as int]);
                assert(pv.skip(i as int)[1] == pv[i + 1]);
                assert(pv[i as int] == pairs@[i as int]@);
                assert(pv[i + 1] == pairs@[i + 1]@);
            }
            if pairs[i] == f {
                proof {
                    assert(field_lookup(pv.skip(i as int), field@) == Some(pv[i + 1]));
                }
                return Ok(Some(pairs[i + 1].clone()));
            }
            i = i + 2;
        }
        proof {
            assert(pv.skip(i as int).len() < 2);
        }
        Ok(None)
    }

    fn hgetall(&mut self, key: &str) -> (r: Result<Option<Vec<String>>, Er>)
        ensures
            r is Ok,
    {
        match self.hgetall_ref(key) {
            Some(pairs) => Ok(Some(pairs.clone())),
            None => Ok(None),
        }
    }
}

} // verus!
