//! An in-memory mapping from exact command text to an earlier augmentation answer.
use vstd::prelude::*;
use crate::records::{AutoWireResult, AutoWireView};

verus! {

/// One cached answer.
pub struct CacheEntry {
    pub key: String,
    pub value: AutoWireResult,
}

/// The mapping that a sequence of entries stands for; a later entry wins.
pub open spec fn entries_map(s: Seq<CacheEntry>) -> Map<Seq<char>, AutoWireView>
    decreases s.len(),
{
    if s.len() == 0 {
        Map::empty()
    } else {
        entries_map(s.drop_last()).insert(s.last().key@, s.last().value@)
    }
}

/// No two entries share a key.
pub open spec fn keys_unique(s: Seq<CacheEntry>) -> bool {
    forall|i: int, j: int|
        0 <= i < s.len() && 0 <= j < s.len() && i != j ==> #[trigger] s[i].key@ != #[trigger] s[j].key@
}

/// Keys are compared byte for byte; there is no eviction beyond `clear`.
///
/// The entries are a `Vec` with unique keys rather than a `HashMap<String, _>`:
/// vstd specifies `HashMap` only for keys whose hashing and equality it knows,
/// which `String` is not, so lookups in such a map could not be proved.
pub struct AugmentationCache {
    entries: Vec<CacheEntry>,
}

impl View for AugmentationCache {
    type V = Map<Seq<char>, AutoWireView>;

    closed spec fn view(&self) -> Map<Seq<char>, AutoWireView> {
        entries_map(self.entries@)
    }
}

proof fn lemma_unique_drop_last(s: Seq<CacheEntry>)
    requires
        s.len() > 0,
        keys_unique(s),
    ensures
        keys_unique(s.drop_last()),
{
    assert forall|i: int, j: int|
        0 <= i < s.drop_last().len() && 0 <= j < s.drop_last().len() && i != j implies
        #[trigger] s.drop_last()[i].key@ != #[trigger] s.drop_last()[j].key@ by {
        assert(s[i].key@ != s[j].key@);
    }
}

proof fn lemma_map_has(s: Seq<CacheEntry>, i: int)
    requires
        keys_unique(s),
        0 <= i < s.len(),
    ensures
        entries_map(s).contains_key(s[i].key@),
        entries_map(s)[s[i].key@] == s[i].value@,
    decreases s.len(),
{
    if i < s.len() - 1 {
        lemma_unique_drop_last(s);
        lemma_map_has(s.drop_last(), i);
        assert(s[i].key@ != s[s.len() - 1].key@);
    }
}

proof fn lemma_map_missing(s: Seq<CacheEntry>, k: Seq<char>)
    requires
        forall|i: int| 0 <= i < s.len() ==> #[trigger] s[i].key@ != k,
    ensures
        !entries_map(s).contains_key(k),
    decreases s.len(),
{
    if s.len() > 0 {
        assert(s[s.len() - 1].key@ != k);
        lemma_map_missing(s.drop_last(), k);
    }
}

proof fn lemma_map_update(s: Seq<CacheEntry>, j: int, e: CacheEntry)
    requires
        keys_unique(s),
        0 <= j < s.len(),
        s[j].key@ == e.key@,
    ensures
        entries_map(s.update(j, e)) == entries_map(s).insert(e.key@, e.value@),
    decreases s.len(),
{
    let t = s.update(j, e);
    if j == s.len() - 1 {
        assert(t.drop_last() =~= s.drop_last());
        assert(entries_map(t) =~= entries_map(s).insert(e.key@, e.value@));
    } else {
        lemma_unique_drop_last(s);
        assert(t.drop_last() =~= s.drop_last().update(j, e));
        lemma_map_update(s.drop_last(), j, e);
        assert(s[j].key@ != s[s.len() - 1].key@);
        assert(entries_map(t) =~= entries_map(s).insert(e.key@, e.value@));
    }
}

impl AugmentationCache {
    /// Every key occurs once.
    pub closed spec fn wf(&self) -> bool {
        keys_unique(self.entries@)
    }

    pub fn new() -> (r: AugmentationCache)
        ensures
            r.wf(),
            r@ == Map::<Seq<char>, AutoWireView>::empty(),
    {
        AugmentationCache { entries: Vec::new() }
    }

    /// The answer cached under exactly `key`, if any.
    pub fn get(&self, key: &str) -> (r: Option<AutoWireResult>)
        requires
            self.wf(),
        ensures
            match r {
                Some(v) => self@.contains_key(key@) && v@ == self@[key@],
                None => !self@.contains_key(key@),
            },
    {
        let k = key.to_string();
        let mut i: usize = 0;
        while i < self.entries.len()
            invariant
                i <= self.entries@.len(),
                self.wf(),
                k@ == key@,
                forall|m: int| 0 <= m < i ==> #[trigger] self.entries@[m].key@ != key@,
            decreases self.entries@.len() - i,
        {
            if self.entries[i].key == k {
                proof {
                    lemma_map_has(self.entries@, i as int);
                }
                return Some(self.entries[i].value.copy());
            }
            i = i + 1;
        }
        proof {
            lemma_map_missing(self.entries@, key@);
        }
        None
    }

    /// Stores `value` under `key`, replacing an earlier answer for the same key.
    pub fn put(&mut self, key: String, value: AutoWireResult)
        requires
            old(self).wf(),
        ensures
            final(self).wf(),
            final(self)@ == old(self)@.insert(key@, value@),
    {
        let mut i: usize = 0;
        while i < self.entries.len()
            invariant
                i <= self.entries@.len(),
                self.wf(),
                self.entries@ == old(self).entries@,
                forall|m: int| 0 <= m < i ==> #[trigger] self.entries@[m].key@ != key@,
            decreases self.entries@.len() - i,
        {
            if self.entries[i].key == key {
                let ghost s = self.entries@;
                let e = CacheEntry { key, value };
                proof {
                    lemma_map_update(s, i as int, e);
                }
                self.entries.set(i, e);
                proof {
                    assert(keys_unique(self.entries@)) by {
                        assert forall|a: int, b: int|
                            0 <= a < self.entries@.len() && 0 <= b < self.entries@.len() && a
                                != b implies #[trigger] self.entries@[a].key@
                            != #[trigger] self.entries@[b].key@ by {
                            assert(s[a].key@ != s[b].key@);
                        }
                    }
                }
                return;
            }
            i = i + 1;
        }
        let ghost s = self.entries@;
        proof {
            lemma_map_missing(s, key@);
        }
        self.entries.push(CacheEntry { key, value });
        proof {
            assert(self.entries@.drop_last() =~= s);
            assert(keys_unique(self.entries@)) by {
                assert forall|a: int, b: int|
                    0 <= a < self.entries@.len() && 0 <= b < self.entries@.len() && a
                        != b implies #[trigger] self.entries@[a].key@
                    != #[trigger] self.entries@[b].key@ by {
                    if a < s.len() && b < s.len() {
                        assert(s[a].key@ != s[b].key@);
                    } else if a < s.len() {
                        assert(s[a].key@ != key@);
                    } else {
                        assert(s[b].key@ != key@);
                    }
                }
            }
        }
    }

    /// Forgets every answer.
    pub fn clear(&mut self)
        ensures
            final(self).wf(),
            final(self)@ == Map::<Seq<char>, AutoWireView>::empty(),
    {
        self.entries = Vec::new();
    }
}

} // verus!
