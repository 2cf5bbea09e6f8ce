//! The process-wide template cache.
//!
//! The cache memoizes the fetch-and-decode of a template by its identifier.
//! An entry holds the raw bytes as fetched from the object store together
//! with their decoded source text, is shared read-only by all callers after
//! insertion, and is never evicted. Inserting under an existing identifier
//! overwrites: the last writer wins, so at most one entry is ever published
//! per template.

use vstd::prelude::*;

use crate::engine::utf8_source;

verus! {

/// Whether two strings hold the same characters.
fn string_eq(a: &String, b: &String) -> (r: bool)
    ensures
        r == (a@ == b@),
{
    a.eq(b)
}

/// One cached template: the raw bytes fetched from the object store and the
/// source text decoded from them.
pub struct CacheEntry {
    pub raw: Vec<u8>,
    pub source: String,
}

impl CacheEntry {
    /// The decoded source is exactly the UTF-8 decoding of the raw bytes.
    pub open spec fn wf(&self) -> bool {
        utf8_source(self.raw@) == Some(self.source@)
    }
}

struct CacheSlot {
    key: String,
    entry: CacheEntry,
}

/// Maps each template identifier to its single published entry.
pub struct TemplateCache {
    slots: Vec<CacheSlot>,
}

spec fn slots_map(s: Seq<CacheSlot>) -> Map<Seq<char>, Seq<u8>>
    decreases s.len(),
{
    if s.len() == 0 {
        Map::empty()
    } else {
        slots_map(s.drop_last()).insert(s.last().key@, s.last().entry.raw@)
    }
}

spec fn keys_unique(s: Seq<CacheSlot>) -> bool {
    forall|i: int, j: int| 0 <= i < j < s.len() ==> s[i].key@ != s[j].key@
}

proof fn lemma_slots_map_contains(s: Seq<CacheSlot>, k: Seq<char>)
    ensures
        slots_map(s).dom().contains(k) <==> exists|i: int| 0 <= i < s.len() && s[i].key@ == k,
    decreases s.len(),
{
    if s.len() > 0 {
        lemma_slots_map_contains(s.drop_last(), k);
        if slots_map(s).dom().contains(k) {
            if s.last().key@ != k {
                let i = choose|i: int| 0 <= i < s.drop_last().len() && s.drop_last()[i].key@ == k;
                assert(s[i].key@ == k);
            }
        }
        if exists|i: int| 0 <= i < s.len() && s[i].key@ == k {
            let i = choose|i: int| 0 <= i < s.len() && s[i].key@ == k;
            if i < s.len() - 1 {
                assert(s.drop_last()[i].key@ == k);
            }
        }
    }
}

proof fn lemma_slots_map_at(s: Seq<CacheSlot>, i: int)
    requires
        keys_unique(s),
        0 <= i < s.len(),
    ensures
        slots_map(s).dom().contains(s[i].key@),
        slots_map(s)[s[i].key@] == s[i].entry.raw@,
    decreases s.len(),
{
    if i < s.len() - 1 {
        assert(keys_unique(s.drop_last())) by {
            assert(forall|p: int, q: int|
                0 <= p < q < s.drop_last().len() ==> s.drop_last()[p].key@ != s.drop_last()[q].key@);
        }
        lemma_slots_map_at(s.drop_last(), i);
        assert(s.drop_last()[i] == s[i]);
        assert(s[i].key@ != s.last().key@);
    }
}

proof fn lemma_slots_map_update(s: Seq<CacheSlot>, i: int, slot: CacheSlot)
    requires
        keys_unique(s),
        0 <= i < s.len(),
        s[i].key@ == slot.key@,
    ensures
        slots_map(s.update(i, slot)) == slots_map(s).insert(slot.key@, slot.entry.raw@),
    decreases s.len(),
{
    let t = s.update(i, slot);
    if i == s.len() - 1 {
        assert(t.drop_last() =~= s.drop_last());
        assert(t.last() == slot);
        assert(slots_map(t) =~= slots_map(s).insert(slot.key@, slot.entry.raw@));
    } else {
        assert(keys_unique(s.drop_last())) by {
            assert(forall|p: int, q: int|
                0 <= p < q < s.drop_last().len() ==> s.drop_last()[p].key@ != s.drop_last()[q].key@);
        }
        lemma_slots_map_update(s.drop_last(), i, slot);
        assert(t.drop_last() =~= s.drop_last().update(i, slot));
        assert(t.last() == s.last());
        assert(s[i].key@ != s.last().key@);
        assert(slots_map(t) =~= slots_map(s).insert(slot.key@, slot.entry.raw@));
    }
}

impl View for TemplateCache {
    type V = Map<Seq<char>, Seq<u8>>;

    closed spec fn view(&self) -> Map<Seq<char>, Seq<u8>> {
        slots_map(self.slots@)
    }
}

impl TemplateCache {
    /// Every key is published at most once, and every entry's source text is
    /// the decoding of its raw bytes.
    pub closed spec fn wf(&self) -> bool {
        &&& keys_unique(self.slots@)
        &&& forall|i: int| 0 <= i < self.slots@.len() ==> (#[trigger] self.slots@[i].entry).wf()
    }

    /// An empty cache, built once per process before any request is served.
    pub fn new() -> (c: TemplateCache)
        ensures
            c.wf(),
            c@ == Map::<Seq<char>, Seq<u8>>::empty(),
    {
        TemplateCache { slots: Vec::new() }
    }

    /// Finds the published entry for a template identifier, without changing
    /// the cache.
    pub fn lookup(&self, template_id: &String) -> (r: Option<&CacheEntry>)
        requires
            self.wf(),
        ensures
            match r {
                Some(e) => {
                    &&& self@.dom().contains(template_id@)
                    &&& e.raw@ == self@[template_id@]
                    &&& e.wf()
                },
                None => !self@.dom().contains(template_id@),
            },
    {
        let n = self.slots.len();
        let mut i: usize = 0;
        while i < n
            invariant
                self.wf(),
                i <= n == self.slots@.len(),
                forall|j: int| 0 <= j < i ==> self.slots@[j].key@ != template_id@,
            decreases n - i,
        {
            if string_eq(&self.slots[i].key, template_id) {
                proof {
                    lemma_slots_map_at(self.slots@, i as int);
                }
                return Some(&self.slots[i].entry);
            }
            i = i + 1;
        }
        proof {
            lemma_slots_map_contains(self.slots@, template_id@);
        }
        None
    }

    /// Whether a template identifier has a published entry.
    pub fn contains(&self, template_id: &String) -> (r: bool)
        requires
            self.wf(),
        ensures
            r == self@.dom().contains(template_id@),
    {
        self.lookup(template_id).is_some()
    }

    /// Publishes an entry under a template identifier, overwriting any entry
    /// published before it: the last writer wins, and the cache keeps exactly
    /// one entry per template.
    pub fn insert(&mut self, template_id: String, entry: CacheEntry)
        requires
            old(self).wf(),
            entry.wf(),
        ensures
            final(self).wf(),
            final(self)@ == old(self)@.insert(template_id@, entry.raw@),
    {
        let n = self.slots.len();
        let mut i: usize = 0;
        while i < n
            invariant
                *self == *old(self),
                self.wf(),
                entry.wf(),
                n == self.slots@.len(),
                i <= n,
                forall|j: int| 0 <= j < i ==> self.slots@[j].key@ != template_id@,
            decreases n - i,
        {
            if string_eq(&self.slots[i].key, &template_id) {
                let slot = CacheSlot { key: template_id, entry };
                proof {
                    lemma_slots_map_update(self.slots@, i as int, slot);
                }
                self.slots.set(i, slot);
                return ;
            }
            i = i + 1;
        }
        let slot = CacheSlot { key: template_id, entry };
        proof {
            assert(self.slots@.push(slot).drop_last() =~= self.slots@);
        }
        self.slots.push(slot);
    }
}

/// Law: publishing an entry for the same template twice leaves exactly the
/// state that publishing only the later entry would leave — duplicate work by
/// racing writers can never produce divergent published state, and each
/// publication adds at most the one key it names.
pub proof fn lemma_republish_keeps_single_entry(
    m: Map<Seq<char>, Seq<u8>>,
    t: Seq<char>,
    v1: Seq<u8>,
    v2: Seq<u8>,
)
    ensures
        m.insert(t, v1).insert(t, v2) == m.insert(t, v2),
        m.insert(t, v1).dom() == m.dom().insert(t),
{
    assert(m.insert(t, v1).insert(t, v2) =~= m.insert(t, v2));
    assert(m.insert(t, v1).dom() =~= m.dom().insert(t));
}

} // verus!
