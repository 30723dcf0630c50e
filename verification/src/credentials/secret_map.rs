//! A small string-to-string map with unique keys, the model behind the
//! in-memory keychain and the plaintext fallback file.
use vstd::prelude::*;
use crate::text::str_eq;

verus! {

/// The map an association list denotes: later entries win.
pub open spec fn assoc(s: Seq<(Seq<char>, Seq<char>)>) -> Map<Seq<char>, Seq<char>>
    decreases s.len(),
{
    if s.len() == 0 {
        Map::empty()
    } else {
        assoc(s.drop_last()).insert(s.last().0, s.last().1)
    }
}

/// No key occurs twice.
pub open spec fn unique_keys(s: Seq<(Seq<char>, Seq<char>)>) -> bool {
    forall|i: int, j: int| 0 <= i < s.len() && 0 <= j < s.len() && i != j ==> (#[trigger] s[i]).0 != (#[trigger] s[j]).0
}

/// A key is in the denoted map iff some entry carries it; with unique keys
/// its value is that entry's.
pub proof fn lemma_assoc_lookup(s: Seq<(Seq<char>, Seq<char>)>, k: Seq<char>)
    requires
        unique_keys(s),
    ensures
        assoc(s).contains_key(k) <==> exists|i: int| 0 <= i < s.len() && (#[trigger] s[i]).0 == k,
        forall|i: int| 0 <= i < s.len() && (#[trigger] s[i]).0 == k ==> assoc(s)[k] == s[i].1,
    decreases s.len(),
{
    if s.len() > 0 {
        let t = s.drop_last();
        assert(unique_keys(t)) by {
            assert forall|i: int, j: int| 0 <= i < t.len() && 0 <= j < t.len() && i != j implies (#[trigger] t[i]).0 != (#[trigger] t[j]).0 by {
                assert(t[i] == s[i] && t[j] == s[j]);
            }
        }
        lemma_assoc_lookup(t, k);
        if assoc(s).contains_key(k) && s.last().0 != k {
            let i = choose|i: int| 0 <= i < t.len() && (#[trigger] t[i]).0 == k;
            assert(s[i] == t[i]);
        }
        assert forall|i: int| 0 <= i < s.len() && (#[trigger] s[i]).0 == k implies assoc(s)[k] == s[i].1 by {
            if i < s.len() - 1 {
                assert(s[i] == t[i]);
                assert(s[i].0 != s[s.len() - 1].0);
            }
        }
        if exists|i: int| 0 <= i < s.len() && (#[trigger] s[i]).0 == k {
            let i = choose|i: int| 0 <= i < s.len() && (#[trigger] s[i]).0 == k;
            if i < s.len() - 1 {
                assert(t[i] == s[i]);
            }
        }
    }
}

/// Entries whose key is not `k`.
pub open spec fn key_differs(k: Seq<char>) -> spec_fn((Seq<char>, Seq<char>)) -> bool {
    |e: (Seq<char>, Seq<char>)| e.0 != k
}

/// Dropping the entries of key `k` removes `k` from the denoted map.
pub proof fn lemma_assoc_without(s: Seq<(Seq<char>, Seq<char>)>, k: Seq<char>)
    ensures
        assoc(s.filter(key_differs(k))) == assoc(s).remove(k),
    decreases s.len(),
{
    let p = key_differs(k);
    if s.len() == 0 {
        assert(s.filter(p) =~= s);
        assert(assoc(s).remove(k) =~= Map::empty());
    } else {
        let t = s.drop_last();
        lemma_assoc_without(t, k);
        assert(t.push(s.last()) =~= s);
        t.lemma_filter_push(s.last(), p);
        if p(s.last()) {
            assert(t.filter(p).push(s.last()).drop_last() =~= t.filter(p));
            assert(assoc(s.filter(p)) =~= assoc(s).remove(k));
        } else {
            assert(assoc(s.filter(p)) =~= assoc(s).remove(k));
        }
    }
}

/// A string-to-string map with unique keys, in insertion order.
#[derive(Debug, Clone)]
pub struct SecretMap {
    entries: Vec<(String, String)>,
}

/// The entries as values.
pub open spec fn entries_view(v: Seq<(String, String)>) -> Seq<(Seq<char>, Seq<char>)> {
    v.map_values(|e: (String, String)| (e.0@, e.1@))
}

impl View for SecretMap {
    type V = Map<Seq<char>, Seq<char>>;

    closed spec fn view(&self) -> Map<Seq<char>, Seq<char>> {
        assoc(entries_view(self.entries@))
    }
}

impl SecretMap {
    /// Well-formedness: keys are unique.
    pub closed spec fn wf(&self) -> bool {
        unique_keys(entries_view(self.entries@))
    }

    /// The empty map.
    pub fn new() -> (r: SecretMap)
        ensures
            r.wf(),
            r@ == Map::<Seq<char>, Seq<char>>::empty(),
    {
        let r = SecretMap { entries: Vec::new() };
        proof {
            assert(entries_view(r.entries@) =~= Seq::<(Seq<char>, Seq<char>)>::empty());
        }
        r
    }

    /// The value of `key`, if present.
    pub fn get(&self, key: &str) -> (r: Option<String>)
        requires
            self.wf(),
        ensures
            match r {
                Some(v) => self@.contains_key(key@) && self@[key@] == v@,
                None => !self@.contains_key(key@),
            },
    {
        let ghost ev = entries_view(self.entries@);
        proof {
            lemma_assoc_lookup(ev, key@);
        }
        let mut i: usize = 0;
        while i < self.entries.len()
            invariant
                i <= self.entries.len(),
                ev == entries_view(self.entries@),
                unique_keys(ev),
                forall|j: int| 0 <= j < i ==> (#[trigger] ev[j]).0 != key@,
            decreases self.entries.len() - i,
        {
            if str_eq(self.entries[i].0.as_str(), key) {
                proof {
                    lemma_assoc_lookup(ev, key@);
                }
                assert(ev[i as int].0 == key@);
                assert(ev[i as int].1 == self.entries@[i as int].1@);
                return Some(self.entries[i].1.clone());
            }
            i = i + 1;
        }
        None
    }

    /// Drop `key`; true iff it was present.
    pub fn remove(&mut self, key: &str) -> (r: bool)
        requires
            old(self).wf(),
        ensures
            final(self).wf(),
            final(self)@ == old(self)@.remove(key@),
            r == old(self)@.contains_key(key@),
    {
        let ghost ev = entries_view(self.entries@);
        let ghost p = key_differs(key@);
        proof {
            lemma_assoc_lookup(ev, key@);
            lemma_assoc_without(ev, key@);
        }
        let mut kept: Vec<(String, String)> = Vec::new();
        let mut found = false;
        let mut i: usize = 0;
        while i < self.entries.len()
            invariant
                i <= self.entries.len(),
                ev == entries_view(self.entries@),
                p == key_differs(key@),
                entries_view(kept@) == ev.subrange(0, i as int).filter(p),
                found == exists|j: int| 0 <= j < i && (#[trigger] ev[j]).0 == key@,
            decreases self.entries.len() - i,
        {
            let ghost s = ev.subrange(0, i as int);
            proof {
                assert(ev.subrange(0, i + 1) =~= s.push(ev[i as int]));
                s.lemma_filter_push(ev[i as int], p);
            }
            let e = &self.entries[i];
            if str_eq(e.0.as_str(), key) {
                found = true;
            } else {
                let ghost before = entries_view(kept@);
                kept.push((e.0.clone(), e.1.clone()));
                proof {
                    assert(entries_view(kept@) =~= before.push(ev[i as int]));
                }
            }
            i = i + 1;
        }
        proof {
            assert(ev.subrange(0, i as int) =~= ev);
            let f = ev.filter(p);
            assert forall|a: int, b: int| 0 <= a < f.len() && 0 <= b < f.len() && a != b implies (#[trigger] f[a]).0 != (#[trigger] f[b]).0 by {
                ev.lemma_filter_contains_rev(p, f[a]);
                ev.lemma_filter_contains_rev(p, f[b]);
                lemma_filter_keeps_unique(ev, p);
            }
        }
        self.entries = kept;
        found
    }

    /// Set `key` to `value` (replacing any previous value).
    pub fn insert(&mut self, key: &str, value: &str)
        requires
            old(self).wf(),
        ensures
            final(self).wf(),
            final(self)@ == old(self)@.insert(key@, value@),
    {
        self.remove(key);
        let ghost ev = entries_view(self.entries@);
        proof {
            lemma_assoc_lookup(ev, key@);
        }
        self.entries.push((key.to_string(), value.to_string()));
        proof {
            let ev2 = entries_view(self.entries@);
            assert(ev2 =~= ev.push((key@, value@)));
            assert(ev2.drop_last() =~= ev);
            assert forall|a: int, b: int| 0 <= a < ev2.len() && 0 <= b < ev2.len() && a != b implies (#[trigger] ev2[a]).0 != (#[trigger] ev2[b]).0 by {
                if a < ev.len() && b < ev.len() {
                    assert(ev2[a] == ev[a] && ev2[b] == ev[b]);
                } else if a < ev.len() {
                    assert(ev2[a] == ev[a]);
                } else {
                    assert(ev2[b] == ev[b]);
                }
            }
        }
    }

    /// The entries, in insertion order.
    pub fn entries(&self) -> (r: &Vec<(String, String)>)
        ensures
            assoc(entries_view(r@)) == self@,
    {
        &self.entries
    }
}

/// Filtering keeps keys unique and keeps only entries of the original.
proof fn lemma_filter_keeps_unique(s: Seq<(Seq<char>, Seq<char>)>, p: spec_fn((Seq<char>, Seq<char>)) -> bool)
    requires
        unique_keys(s),
    ensures
        unique_keys(s.filter(p)),
    decreases s.len(),
{
    if s.len() > 0 {
        let t = s.drop_last();
        assert(t.push(s.last()) =~= s);
        assert(unique_keys(t)) by {
            assert forall|i: int, j: int| 0 <= i < t.len() && 0 <= j < t.len() && i != j implies (#[trigger] t[i]).0 != (#[trigger] t[j]).0 by {
                assert(t[i] == s[i] && t[j] == s[j]);
            }
        }
        lemma_filter_keeps_unique(t, p);
        t.lemma_filter_push(s.last(), p);
        if p(s.last()) {
            let f = t.filter(p);
            let g = f.push(s.last());
            assert forall|a: int, b: int| 0 <= a < g.len() && 0 <= b < g.len() && a != b implies (#[trigger] g[a]).0 != (#[trigger] g[b]).0 by {
                if a < f.len() && b < f.len() {
                    assert(g[a] == f[a] && g[b] == f[b]);
                } else {
                    let x = if a < f.len() { a } else { b };
                    assert(g[x] == f[x]);
                    t.lemma_filter_contains_rev(p, f[x]);
                    let w = choose|w: int| 0 <= w < t.len() && t[w] == f[x];
                    assert(s[w] == t[w]);
                    assert(s[w].0 != s[s.len() - 1].0);
                }
            }
        }
    }
}

} // verus!
