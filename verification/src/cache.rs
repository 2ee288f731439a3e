//! Write-once in-memory caches.
//!
//! The domain resolver keeps a map from raw query text to the resolved
//! domain; the icon resolver keeps a map from `(normalized domain, size)` to
//! the fetched image bytes.  Entries are never evicted or overwritten: the
//! first successful resolution of a key wins and every later write to the
//! same key is a no-op.

use vstd::prelude::*;

verus! {

use crate::text::bytes_eq;

/// Inserts `k -> v` only where `k` is absent: the write-once policy.
pub open spec fn put_once<K, V>(m: Map<K, V>, k: K, v: V) -> Map<K, V> {
    if m.contains_key(k) {
        m
    } else {
        m.insert(k, v)
    }
}

/// No write ever evicts or updates an existing entry: whatever a key held
/// before a write, it holds afterwards.  Concurrent writers to the same key
/// therefore race harmlessly: the first write wins and the rest change
/// nothing.
pub proof fn lemma_put_once_preserves_entries<K, V>(m: Map<K, V>, k: K, v: V, k2: K)
    requires
        m.contains_key(k2),
    ensures
        put_once(m, k, v).contains_key(k2),
        put_once(m, k, v)[k2] == m[k2],
{
}

// ---------------------------------------------------------------------------
// Domain cache: query bytes -> domain bytes
// ---------------------------------------------------------------------------

spec fn assoc_map(s: Seq<(Vec<u8>, Vec<u8>)>) -> Map<Seq<u8>, Seq<u8>>
    decreases s.len(),
{
    if s.len() == 0 {
        Map::empty()
    } else {
        assoc_map(s.drop_last()).insert(s.last().0@, s.last().1@)
    }
}

proof fn lemma_assoc_contains(s: Seq<(Vec<u8>, Vec<u8>)>, k: Seq<u8>)
    ensures
        assoc_map(s).contains_key(k) <==> exists|i: int| 0 <= i < s.len() && s[i].0@ == k,
    decreases s.len(),
{
    if s.len() > 0 {
        lemma_assoc_contains(s.drop_last(), k);
        if s.last().0@ == k {
            assert(s[s.len() - 1].0@ == k);
        } else if assoc_map(s).contains_key(k) {
            let i = choose|i: int| 0 <= i < s.drop_last().len() && s.drop_last()[i].0@ == k;
            assert(s[i].0@ == k);
        } else if exists|i: int| 0 <= i < s.len() && s[i].0@ == k {
            let i = choose|i: int| 0 <= i < s.len() && s[i].0@ == k;
            assert(0 <= i < s.len() - 1);
            assert(s.drop_last()[i].0@ == k);
        }
    }
}

proof fn lemma_assoc_get(s: Seq<(Vec<u8>, Vec<u8>)>, k: Seq<u8>, i: int)
    requires
        0 <= i < s.len(),
        s[i].0@ == k,
        forall|a: int, b: int| 0 <= a < b < s.len() ==> s[a].0@ != s[b].0@,
    ensures
        assoc_map(s).contains_key(k),
        assoc_map(s)[k] == s[i].1@,
    decreases s.len(),
{
    if i == s.len() - 1 {
        assert(assoc_map(s)[k] == s.last().1@);
    } else {
        assert(s.last().0@ != k);
        assert(s.drop_last()[i].0@ == k);
        lemma_assoc_get(s.drop_last(), k, i);
    }
}

/// Memory cache for resolved domains, keyed by the raw query text.
pub struct DomainCache {
    entries: Vec<(Vec<u8>, Vec<u8>)>,
}

impl View for DomainCache {
    type V = Map<Seq<u8>, Seq<u8>>;

    closed spec fn view(&self) -> Map<Seq<u8>, Seq<u8>> {
        assoc_map(self.entries@)
    }
}

impl DomainCache {
    /// Keys are stored at most once, so a lookup is unambiguous.
    pub closed spec fn wf(&self) -> bool {
        forall|a: int, b: int|
            0 <= a < b < self.entries@.len() ==> self.entries@[a].0@ != self.entries@[b].0@
    }

    pub fn new() -> (c: DomainCache)
        ensures
            c.wf(),
            c@ == Map::<Seq<u8>, Seq<u8>>::empty(),
    {
        DomainCache { entries: Vec::new() }
    }

    /// Returns the cached value for `k`, if one was ever stored.
    pub fn lookup(&self, k: &[u8]) -> (r: Option<Vec<u8>>)
        requires
            self.wf(),
        ensures
            match r {
                Some(v) => self@.contains_key(k@) && v@ == self@[k@],
                None => !self@.contains_key(k@),
            },
    {
        let n = self.entries.len();
        let mut i: usize = 0;
        while i < n
            invariant
                self.wf(),
                n == self.entries@.len(),
                i <= n,
                forall|j: int| 0 <= j < i ==> self.entries@[j].0@ != k@,
            decreases n - i,
        {
            if bytes_eq(self.entries[i].0.as_slice(), k) {
                proof {
                    lemma_assoc_get(self.entries@, k@, i as int);
                }
                return Some(vstd::slice::slice_to_vec(self.entries[i].1.as_slice()));
            }
            i = i + 1;
        }
        proof {
            lemma_assoc_contains(self.entries@, k@);
        }
        None
    }

    /// Stores `k -> v` unless `k` is already present (first write wins).
    pub fn store(&mut self, k: &[u8], v: &[u8])
        requires
            old(self).wf(),
        ensures
            final(self).wf(),
            final(self)@ == put_once(old(self)@, k@, v@),
    {
        let present = match self.lookup(k) {
            Some(_) => true,
            None => false,
        };
        if !present {
            let ghost before = self.entries@;
            let key = vstd::slice::slice_to_vec(k);
            let value = vstd::slice::slice_to_vec(v);
            self.entries.push((key, value));
            proof {
                assert(self.entries@.drop_last() =~= before);
                lemma_assoc_contains(before, k@);
                assert forall|a: int, b: int|
                    0 <= a < b < self.entries@.len() implies self.entries@[a].0@
                    != self.entries@[b].0@ by {
                    if b == self.entries@.len() - 1 {
                        assert(self.entries@[a].0@ == before[a].0@);
                    }
                }
            }
        }
    }
}

// ---------------------------------------------------------------------------
// Icon cache: (normalized domain, size) -> image bytes
// ---------------------------------------------------------------------------

spec fn icon_assoc_map(s: Seq<(Vec<u8>, u32, Vec<u8>)>) -> Map<(Seq<u8>, u32), Seq<u8>>
    decreases s.len(),
{
    if s.len() == 0 {
        Map::empty()
    } else {
        icon_assoc_map(s.drop_last()).insert((s.last().0@, s.last().1), s.last().2@)
    }
}

spec fn icon_key(e: (Vec<u8>, u32, Vec<u8>)) -> (Seq<u8>, u32) {
    (e.0@, e.1)
}

proof fn lemma_icon_assoc_contains(s: Seq<(Vec<u8>, u32, Vec<u8>)>, k: (Seq<u8>, u32))
    ensures
        icon_assoc_map(s).contains_key(k) <==> exists|i: int| 0 <= i < s.len() && icon_key(s[i])
            == k,
    decreases s.len(),
{
    if s.len() > 0 {
        lemma_icon_assoc_contains(s.drop_last(), k);
        if icon_key(s.last()) == k {
            assert(icon_key(s[s.len() - 1]) == k);
        } else if icon_assoc_map(s).contains_key(k) {
            let i = choose|i: int|
                0 <= i < s.drop_last().len() && icon_key(s.drop_last()[i]) == k;
            assert(icon_key(s[i]) == k);
        } else if exists|i: int| 0 <= i < s.len() && icon_key(s[i]) == k {
            let i = choose|i: int| 0 <= i < s.len() && icon_key(s[i]) == k;
            assert(0 <= i < s.len() - 1);
            assert(icon_key(s.drop_last()[i]) == k);
        }
    }
}

proof fn lemma_icon_assoc_get(s: Seq<(Vec<u8>, u32, Vec<u8>)>, k: (Seq<u8>, u32), i: int)
    requires
        0 <= i < s.len(),
        icon_key(s[i]) == k,
        forall|a: int, b: int| 0 <= a < b < s.len() ==> icon_key(s[a]) != icon_key(s[b]),
    ensures
        icon_assoc_map(s).contains_key(k),
        icon_assoc_map(s)[k] == s[i].2@,
    decreases s.len(),
{
    if i == s.len() - 1 {
        assert(icon_assoc_map(s)[k] == s.last().2@);
    } else {
        assert(icon_key(s.last()) != k);
        assert(icon_key(s.drop_last()[i]) == k);
        lemma_icon_assoc_get(s.drop_last(), k, i);
    }
}

/// Cache for fetched icons, keyed by normalized domain and requested size.
pub struct IconCache {
    entries: Vec<(Vec<u8>, u32, Vec<u8>)>,
}

impl View for IconCache {
    type V = Map<(Seq<u8>, u32), Seq<u8>>;

    closed spec fn view(&self) -> Map<(Seq<u8>, u32), Seq<u8>> {
        icon_assoc_map(self.entries@)
    }
}

impl IconCache {
    pub closed spec fn wf(&self) -> bool {
        forall|a: int, b: int|
            0 <= a < b < self.entries@.len() ==> icon_key(self.entries@[a]) != icon_key(
                self.entries@[b],
            )
    }

    pub fn new() -> (c: IconCache)
        ensures
            c.wf(),
            c@ == Map::<(Seq<u8>, u32), Seq<u8>>::empty(),
    {
        IconCache { entries: Vec::new() }
    }

    /// Returns the cached icon bytes for `(domain, size)`, if ever stored.
    pub fn lookup(&self, domain: &[u8], size: u32) -> (r: Option<Vec<u8>>)
        requires
            self.wf(),
        ensures
            match r {
                Some(v) => self@.contains_key((domain@, size)) && v@ == self@[(domain@, size)],
                None => !self@.contains_key((domain@, size)),
            },
    {
        let n = self.entries.len();
        let mut i: usize = 0;
        while i < n
            invariant
                self.wf(),
                n == self.entries@.len(),
                i <= n,
                forall|j: int| 0 <= j < i ==> icon_key(self.entries@[j]) != (domain@, size),
            decreases n - i,
        {
            if self.entries[i].1 == size && bytes_eq(self.entries[i].0.as_slice(), domain) {
                proof {
                    lemma_icon_assoc_get(self.entries@, (domain@, size), i as int);
                }
                return Some(vstd::slice::slice_to_vec(self.entries[i].2.as_slice()));
            }
            i = i + 1;
        }
        proof {
            lemma_icon_assoc_contains(self.entries@, (domain@, size));
        }
        None
    }

    /// Stores icon bytes for `(domain, size)` unless already present.
    pub fn store(&mut self, domain: &[u8], size: u32, bytes: &[u8])
        requires
            old(self).wf(),
        ensures
            final(self).wf(),
            final(self)@ == put_once(old(self)@, (domain@, size), bytes@),
    {
        let present = match self.lookup(domain, size) {
            Some(_) => true,
            None => false,
        };
        if !present {
            let ghost before = self.entries@;
            let key = vstd::slice::slice_to_vec(domain);
            let value = vstd::slice::slice_to_vec(bytes);
            self.entries.push((key, size, value));
            proof {
                assert(self.entries@.drop_last() =~= before);
                lemma_icon_assoc_contains(before, (domain@, size));
                assert forall|a: int, b: int|
                    0 <= a < b < self.entries@.len() implies icon_key(self.entries@[a])
                    != icon_key(self.entries@[b]) by {
                    if b == self.entries@.len() - 1 {
                        assert(self.entries@[a] == before[a]);
                    }
                }
            }
        }
    }
}

} // verus!
