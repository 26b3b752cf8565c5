//! The string-keyed blob store that persistence writes into.
//!
//! A [`Storage`] holds two copies of its entries: the working entries that
//! `set` mutates, and the durable entries that only [`Storage::flush`]
//! refreshes. The host writes the durable entries to disk; the invariant
//! that a flush makes all prior `set` calls durable is the `flush` contract.

use vstd::prelude::*;
use vstd::pervasive::VecAdditionalExecFns;

verus! {

/// One key/value pair of the store.
#[derive(Debug)]
pub struct StorageEntry {
    /// The key, a short well-known name.
    pub key: String,
    /// The value, an opaque blob.
    pub value: Vec<u8>,
}

/// The mathematical content of a store: keys with their blobs, in insertion
/// order.
pub type StoreView = Seq<(Seq<char>, Seq<u8>)>;

/// The blob stored under `k`: the first entry whose key is `k`, if any.
pub open spec fn spec_lookup(s: StoreView, k: Seq<char>) -> Option<Seq<u8>>
    decreases s.len(),
{
    if s.len() == 0 {
        None
    } else if s[0].0 == k {
        Some(s[0].1)
    } else {
        spec_lookup(s.drop_first(), k)
    }
}

/// A string-keyed blob store with an explicit durable copy.
#[derive(Debug)]
pub struct Storage {
    entries: Vec<StorageEntry>,
    durable: Vec<StorageEntry>,
}

/// The view of a sequence of entries.
pub open spec fn entries_view(v: Seq<StorageEntry>) -> StoreView {
    v.map_values(|e: StorageEntry| (e.key@, e.value@))
}

impl View for Storage {
    type V = StoreView;

    closed spec fn view(&self) -> StoreView {
        entries_view(self.entries@)
    }
}

/// Replacing the first entry holding `k` rebinds `k` and nothing else.
proof fn lemma_lookup_update(s: StoreView, i: int, k: Seq<char>, v: Seq<u8>)
    requires
        0 <= i < s.len(),
        s[i].0 == k,
        forall|j: int| 0 <= j < i ==> (#[trigger] s[j]).0 != k,
    ensures
        spec_lookup(s.update(i, (k, v)), k) == Some(v),
        forall|k2: Seq<char>| k2 != k ==> spec_lookup(s.update(i, (k, v)), k2) == spec_lookup(
            s,
            k2,
        ),
    decreases i,
{
    let s2 = s.update(i, (k, v));
    if i == 0 {
        assert(s2[0] == (k, v));
        assert(s2.drop_first() =~= s.drop_first());
        assert forall|k2: Seq<char>| k2 != k implies spec_lookup(s2, k2) == spec_lookup(s, k2) by {
            assert(s[0].0 == k);
        }
    } else {
        lemma_lookup_update(s.drop_first(), i - 1, k, v);
        assert(s2.drop_first() =~= s.drop_first().update(i - 1, (k, v)));
        assert(s2[0] == s[0]);
        assert(s[0].0 != k);
        assert forall|k2: Seq<char>| k2 != k implies spec_lookup(s2, k2) == spec_lookup(s, k2) by {
            if s[0].0 != k2 {
                assert(spec_lookup(s2, k2) == spec_lookup(s2.drop_first(), k2));
                assert(spec_lookup(s, k2) == spec_lookup(s.drop_first(), k2));
            }
        }
    }
}

/// Appending a fresh key binds it and changes nothing else.
proof fn lemma_lookup_push(s: StoreView, k: Seq<char>, v: Seq<u8>)
    requires
        forall|j: int| 0 <= j < s.len() ==> (#[trigger] s[j]).0 != k,
    ensures
        spec_lookup(s.push((k, v)), k) == Some(v),
        forall|k2: Seq<char>| k2 != k ==> spec_lookup(s.push((k, v)), k2) == spec_lookup(s, k2),
    decreases s.len(),
{
    let s2 = s.push((k, v));
    if s.len() == 0 {
        assert(s2[0] == (k, v));
        assert(s2.drop_first() =~= Seq::<(Seq<char>, Seq<u8>)>::empty());
        assert forall|k2: Seq<char>| k2 != k implies spec_lookup(s2, k2) == spec_lookup(s, k2) by {
            assert(spec_lookup(s2, k2) == spec_lookup(s2.drop_first(), k2));
        }
    } else {
        assert(s[0].0 != k);
        lemma_lookup_push(s.drop_first(), k, v);
        assert(s2.drop_first() =~= s.drop_first().push((k, v)));
        assert(s2[0] == s[0]);
        assert forall|k2: Seq<char>| k2 != k implies spec_lookup(s2, k2) == spec_lookup(s, k2) by {
            if s[0].0 != k2 {
                assert(spec_lookup(s2, k2) == spec_lookup(s2.drop_first(), k2));
                assert(spec_lookup(s, k2) == spec_lookup(s.drop_first(), k2));
            }
        }
    }
}

/// A verified byte-for-byte copy of a blob.
pub fn clone_bytes(v: &Vec<u8>) -> (r: Vec<u8>)
    ensures
        r@ == v@,
{
    let mut out: Vec<u8> = Vec::new();
    let mut i: usize = 0;
    while i < v.len()
        invariant
            i <= v@.len(),
            out@ == v@.subrange(0, i as int),
        decreases v@.len() - i,
    {
        out.push(v[i]);
        proof {
            assert(out@ =~= v@.subrange(0, i + 1));
        }
        i += 1;
    }
    proof {
        assert(out@ =~= v@);
    }
    out
}

impl Storage {
    /// The content last made durable by [`Storage::flush`].
    pub closed spec fn durable_view(&self) -> StoreView {
        entries_view(self.durable@)
    }

    /// An empty store: nothing set, nothing durable.
    pub fn new() -> (r: Storage)
        ensures
            r@ == Seq::<(Seq<char>, Seq<u8>)>::empty(),
            r.durable_view() == Seq::<(Seq<char>, Seq<u8>)>::empty(),
    {
        let r = Storage { entries: Vec::new(), durable: Vec::new() };
        proof {
            assert(r@ =~= Seq::<(Seq<char>, Seq<u8>)>::empty());
            assert(r.durable_view() =~= Seq::<(Seq<char>, Seq<u8>)>::empty());
        }
        r
    }

    /// The blob stored under `key`, if any.
    pub fn get(&self, key: &String) -> (r: Option<&Vec<u8>>)
        ensures
            match r {
                Some(v) => spec_lookup(self@, key@) == Some(v@),
                None => spec_lookup(self@, key@) is None,
            },
    {
        let n = self.entries.len();
        let mut i: usize = 0;
        proof {
            assert(self@.skip(0) =~= self@);
        }
        while i < n
            invariant
                i <= n == self.entries@.len(),
                spec_lookup(self@, key@) == spec_lookup(self@.skip(i as int), key@),
                forall|j: int| 0 <= j < i ==> (#[trigger] self.entries@[j]).key@ != key@,
            decreases n - i,
        {
            if self.entries[i].key == *key {
                proof {
                    assert(self@.skip(i as int)[0] == self@[i as int]);
                }
                return Some(&self.entries[i].value);
            }
            proof {
                assert(self@.skip(i as int)[0] == self@[i as int]);
                assert(self@.skip(i as int).drop_first() =~= self@.skip(i as int + 1));
            }
            i += 1;
        }
        proof {
            assert(self@.skip(n as int) =~= Seq::<(Seq<char>, Seq<u8>)>::empty());
        }
        None
    }

    /// Bind `key` to `value`, replacing any existing binding; every other
    /// key keeps its blob, and the durable copy is untouched.
    pub fn set(&mut self, key: &String, value: Vec<u8>)
        ensures
            spec_lookup(final(self)@, key@) == Some(value@),
            forall|k2: Seq<char>| k2 != key@ ==> spec_lookup(final(self)@, k2) == spec_lookup(
                old(self)@,
                k2,
            ),
            final(self).durable_view() == old(self).durable_view(),
    {
        let n = self.entries.len();
        let mut i: usize = 0;
        while i < n
            invariant
                i <= n == self.entries@.len(),
                self.entries@ == old(self).entries@,
                self.durable@ == old(self).durable@,
                forall|j: int| 0 <= j < i ==> (#[trigger] self.entries@[j]).key@ != key@,
            decreases n - i,
        {
            if self.entries[i].key == *key {
                proof {
                    assert(self@[i as int].0 == key@);
                    assert(forall|j: int| 0 <= j < i ==> (#[trigger] self@[j]).0 != key@);
                    lemma_lookup_update(self@, i as int, key@, value@);
                }
                let entry = StorageEntry { key: key.clone(), value };
                self.entries.set(i, entry);
                proof {
                    assert(entries_view(self.entries@) =~= entries_view(old(self).entries@).update(
                        i as int,
                        (key@, value@),
                    ));
                }
                return ;
            }
            i += 1;
        }
        proof {
            assert(forall|j: int| 0 <= j < self@.len() ==> (#[trigger] self@[j]).0 != key@);
            lemma_lookup_push(self@, key@, value@);
        }
        self.entries.push(StorageEntry { key: key.clone(), value });
        proof {
            assert(entries_view(self.entries@) =~= entries_view(old(self).entries@).push(
                (key@, value@),
            ));
        }
    }

    /// Make the working entries durable: afterwards the durable copy equals
    /// the working content, which is unchanged.
    pub fn flush(&mut self)
        ensures
            final(self)@ == old(self)@,
            final(self).durable_view() == old(self)@,
    {
        let n = self.entries.len();
        let mut d: Vec<StorageEntry> = Vec::new();
        let mut i: usize = 0;
        while i < n
            invariant
                i <= n == self.entries@.len(),
                self.entries@ == old(self).entries@,
                self.durable@ == old(self).durable@,
                d@.len() == i,
                entries_view(d@) =~= entries_view(self.entries@).subrange(0, i as int),
            decreases n - i,
        {
            let value = clone_bytes(&self.entries[i].value);
            let key = self.entries[i].key.clone();
            d.push(StorageEntry { key, value });
            proof {
                assert(entries_view(d@) =~= entries_view(self.entries@).subrange(0, i + 1));
            }
            i += 1;
        }
        self.durable = d;
        proof {
            assert(entries_view(self.durable@) =~= entries_view(self.entries@));
        }
    }

    /// A store seeded with previously persisted entries; the seed counts as
    /// durable, since it came from disk.
    pub fn from_saved(entries: Vec<StorageEntry>) -> (r: Storage)
        ensures
            r@ == entries_view(entries@),
            r.durable_view() == entries_view(entries@),
    {
        let mut st = Storage { entries, durable: Vec::new() };
        st.flush();
        st
    }

    /// The durable entries, for the host to write out.
    pub fn durable_entries(&self) -> (r: &Vec<StorageEntry>)
        ensures
            entries_view(r@) == self.durable_view(),
    {
        &self.durable
    }
}

} // verus!
