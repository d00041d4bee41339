//! Values that the C interface hands out: return codes and resource metadata.
use vstd::prelude::*;

use crate::text::text_eq;

verus! {

/// Integer return codes returned to C.
#[derive(Debug, Clone, Copy, PartialEq, Eq, Structural)]
pub enum ReturnCode {
    /// Success.
    Success,
    /// Error.
    Error,
    /// Unexpected null pointer.
    NullPointerError,
}

impl ReturnCode {
    /// The integer that C sees.
    pub open spec fn spec_code(self) -> i32 {
        match self {
            ReturnCode::Success => 0,
            ReturnCode::Error => 100,
            ReturnCode::NullPointerError => 101,
        }
    }

    /// Returns the integer that C sees for this code.
    pub fn code(&self) -> (r: i32)
        ensures
            r == self.spec_code(),
    {
        match self {
            ReturnCode::Success => 0,
            ReturnCode::Error => 100,
            ReturnCode::NullPointerError => 101,
        }
    }
}

/// Quantum resource metadata: text values under text keys.
#[derive(Debug)]
pub struct ResourceMetadata {
    inner: Vec<(String, String)>,
}

/// Whether no two entries share a key.
pub open spec fn distinct_keys(entries: Seq<(String, String)>) -> bool {
    forall|i: int, j: int|
        0 <= i < entries.len() && 0 <= j < entries.len() && i != j ==> (#[trigger] entries[i]).0@
            != (#[trigger] entries[j]).0@
}

/// Whether `key` is the key of an entry.
pub open spec fn has_key(entries: Seq<(String, String)>, key: Seq<char>) -> bool {
    exists|i: int| 0 <= i < entries.len() && (#[trigger] entries[i]).0@ == key
}

/// The index of the entry whose key is `key`.
pub open spec fn key_index(entries: Seq<(String, String)>, key: Seq<char>) -> int {
    choose|i: int| 0 <= i < entries.len() && (#[trigger] entries[i]).0@ == key
}

/// The map that a list of entries with distinct keys describes.
pub open spec fn entries_map(entries: Seq<(String, String)>) -> Map<Seq<char>, Seq<char>> {
    Map::new(|k: Seq<char>| has_key(entries, k), |k: Seq<char>| entries[key_index(entries, k)].1@)
}

impl View for ResourceMetadata {
    type V = Map<Seq<char>, Seq<char>>;

    closed spec fn view(&self) -> Map<Seq<char>, Seq<char>> {
        entries_map(self.inner@)
    }
}

impl ResourceMetadata {
    /// The entries, in insertion order.
    pub closed spec fn entries(&self) -> Seq<(String, String)> {
        self.inner@
    }

    /// No key is stored twice.
    #[verifier::type_invariant]
    closed spec fn wf(&self) -> bool {
        distinct_keys(self.inner@)
    }

    /// Metadata without entries.
    pub fn new() -> (r: Self)
        ensures
            r@ == Map::<Seq<char>, Seq<char>>::empty(),
    {
        let r = ResourceMetadata { inner: Vec::new() };
        assert(r@ =~= Map::<Seq<char>, Seq<char>>::empty());
        r
    }

    /// Finds the index of the entry for `key`.
    fn find(&self, key: &str) -> (r: Option<usize>)
        ensures
            match r {
                Some(i) => i < self.inner@.len() && self.inner@[i as int].0@ == key@,
                None => !has_key(self.inner@, key@),
            },
    {
        let n = self.inner.len();
        let mut i: usize = 0;
        while i < n
            invariant
                n == self.inner@.len(),
                i <= n,
                forall|j: int| 0 <= j < i ==> (#[trigger] self.inner@[j]).0@ != key@,
            decreases n - i,
        {
            if text_eq(self.inner[i].0.as_str(), key) {
                return Some(i);
            }
            i = i + 1;
        }
        None
    }

    /// Stores `value` under `key`, replacing the value stored there before.
    pub fn insert(&mut self, key: String, value: String)
        ensures
            final(self)@ == old(self)@.insert(key@, value@),
    {
        proof {
            use_type_invariant(&*self);
        }
        let ghost old_entries = self.inner@;
        let ghost k = key@;
        let ghost v = value@;
        match self.find(key.as_str()) {
            Some(i) => {
                let mut entries: Vec<(String, String)> = Vec::new();
                std::mem::swap(&mut entries, &mut self.inner);
                entries.set(i, (key, value));
                let ghost e = entries@;
                assert(distinct_keys(e)) by {
                    assert forall|a: int, b: int|
                        0 <= a < e.len() && 0 <= b < e.len() && a != b implies (#[trigger] e[a]).0@
                        != (#[trigger] e[b]).0@ by {
                        if a != i && b != i {
                            assert(e[a] == old_entries[a] && e[b] == old_entries[b]);
                        } else if a == i {
                            assert(old_entries[a].0@ == k);
                            assert(e[b] == old_entries[b]);
                        } else {
                            assert(old_entries[b].0@ == k);
                            assert(e[a] == old_entries[a]);
                        }
                    }
                }
                self.inner = entries;
                proof {
                    let m = entries_map(e);
                    let om = entries_map(old_entries).insert(k, v);
                    assert forall|q: Seq<char>| #[trigger] m.dom().contains(q) == om.dom().contains(q) by {
                        if has_key(old_entries, q) {
                            let t = key_index(old_entries, q);
                            if t == i {
                                assert(e[i as int].0@ == q);
                            } else {
                                assert(e[t].0@ == q);
                            }
                        }
                        if has_key(e, q) {
                            let t = key_index(e, q);
                            assert(old_entries[t].0@ == q || t == i);
                        }
                    }
                    assert forall|q: Seq<char>| #[trigger] m.dom().contains(q) implies m[q] == om[q] by {
                        let t = key_index(e, q);
                        if q == k {
                            assert(e[i as int].0@ == k);
                        } else {
                            let t2 = key_index(old_entries, q);
                            assert(e[t].0@ == q);
                            assert(t != i);
                            assert(old_entries[t].0@ == q);
                        }
                    }
                    assert(m =~= om);
                }
            },
            None => {
                let mut entries: Vec<(String, String)> = Vec::new();
                std::mem::swap(&mut entries, &mut self.inner);
                entries.push((key, value));
                let ghost e = entries@;
                proof {
                    assert(e.len() == old_entries.len() + 1);
                    assert forall|a: int, b: int|
                        0 <= a < e.len() && 0 <= b < e.len() && a != b implies (#[trigger] e[a]).0@
                        != (#[trigger] e[b]).0@ by {
                        if a < old_entries.len() && b < old_entries.len() {
                            assert(e[a] == old_entries[a] && e[b] == old_entries[b]);
                        } else if a == old_entries.len() {
                            assert(e[b] == old_entries[b]);
                        } else {
                            assert(e[a] == old_entries[a]);
                        }
                    }
                    let m = entries_map(e);
                    let om = entries_map(old_entries).insert(k, v);
                    assert forall|q: Seq<char>| #[trigger] m.dom().contains(q) == om.dom().contains(q) by {
                        if has_key(old_entries, q) {
                            let t = key_index(old_entries, q);
                            assert(e[t] == old_entries[t]);
                        }
                        if q == k {
                            assert(e[old_entries.len() as int].0@ == k);
                        }
                        if has_key(e, q) {
                            let t = key_index(e, q);
                            if t < old_entries.len() {
                                assert(old_entries[t] == e[t]);
                            }
                        }
                    }
                    assert forall|q: Seq<char>| #[trigger] m.dom().contains(q) implies m[q] == om[q] by {
                        let t = key_index(e, q);
                        if q == k {
                            assert(e[old_entries.len() as int].0@ == k);
                        } else {
                            let t2 = key_index(old_entries, q);
                            assert(e[t2] == old_entries[t2]);
                            assert(t < old_entries.len());
                        }
                    }
                    assert(m =~= om);
                }
                self.inner = entries;
            },
        }
    }

    /// Returns the value stored under `key`, if any.
    pub fn value(&self, key: &str) -> (r: Option<String>)
        ensures
            r is Some <==> self@.dom().contains(key@),
            r matches Some(v) ==> v@ == self@[key@],
    {
        proof {
            use_type_invariant(self);
        }
        match self.find(key) {
            Some(i) => {
                proof {
                    let t = key_index(self.inner@, key@);
                    assert(self.inner@[t].0@ == key@);
                }
                Some(self.inner[i].1.clone())
            },
            None => None,
        }
    }

    /// Returns the keys, each once.
    pub fn keys(&self) -> (r: Vec<String>)
        ensures
            forall|k: Seq<char>| self@.dom().contains(k) <==> exists|i: int| 0 <= i < r@.len() && (#[trigger] r@[i])@ == k,
            forall|i: int, j: int| 0 <= i < r@.len() && 0 <= j < r@.len() && i != j ==> (#[trigger] r@[i])@ != (#[trigger] r@[j])@,
    {
        proof {
            use_type_invariant(self);
        }
        let n = self.inner.len();
        let mut r: Vec<String> = Vec::new();
        let mut i: usize = 0;
        while i < n
            invariant
                n == self.inner@.len(),
                i <= n,
                r@.len() == i,
                forall|j: int| 0 <= j < i ==> (#[trigger] r@[j])@ == self.inner@[j].0@,
            decreases n - i,
        {
            r.push(self.inner[i].0.clone());
            i = i + 1;
        }
        proof {
            assert forall|k: Seq<char>| self@.dom().contains(k) implies exists|i: int| 0 <= i < r@.len() && (#[trigger] r@[i])@ == k by {
                let t = key_index(self.inner@, k);
                assert(r@[t]@ == k);
            }
            assert forall|k: Seq<char>| (exists|i: int| 0 <= i < r@.len() && (#[trigger] r@[i])@ == k) implies self@.dom().contains(k) by {
                let i = choose|i: int| 0 <= i < r@.len() && (#[trigger] r@[i])@ == k;
                assert(self.inner@[i].0@ == k);
            }
            assert forall|a: int, b: int| 0 <= a < r@.len() && 0 <= b < r@.len() && a != b implies (#[trigger] r@[a])@ != (#[trigger] r@[b])@ by {
                assert(self.inner@[a].0@ != self.inner@[b].0@);
            }
        }
        r
    }
}

} // verus!
