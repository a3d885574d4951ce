//! A small map from strings to values: at most one entry per key, kept in
//! the order keys were first inserted.

use vstd::prelude::*;

use crate::text::{chars_vec, str_eq};

verus! {

/// Whether no two entries share a key.
pub open spec fn keys_distinct<V>(s: Seq<(String, V)>) -> bool {
    forall|i: int, j: int| 0 <= i < j < s.len() ==> #[trigger] s[i].0@ != #[trigger] s[j].0@
}

/// The value stored under key `k`, if any.
pub open spec fn value_at<V>(s: Seq<(String, V)>, k: Seq<char>) -> Option<V> {
    if exists|i: int| 0 <= i < s.len() && #[trigger] s[i].0@ == k {
        Some(s[choose|i: int| 0 <= i < s.len() && #[trigger] s[i].0@ == k].1)
    } else {
        None
    }
}

proof fn lemma_value_at<V>(s: Seq<(String, V)>, i: int)
    requires
        keys_distinct(s),
        0 <= i < s.len(),
    ensures
        value_at(s, s[i].0@) == Some(s[i].1),
{
    let k = s[i].0@;
    assert(s[i].0@ == k);
    let j = choose|j: int| 0 <= j < s.len() && #[trigger] s[j].0@ == k;
    if j < i {
        assert(s[j].0@ != s[i].0@);
    } else if i < j {
        assert(s[i].0@ != s[j].0@);
    }
}

/// ASCII lower case of one character.
pub open spec fn ascii_lower(c: char) -> char {
    if 'A' <= c && c <= 'Z' { ((c as u32) + 32) as char } else { c }
}

/// Whether two strings are equal ignoring ASCII case
/// (`str::eq_ignore_ascii_case`).
pub open spec fn eq_ignore_case(a: Seq<char>, b: Seq<char>) -> bool {
    a.len() == b.len() && forall|i: int| 0 <= i < a.len() ==> ascii_lower(#[trigger] a[i]) == ascii_lower(b[i])
}

fn lower(c: char) -> (r: char)
    ensures
        r == ascii_lower(c),
{
    if 'A' <= c && c <= 'Z' {
        (((c as u32) + 32) as u8) as char
    } else {
        c
    }
}

/// Whether two strings are equal ignoring ASCII case.
pub fn eq_ignore_ascii_case(a: &str, b: &str) -> (r: bool)
    ensures
        r == eq_ignore_case(a@, b@),
{
    let x = chars_vec(a);
    let y = chars_vec(b);
    if x.len() != y.len() {
        return false;
    }
    let mut i: usize = 0;
    while i < x.len()
        invariant
            x@ == a@,
            y@ == b@,
            x@.len() == y@.len(),
            0 <= i <= x@.len(),
            forall|j: int| 0 <= j < i ==> ascii_lower(#[trigger] a@[j]) == ascii_lower(b@[j]),
        decreases x@.len() - i,
    {
        if lower(x[i]) != lower(y[i]) {
            return false;
        }
        i = i + 1;
    }
    true
}

/// Map from strings to values; inserting under a present key replaces its
/// value.
#[derive(Debug)]
pub struct StrMap<V> {
    entries: Vec<(String, V)>,
}

impl<V> StrMap<V> {
    #[verifier::type_invariant]
    spec fn inv(self) -> bool {
        keys_distinct(self.entries@)
    }

    /// The value under key `k`, if any.
    pub closed spec fn spec_get(&self, k: Seq<char>) -> Option<V> {
        value_at(self.entries@, k)
    }

    /// The entries, in the order their keys were first inserted.
    pub closed spec fn spec_entries(&self) -> Seq<(String, V)> {
        self.entries@
    }

    /// An empty map.
    pub fn new() -> (m: StrMap<V>)
        ensures
            forall|k: Seq<char>| m.spec_get(k) is None,
            m.spec_entries().len() == 0,
    {
        StrMap { entries: Vec::new() }
    }

    fn find(entries: &Vec<(String, V)>, key: &str) -> (r: Option<usize>)
        ensures
            match r {
                Some(i) => i < entries@.len() && entries@[i as int].0@ == key@,
                None => forall|i: int| 0 <= i < entries@.len() ==> entries@[i].0@ != key@,
            },
    {
        let mut i: usize = 0;
        while i < entries.len()
            invariant
                0 <= i <= entries@.len(),
                forall|j: int| 0 <= j < i ==> entries@[j].0@ != key@,
            decreases entries@.len() - i,
        {
            if str_eq(entries[i].0.as_str(), key) {
                return Some(i);
            }
            i = i + 1;
        }
        None
    }

    /// The value under `key`, if any.
    pub fn get(&self, key: &str) -> (r: Option<&V>)
        ensures
            match r {
                Some(v) => self.spec_get(key@) == Some(*v),
                None => self.spec_get(key@) is None,
            },
    {
        proof {
            use_type_invariant(self);
        }
        match Self::find(&self.entries, key) {
            Some(i) => {
                proof {
                    lemma_value_at(self.entries@, i as int);
                }
                Some(&self.entries[i].1)
            },
            None => None,
        }
    }

    /// The value of the first entry whose key equals `key` ignoring ASCII
    /// case, if any.
    pub fn get_ignore_case(&self, key: &str) -> (r: Option<&V>)
        ensures
            match r {
                Some(v) => exists|i: int| {
                    &&& 0 <= i < self.spec_entries().len()
                    &&& eq_ignore_case(#[trigger] self.spec_entries()[i].0@, key@)
                    &&& self.spec_entries()[i].1 == *v
                    &&& forall|j: int| 0 <= j < i ==> !eq_ignore_case(self.spec_entries()[j].0@, key@)
                },
                None => forall|i: int| 0 <= i < self.spec_entries().len()
                    ==> !eq_ignore_case(#[trigger] self.spec_entries()[i].0@, key@),
            },
    {
        let mut i: usize = 0;
        while i < self.entries.len()
            invariant
                0 <= i <= self.entries@.len(),
                forall|j: int| 0 <= j < i ==> !eq_ignore_case(#[trigger] self.entries@[j].0@, key@),
            decreases self.entries@.len() - i,
        {
            if eq_ignore_ascii_case(self.entries[i].0.as_str(), key) {
                assert(eq_ignore_case(self.spec_entries()[i as int].0@, key@));
                return Some(&self.entries[i].1);
            }
            i = i + 1;
        }
        None
    }

    /// Store `value` under `key`, replacing a present value, which is
    /// returned.
    pub fn insert(&mut self, key: String, value: V) -> (r: Option<V>)
        ensures
            r == old(self).spec_get(key@),
            forall|k: Seq<char>| #[trigger] final(self).spec_get(k) == if k == key@ {
                Some(value)
            } else {
                old(self).spec_get(k)
            },
    {
        proof {
            use_type_invariant(&*self);
        }
        let mut entries: Vec<(String, V)> = Vec::new();
        std::mem::swap(&mut entries, &mut self.entries);
        let ghost old_s = entries@;
        let ghost k0 = key@;
        match Self::find(&entries, key.as_str()) {
            Some(i) => {
                proof {
                    lemma_value_at(old_s, i as int);
                }
                let (k, previous) = entries.remove(i);
                entries.insert(i, (k, value));
                let ghost new_s = entries@;
                assert(keys_distinct(new_s)) by {
                    assert forall|a: int, b: int| 0 <= a < b < new_s.len() implies
                        #[trigger] new_s[a].0@ != #[trigger] new_s[b].0@ by {
                        assert(old_s[a].0@ != old_s[b].0@);
                    }
                }
                assert forall|q: Seq<char>| #[trigger] value_at(new_s, q) == if q == k0 {
                    Some(value)
                } else {
                    value_at(old_s, q)
                } by {
                    if q == k0 {
                        lemma_value_at(new_s, i as int);
                    } else if exists|j: int| 0 <= j < old_s.len() && #[trigger] old_s[j].0@ == q {
                        let j = choose|j: int| 0 <= j < old_s.len() && #[trigger] old_s[j].0@ == q;
                        lemma_value_at(old_s, j);
                        lemma_value_at(new_s, j);
                    } else {
                        assert forall|j: int| 0 <= j < new_s.len() implies #[trigger] new_s[j].0@ != q by {
                            assert(old_s[j].0@ != q);
                        }
                    }
                }
                self.entries = entries;
                Some(previous)
            },
            None => {
                entries.push((key, value));
                let ghost new_s = entries@;
                let ghost n = old_s.len() as int;
                assert(keys_distinct(new_s)) by {
                    assert forall|a: int, b: int| 0 <= a < b < new_s.len() implies
                        #[trigger] new_s[a].0@ != #[trigger] new_s[b].0@ by {
                        if b < n {
                            assert(old_s[a].0@ != old_s[b].0@);
                        } else {
                            assert(old_s[a].0@ != k0);
                        }
                    }
                }
                assert forall|q: Seq<char>| #[trigger] value_at(new_s, q) == if q == k0 {
                    Some(value)
                } else {
                    value_at(old_s, q)
                } by {
                    if q == k0 {
                        lemma_value_at(new_s, n);
                    } else if exists|j: int| 0 <= j < old_s.len() && #[trigger] old_s[j].0@ == q {
                        let j = choose|j: int| 0 <= j < old_s.len() && #[trigger] old_s[j].0@ == q;
                        lemma_value_at(old_s, j);
                        lemma_value_at(new_s, j);
                    } else {
                        assert forall|j: int| 0 <= j < new_s.len() implies #[trigger] new_s[j].0@ != q by {
                            if j < n {
                                assert(old_s[j].0@ != q);
                            }
                        }
                    }
                }
                self.entries = entries;
                None
            },
        }
    }

    /// Remove the entry under `key`, returning its value.
    pub fn remove(&mut self, key: &str) -> (r: Option<V>)
        ensures
            r == old(self).spec_get(key@),
            forall|k: Seq<char>| #[trigger] final(self).spec_get(k) == if k == key@ {
                None
            } else {
                old(self).spec_get(k)
            },
    {
        proof {
            use_type_invariant(&*self);
        }
        let mut entries: Vec<(String, V)> = Vec::new();
        std::mem::swap(&mut entries, &mut self.entries);
        let ghost old_s = entries@;
        match Self::find(&entries, key) {
            Some(i) => {
                proof {
                    lemma_value_at(old_s, i as int);
                }
                let (_, previous) = entries.remove(i);
                let ghost new_s = entries@;
                assert(forall|j: int| 0 <= j < new_s.len() ==> new_s[j] == old_s[if j < i { j } else { j + 1 }]);
                assert(keys_distinct(new_s)) by {
                    assert forall|a: int, b: int| 0 <= a < b < new_s.len() implies
                        #[trigger] new_s[a].0@ != #[trigger] new_s[b].0@ by {
                        let a0 = if a < i { a } else { a + 1 };
                        let b0 = if b < i { b } else { b + 1 };
                        assert(old_s[a0].0@ != old_s[b0].0@);
                    }
                }
                assert forall|q: Seq<char>| #[trigger] value_at(new_s, q) == if q == key@ {
                    None
                } else {
                    value_at(old_s, q)
                } by {
                    if q == key@ {
                        assert forall|j: int| 0 <= j < new_s.len() implies #[trigger] new_s[j].0@ != q by {
                            let j0 = if j < i { j } else { j + 1 };
                            if j0 < i {
                                assert(old_s[j0].0@ != old_s[i as int].0@);
                            } else {
                                assert(old_s[i as int].0@ != old_s[j0].0@);
                            }
                        }
                    } else if exists|j: int| 0 <= j < old_s.len() && #[trigger] old_s[j].0@ == q {
                        let j = choose|j: int| 0 <= j < old_s.len() && #[trigger] old_s[j].0@ == q;
                        lemma_value_at(old_s, j);
                        let j1 = if j < i { j } else { j - 1 };
                        assert(new_s[j1] == old_s[j]);
                        lemma_value_at(new_s, j1);
                    } else {
                        assert forall|j: int| 0 <= j < new_s.len() implies #[trigger] new_s[j].0@ != q by {
                            let j0 = if j < i { j } else { j + 1 };
                            assert(old_s[j0].0@ != q);
                        }
                    }
                }
                self.entries = entries;
                Some(previous)
            },
            None => {
                self.entries = entries;
                None
            },
        }
    }

    /// The number of keys.
    pub fn len(&self) -> (n: usize)
        ensures
            n == self.spec_entries().len(),
    {
        self.entries.len()
    }

    /// The entries, in the order their keys were first inserted.
    pub fn entries(&self) -> (v: &Vec<(String, V)>)
        ensures
            v@ == self.spec_entries(),
    {
        &self.entries
    }
}

/// The characters of an optional string value.
pub open spec fn opt_chars(o: Option<String>) -> Option<Seq<char>> {
    match o {
        Some(s) => Some(s@),
        None => None,
    }
}

impl StrMap<String> {
    /// A copy: the same keys, each with a value of the same characters.
    pub fn duplicate(&self) -> (m: StrMap<String>)
        ensures
            forall|k: Seq<char>| #[trigger] opt_chars(m.spec_get(k)) == opt_chars(self.spec_get(k)),
    {
        proof {
            use_type_invariant(self);
        }
        let ghost src = self.entries@;
        let mut out: Vec<(String, String)> = Vec::new();
        let mut i: usize = 0;
        while i < self.entries.len()
            invariant
                src == self.entries@,
                0 <= i <= src.len(),
                out@.len() == i,
                forall|j: int| 0 <= j < i ==> #[trigger] out@[j].0@ == src[j].0@ && out@[j].1@ == src[j].1@,
            decreases src.len() - i,
        {
            let k = self.entries[i].0.clone();
            let v = self.entries[i].1.clone();
            assert(k@ == src[i as int].0@ && v@ == src[i as int].1@);
            let ghost prev = out@;
            out.push((k, v));
            assert forall|j: int| 0 <= j < i + 1 implies #[trigger] out@[j].0@ == src[j].0@ && out@[j].1@
                == src[j].1@ by {
                if j < i {
                    assert(out@[j] == prev[j]);
                }
            }
            i = i + 1;
        }
        let ghost dst = out@;
        assert(keys_distinct(dst)) by {
            assert forall|a: int, b: int| 0 <= a < b < dst.len() implies
                #[trigger] dst[a].0@ != #[trigger] dst[b].0@ by {
                assert(src[a].0@ != src[b].0@);
            }
        }
        assert forall|q: Seq<char>| #[trigger] opt_chars(value_at(dst, q)) == opt_chars(value_at(src, q)) by {
            if exists|j: int| 0 <= j < src.len() && #[trigger] src[j].0@ == q {
                let j = choose|j: int| 0 <= j < src.len() && #[trigger] src[j].0@ == q;
                lemma_value_at(src, j);
                assert(dst[j].0@ == q);
                lemma_value_at(dst, j);
            } else {
                assert forall|j: int| 0 <= j < dst.len() implies #[trigger] dst[j].0@ != q by {
                    assert(src[j].0@ != q);
                }
            }
        }
        StrMap { entries: out }
    }
}

} // verus!
