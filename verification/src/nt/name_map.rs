//! Maps from names to values that keep their names in byte order, as the
//! executive's ordered name tables do.

use vstd::prelude::*;
use vstd::string::StringSliceAdditionalSpecFns;

verus! {

/// Whether `a` sorts before `b`: the first differing byte is smaller, or
/// `a` is a proper prefix of `b`.
pub open spec fn name_less(a: Seq<u8>, b: Seq<u8>) -> bool
    decreases a.len(),
{
    if a.len() == 0 {
        b.len() > 0
    } else if b.len() == 0 {
        false
    } else if a[0] != b[0] {
        a[0] < b[0]
    } else {
        name_less(a.drop_first(), b.drop_first())
    }
}

/// Of two different names one sorts before the other.
pub proof fn lemma_name_total(a: Seq<u8>, b: Seq<u8>)
    requires
        a != b,
    ensures
        name_less(a, b) || name_less(b, a),
    decreases a.len(),
{
    if a.len() > 0 && b.len() > 0 && a[0] == b[0] {
        assert(a.drop_first() != b.drop_first()) by {
            if a.drop_first() == b.drop_first() {
                assert(a =~= seq![a[0]] + a.drop_first());
                assert(b =~= seq![b[0]] + b.drop_first());
            }
        }
        lemma_name_total(a.drop_first(), b.drop_first());
    } else if a.len() == 0 && b.len() == 0 {
        assert(a =~= b);
    }
}

/// No name sorts before itself.
pub proof fn lemma_name_irreflexive(a: Seq<u8>)
    ensures
        !name_less(a, a),
    decreases a.len(),
{
    if a.len() > 0 {
        lemma_name_irreflexive(a.drop_first());
    }
}

/// Sorting before is transitive.
pub proof fn lemma_name_transitive(a: Seq<u8>, b: Seq<u8>, c: Seq<u8>)
    requires
        name_less(a, b),
        name_less(b, c),
    ensures
        name_less(a, c),
    decreases a.len(),
{
    if a.len() > 0 && b.len() > 0 && c.len() > 0 && a[0] == b[0] && b[0] == c[0] {
        lemma_name_transitive(a.drop_first(), b.drop_first(), c.drop_first());
    }
}

fn bytes_name_less(a: &[u8], b: &[u8]) -> (r: bool)
    ensures
        r == name_less(a@, b@),
{
    let mut i: usize = 0;
    assert(a@.skip(0) =~= a@ && b@.skip(0) =~= b@);
    while i < a.len() && i < b.len()
        invariant
            i <= a@.len() && i <= b@.len(),
            name_less(a@, b@) == name_less(a@.skip(i as int), b@.skip(i as int)),
        decreases a@.len() - i,
    {
        if a[i] != b[i] {
            return a[i] < b[i];
        }
        assert(a@.skip(i as int).drop_first() =~= a@.skip(i + 1));
        assert(b@.skip(i as int).drop_first() =~= b@.skip(i + 1));
        i = i + 1;
    }
    i < b.len()
}

fn bytes_equal(a: &[u8], b: &[u8]) -> (r: bool)
    ensures
        r == (a@ == b@),
{
    if a.len() != b.len() {
        return false;
    }
    let mut i: usize = 0;
    while i < a.len()
        invariant
            i <= a@.len(),
            a@.len() == b@.len(),
            forall|j: int| 0 <= j < i ==> a@[j] == b@[j],
        decreases a@.len() - i,
    {
        if a[i] != b[i] {
            return false;
        }
        i = i + 1;
    }
    assert(a@ =~= b@);
    true
}

/// Whether each name sorts before the next.
pub open spec fn sorted_names(k: Seq<Seq<u8>>) -> bool {
    forall|i: int, j: int| 0 <= i < j < k.len() ==> name_less(#[trigger] k[i], #[trigger] k[j])
}

/// The first place from `i` on that holds `name`.
pub open spec fn name_index(k: Seq<Seq<u8>>, name: Seq<u8>, i: int) -> Option<int>
    decreases k.len() - i,
{
    if i < 0 || i >= k.len() {
        None
    } else if k[i] == name {
        Some(i)
    } else {
        name_index(k, name, i + 1)
    }
}

/// The places whose names sort before `name`, counted.
pub open spec fn count_before(k: Seq<Seq<u8>>, name: Seq<u8>) -> nat
    decreases k.len(),
{
    if k.len() == 0 {
        0
    } else {
        count_before(k.drop_last(), name) + (if name_less(k.last(), name) { 1nat } else { 0 })
    }
}

/// A map from names to values, its names in byte order.
#[derive(Debug)]
pub struct NameMap<V> {
    entries: Vec<(String, V)>,
}

impl<V> NameMap<V> {
    /// The names, as bytes, in order.
    pub closed spec fn keys(&self) -> Seq<Seq<u8>> {
        self.entries@.map_values(|e: (String, V)| vstd::utf8::encode_utf8(e.0@))
    }

    /// The names, as text, in order.
    pub closed spec fn names(&self) -> Seq<Seq<char>> {
        self.entries@.map_values(|e: (String, V)| e.0@)
    }

    /// The values, in the order of their names.
    pub closed spec fn vals(&self) -> Seq<V> {
        self.entries@.map_values(|e: (String, V)| e.1)
    }

    /// The names are in strictly increasing byte order.
    pub closed spec fn wf(&self) -> bool {
        sorted_names(self.keys())
    }

    /// The value under the name with these bytes.
    pub open spec fn lookup(&self, name: Seq<u8>) -> Option<V> {
        match name_index(self.keys(), name, 0) {
            Some(i) => Some(self.vals()[i]),
            None => None,
        }
    }

    pub proof fn lemma_lengths(&self)
        ensures
            self.keys().len() == self.vals().len(),
            self.keys().len() == self.names().len(),
            forall|i: int| 0 <= i < self.keys().len() ==> #[trigger] self.keys()[i] == vstd::utf8::encode_utf8(self.names()[i]),
    {
    }

    /// The name at place `i` looks up the value at place `i`.
    pub proof fn lemma_lookup_at(&self, i: int)
        requires
            self.wf(),
            0 <= i < self.vals().len(),
        ensures
            self.lookup(self.keys()[i]) == Some(self.vals()[i]),
            self.keys()[i] == vstd::utf8::encode_utf8(self.names()[i]),
    {
        lemma_sorted_index(self.keys(), i);
    }

    /// An empty map.
    pub fn new() -> (r: Self)
        ensures
            r.wf(),
            r.keys().len() == 0,
            r.vals().len() == 0,
    {
        let r = Self { entries: Vec::new() };
        assert(r.keys() =~= Seq::empty());
        assert(r.vals() =~= Seq::empty());
        r
    }

    pub fn len(&self) -> (r: usize)
        ensures
            r == self.keys().len(),
    {
        self.entries.len()
    }

    /// Where `name` is held.
    pub fn find(&self, name: &str) -> (r: Option<usize>)
        ensures
            r matches Some(i) ==> i < self.keys().len() && i < self.vals().len(),
            r matches Some(i) ==> name_index(self.keys(), name.spec_bytes(), 0) == Some(i as int),
            r is None ==> name_index(self.keys(), name.spec_bytes(), 0) is None,
    {
        let nb = name.as_bytes();
        let mut i: usize = 0;
        while i < self.entries.len()
            invariant
                i <= self.entries@.len(),
                nb@ == name.spec_bytes(),
                name_index(self.keys(), nb@, 0) == name_index(self.keys(), nb@, i as int),
            decreases self.entries@.len() - i,
        {
            assert(self.keys()[i as int] == vstd::utf8::encode_utf8(self.entries@[i as int].0@));
            if bytes_equal(self.entries[i].0.as_str().as_bytes(), nb) {
                return Some(i);
            }
            i = i + 1;
        }
        None
    }

    /// The value under `name`.
    pub fn get(&self, name: &str) -> (r: Option<&V>)
        ensures
            match self.lookup(name.spec_bytes()) {
                Some(v) => r == Some(&v),
                None => r is None,
            },
    {
        match self.find(name) {
            Some(i) => {
                assert(name_index(self.keys(), name.spec_bytes(), 0) == Some(i as int));
                assert(self.vals()[i as int] == self.entries@[i as int].1);
                Some(&self.entries[i].1)
            },
            None => None,
        }
    }

    /// The value at place `i`.
    pub fn value_at(&self, i: usize) -> (r: &V)
        requires
            i < self.vals().len(),
        ensures
            *r == self.vals()[i as int],
    {
        &self.entries[i].1
    }

    /// Maps with the same names are in order together.
    pub proof fn lemma_wf_same_keys(&self, other: &Self)
        requires
            self.wf(),
            other.keys() == self.keys(),
        ensures
            other.wf(),
    {
    }

    /// The lookup depends only on the names and values.
    pub proof fn lemma_lookup_same(&self, other: &Self, name: Seq<u8>)
        requires
            other.keys() == self.keys(),
            other.vals() == self.vals(),
        ensures
            other.lookup(name) == self.lookup(name),
    {
    }

    /// Changing the value at place `i` changes the lookup of no other name.
    pub proof fn lemma_lookup_update(&self, other: &Self, i: int)
        requires
            0 <= i < self.vals().len(),
            other.keys() == self.keys(),
            other.vals() == self.vals().update(i, other.vals()[i]),
        ensures
            forall|n: Seq<u8>| n != self.keys()[i] ==> #[trigger] other.lookup(n) == self.lookup(n),
    {
        assert forall|n: Seq<u8>| n != self.keys()[i] implies #[trigger] other.lookup(n) == self.lookup(n) by {
            match name_index(self.keys(), n, 0) {
                Some(j) => {
                    lemma_name_index_some(self.keys(), n, 0);
                    assert(j != i);
                    assert(other.vals()[j] == self.vals()[j]);
                },
                None => {},
            }
        }
    }

    /// The value at place `i`, to change in place.
    pub fn value_at_mut(&mut self, i: usize) -> (r: &mut V)
        requires
            i < old(self).vals().len(),
        ensures
            *r == old(self).vals()[i as int],
            final(self).keys() == old(self).keys(),
            final(self).names() == old(self).names(),
            final(self).vals() == old(self).vals().update(i as int, *final(r)),
    {
        &mut self.entries[i].1
    }

    /// The name at place `i`.
    pub fn name_at(&self, i: usize) -> (r: String)
        requires
            i < self.keys().len(),
        ensures
            r@ == self.names()[i as int],
    {
        self.entries[i].0.clone()
    }

    /// All names, in order.
    pub fn all_names(&self) -> (r: Vec<String>)
        ensures
            r@.map_values(|s: String| s@) == self.names(),
    {
        let mut r: Vec<String> = Vec::new();
        let mut i: usize = 0;
        while i < self.entries.len()
            invariant
                i <= self.entries@.len(),
                r@.map_values(|s: String| s@) == self.names().take(i as int),
            decreases self.entries@.len() - i,
        {
            let n = self.entries[i].0.clone();
            let ghost before = r@;
            r.push(n);
            assert(r@.map_values(|s: String| s@) =~= before.map_values(|s: String| s@).push(n@));
            assert(self.names().take(i + 1) =~= self.names().take(i as int).push(self.names()[i as int]));
            i = i + 1;
        }
        assert(self.names().take(i as int) =~= self.names());
        r
    }

    /// Puts `v` under `name`: in place of the old value when the name is
    /// held, otherwise at the place that keeps the names in order.
    pub fn insert(&mut self, name: String, v: V)
        requires
            old(self).wf(),
        ensures
            final(self).wf(),
            name_index(old(self).keys(), vstd::utf8::encode_utf8(name@), 0) matches Some(i) ==> {
                &&& final(self).keys() == old(self).keys()
                &&& final(self).names() == old(self).names()
                &&& final(self).vals() == old(self).vals().update(i, v)
            },
            name_index(old(self).keys(), vstd::utf8::encode_utf8(name@), 0) is None ==> {
                let p = count_before(old(self).keys(), vstd::utf8::encode_utf8(name@)) as int;
                &&& final(self).keys() == old(self).keys().insert(p, vstd::utf8::encode_utf8(name@))
                &&& final(self).names() == old(self).names().insert(p, name@)
                &&& final(self).vals() == old(self).vals().insert(p, v)
            },
            final(self).lookup(vstd::utf8::encode_utf8(name@)) == Some(v),
            forall|n: Seq<u8>| n != vstd::utf8::encode_utf8(name@) ==> #[trigger] final(self).lookup(n) == old(self).lookup(n),
    {
        let ghost nb = vstd::utf8::encode_utf8(name@);
        let ghost nv = name@;
        let ghost vv = v;
        let ghost k = self.keys();
        let name_str = name.as_str();
        assert(name_str.spec_bytes() == nb);
        match self.find(name_str) {
            Some(i) => {
                assert(name_index(k, nb, 0) == Some(i as int));
                let (old_name, _) = self.entries.remove(i);
                self.entries.insert(i, (old_name, v));
                assert(self.keys() =~= k);
                assert(self.names() =~= old(self).names());
                assert(self.vals() =~= old(self).vals().update(i as int, vv));
                assert(self.vals()[i as int] == vv);
                proof {
                    assert forall|n: Seq<u8>| n != nb implies #[trigger] self.lookup(n) == old(self).lookup(n) by {
                        match name_index(k, n, 0) {
                            Some(j) => {
                                lemma_name_index_some(k, n, 0);
                                lemma_name_index_some(k, nb, 0);
                                assert(j != i);
                            },
                            None => {},
                        }
                    }
                }
                return;
            },
            None => {},
        }
        let mut p: usize = 0;
        while p < self.entries.len() && bytes_name_less(self.entries[p].0.as_str().as_bytes(), name.as_str().as_bytes())
            invariant
                p <= k.len(),
                k == self.keys(),
                k == old(self).keys(),
                self.entries == old(self).entries,
                nb == vstd::utf8::encode_utf8(name@),
                sorted_names(k),
                forall|j: int| 0 <= j < p ==> name_less(#[trigger] k[j], nb),
            decreases k.len() - p,
        {
            assert(k[p as int] == vstd::utf8::encode_utf8(self.entries@[p as int].0@));
            p = p + 1;
        }
        proof {
            assert(name_index(k, nb, 0) is None);
            lemma_name_index_none(k, nb, 0);
            if p < k.len() {
                assert(k[p as int] == vstd::utf8::encode_utf8(self.entries@[p as int].0@));
                assert(!name_less(k[p as int], nb));
                lemma_name_total(k[p as int], nb);
                assert(name_less(nb, k[p as int]));
            }
            assert forall|j: int| p <= j < k.len() implies name_less(nb, #[trigger] k[j]) by {
                if j > p {
                    lemma_name_transitive(nb, k[p as int], k[j]);
                }
            }
            assert forall|j: int| p <= j < k.len() implies !name_less(#[trigger] k[j], nb) by {
                lemma_name_asymmetric(nb, k[j]);
            }
            lemma_count_before_split(k, nb, p as int);
        }
        let ghost old_names = self.names();
        let ghost old_vals = self.vals();
        self.entries.insert(p, (name, v));
        proof {
            let nk = self.keys();
            assert(nk =~= k.insert(p as int, nb));
            assert(self.names() =~= old_names.insert(p as int, nv));
            assert(self.vals() =~= old_vals.insert(p as int, vv));
            assert forall|i: int, j: int| 0 <= i < j < nk.len() implies name_less(#[trigger] nk[i], #[trigger] nk[j]) by {
                if j < p {
                    assert(nk[i] == k[i] && nk[j] == k[j]);
                } else if j == p {
                    assert(nk[j] == nb && nk[i] == k[i]);
                } else if i < p {
                    assert(nk[i] == k[i] && nk[j] == k[j - 1]);
                    lemma_name_transitive(k[i], nb, k[j - 1]);
                } else if i == p {
                    assert(nk[i] == nb && nk[j] == k[j - 1]);
                } else {
                    assert(nk[i] == k[i - 1] && nk[j] == k[j - 1]);
                }
            }
            lemma_sorted_index(nk, p as int);
            assert forall|n: Seq<u8>| n != nb implies #[trigger] self.lookup(n) == old(self).lookup(n) by {
                match name_index(k, n, 0) {
                    Some(j) => {
                        lemma_name_index_some(k, n, 0);
                        let j2 = if j < p { j } else { j + 1 };
                        assert(nk[j2] == n);
                        lemma_sorted_index(nk, j2);
                        assert(self.vals()[j2] == old_vals[j]);
                    },
                    None => {
                        lemma_name_index_none(k, n, 0);
                        assert forall|j: int| 0 <= j < nk.len() implies nk[j] != n by {
                            if j < p { assert(nk[j] == k[j]); } else if j > p { assert(nk[j] == k[j - 1]); }
                        }
                        lemma_name_index_absent(nk, n, 0);
                    },
                }
            }
        }
    }

    /// Takes out the value under `name`, if any.
    pub fn remove(&mut self, name: &str) -> (r: Option<V>)
        requires
            old(self).wf(),
        ensures
            final(self).wf(),
            name_index(old(self).keys(), name.spec_bytes(), 0) matches Some(i) ==> {
                &&& r == Some(old(self).vals()[i])
                &&& final(self).keys() == old(self).keys().remove(i)
                &&& final(self).names() == old(self).names().remove(i)
                &&& final(self).vals() == old(self).vals().remove(i)
            },
            name_index(old(self).keys(), name.spec_bytes(), 0) is None ==> r is None && final(self).keys() == old(self).keys()
                && final(self).names() == old(self).names() && final(self).vals() == old(self).vals(),
            r == old(self).lookup(name.spec_bytes()),
            final(self).lookup(name.spec_bytes()) is None,
            forall|n: Seq<u8>| n != name.spec_bytes() ==> #[trigger] final(self).lookup(n) == old(self).lookup(n),
    {
        match self.find(name) {
            Some(i) => {
                let ghost k = self.keys();
                let (_, v) = self.entries.remove(i);
                proof {
                    let nk = self.keys();
                    assert(nk =~= k.remove(i as int));
                    assert(self.names() =~= old(self).names().remove(i as int));
                    assert(self.vals() =~= old(self).vals().remove(i as int));
                    assert forall|a: int, b: int| 0 <= a < b < nk.len() implies name_less(#[trigger] nk[a], #[trigger] nk[b]) by {
                        let a2 = if a < i { a } else { a + 1 };
                        let b2 = if b < i { b } else { b + 1 };
                        assert(nk[a] == k[a2] && nk[b] == k[b2]);
                    }
                    let nb = name.spec_bytes();
                    lemma_name_index_some(k, nb, 0);
                    assert forall|j: int| 0 <= j < nk.len() implies nk[j] != nb by {
                        let j2 = if j < i { j } else { j + 1 };
                        assert(nk[j] == k[j2]);
                        lemma_sorted_distinct(k, i as int, j2);
                    }
                    lemma_name_index_absent(nk, nb, 0);
                    assert forall|n: Seq<u8>| n != nb implies #[trigger] self.lookup(n) == old(self).lookup(n) by {
                        match name_index(k, n, 0) {
                            Some(j) => {
                                lemma_name_index_some(k, n, 0);
                                assert(j != i);
                                let j2 = if j < i { j } else { j - 1 };
                                assert(nk[j2] == n);
                                lemma_sorted_index(nk, j2);
                            },
                            None => {
                                lemma_name_index_none(k, n, 0);
                                assert forall|j: int| 0 <= j < nk.len() implies nk[j] != n by {
                                    let j2 = if j < i { j } else { j + 1 };
                                    assert(nk[j] == k[j2]);
                                }
                                lemma_name_index_absent(nk, n, 0);
                            },
                        }
                    }
                }
                Some(v)
            },
            None => None,
        }
    }
}

/// A name found is at the place reported.
pub proof fn lemma_name_index_some(k: Seq<Seq<u8>>, name: Seq<u8>, i: int)
    requires
        0 <= i,
        name_index(k, name, i) is Some,
    ensures
        name_index(k, name, i) matches Some(j) && i <= j < k.len() && k[j] == name,
    decreases k.len() - i,
{
    if i < k.len() && k[i] != name {
        lemma_name_index_some(k, name, i + 1);
    }
}

/// A name held nowhere from `i` on is not found from there.
pub proof fn lemma_name_index_absent(k: Seq<Seq<u8>>, name: Seq<u8>, i: int)
    requires
        0 <= i,
        forall|j: int| i <= j < k.len() ==> k[j] != name,
    ensures
        name_index(k, name, i) is None,
    decreases k.len() - i,
{
    if i < k.len() {
        lemma_name_index_absent(k, name, i + 1);
    }
}

/// In sorted names, two places hold different names.
pub proof fn lemma_sorted_distinct(k: Seq<Seq<u8>>, i: int, j: int)
    requires
        sorted_names(k),
        0 <= i < k.len(),
        0 <= j < k.len(),
        i != j,
    ensures
        k[i] != k[j],
{
    if i < j {
        assert(name_less(k[i], k[j]));
        lemma_name_irreflexive(k[i]);
    } else {
        assert(name_less(k[j], k[i]));
        lemma_name_irreflexive(k[j]);
    }
}

/// In sorted names, the name at place `i` is found at `i`.
pub proof fn lemma_sorted_index(k: Seq<Seq<u8>>, i: int)
    requires
        sorted_names(k),
        0 <= i < k.len(),
    ensures
        name_index(k, k[i], 0) == Some(i),
{
    lemma_found_at(k, k[i], 0, i);
}

proof fn lemma_found_at(k: Seq<Seq<u8>>, name: Seq<u8>, s: int, i: int)
    requires
        sorted_names(k),
        0 <= s <= i < k.len(),
        k[i] == name,
    ensures
        name_index(k, name, s) == Some(i),
    decreases i - s,
{
    if s < i {
        lemma_sorted_distinct(k, s, i);
        lemma_found_at(k, name, s + 1, i);
    }
}

/// No place from `i` on holds a name that is not found from there.
pub proof fn lemma_name_index_none(k: Seq<Seq<u8>>, name: Seq<u8>, i: int)
    requires
        0 <= i,
        name_index(k, name, i) is None,
    ensures
        forall|j: int| i <= j < k.len() ==> k[j] != name,
    decreases k.len() - i,
{
    if i < k.len() {
        lemma_name_index_none(k, name, i + 1);
    }
}

/// A name that sorts before another does not sort after it.
pub proof fn lemma_name_asymmetric(a: Seq<u8>, b: Seq<u8>)
    ensures
        name_less(a, b) ==> !name_less(b, a),
{
    if name_less(a, b) && name_less(b, a) {
        lemma_name_transitive(a, b, a);
        lemma_name_irreflexive(a);
    }
}

/// With the names before place `p` sorting before `name` and the rest not,
/// `p` names sort before it.
pub proof fn lemma_count_before_split(k: Seq<Seq<u8>>, name: Seq<u8>, p: int)
    requires
        0 <= p <= k.len(),
        forall|j: int| 0 <= j < p ==> name_less(#[trigger] k[j], name),
        forall|j: int| p <= j < k.len() ==> !name_less(#[trigger] k[j], name),
    ensures
        count_before(k, name) == p,
    decreases k.len(),
{
    if k.len() > 0 {
        let d = k.drop_last();
        if p == k.len() {
            lemma_count_before_split(d, name, p - 1);
        } else {
            lemma_count_before_split(d, name, p);
        }
    }
}

/// Two different texts have different UTF-8 bytes.
pub proof fn lemma_distinct_text(a: Seq<char>, b: Seq<char>)
    requires
        a != b,
    ensures
        vstd::utf8::encode_utf8(a) != vstd::utf8::encode_utf8(b),
{
    vstd::utf8::encode_utf8_decode_utf8(a);
    vstd::utf8::encode_utf8_decode_utf8(b);
}

} // verus!
