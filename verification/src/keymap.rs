//! Finite maps and duplicate-free lists over keys with a verified equality.
//!
//! Contract storage is keyed by addresses, task ids and (task, address)
//! pairs. `KeyMap` holds such entries in a vector whose keys never repeat and
//! is viewed as a mathematical `Map`.
use vstd::prelude::*;

verus! {

/// Keys whose executable equality agrees with spec equality.
pub trait KeyEq: Sized {
    fn key_eq(&self, other: &Self) -> (b: bool)
        ensures
            b == (*self == *other),
    ;
}

impl KeyEq for u64 {
    fn key_eq(&self, other: &Self) -> (b: bool) {
        *self == *other
    }
}

/// No key occurs twice in the entry sequence.
pub open spec fn keys_unique<K, V>(s: Seq<(K, V)>) -> bool {
    forall|i: int, j: int| 0 <= i < s.len() && 0 <= j < s.len() && i != j ==> s[i].0 != s[j].0
}

/// The key `k` occurs in the entry sequence.
pub open spec fn has_key<K, V>(s: Seq<(K, V)>, k: K) -> bool {
    exists|i: int| 0 <= i < s.len() && s[i].0 == k
}

/// The map that a duplicate-free entry sequence stands for.
pub open spec fn entries_map<K, V>(s: Seq<(K, V)>) -> Map<K, V> {
    Map::new(
        |k: K| has_key(s, k),
        |k: K| s[choose|i: int| 0 <= i < s.len() && s[i].0 == k].1,
    )
}

/// The entry at position `i` is what the map holds for its key.
pub proof fn lemma_entry<K, V>(s: Seq<(K, V)>, i: int)
    requires
        keys_unique(s),
        0 <= i < s.len(),
    ensures
        entries_map(s).contains_key(s[i].0),
        entries_map(s)[s[i].0] == s[i].1,
{
    let k = s[i].0;
    assert(has_key(s, k));
    let j = choose|j: int| 0 <= j < s.len() && s[j].0 == k;
    assert(j == i);
}

/// Appending an entry with a fresh key inserts it into the map.
pub proof fn lemma_push<K, V>(s: Seq<(K, V)>, k: K, v: V)
    requires
        keys_unique(s),
        !has_key(s, k),
    ensures
        keys_unique(s.push((k, v))),
        entries_map(s.push((k, v))) =~= entries_map(s).insert(k, v),
{
    let t = s.push((k, v));
    assert(keys_unique(t));
    assert forall|key: K| #[trigger] has_key(t, key) == (has_key(s, key) || key == k) by {
        if has_key(s, key) {
            let i = choose|i: int| 0 <= i < s.len() && s[i].0 == key;
            assert(t[i].0 == key);
        }
        if key == k {
            assert(t[s.len() as int].0 == key);
        }
        if has_key(t, key) && key != k {
            let i = choose|i: int| 0 <= i < t.len() && t[i].0 == key;
            assert(i < s.len());
            assert(s[i].0 == key);
        }
    }
    assert forall|key: K| #[trigger] entries_map(t).contains_key(key) implies entries_map(t)[key]
        == entries_map(s).insert(k, v)[key] by {
        if key == k {
            lemma_entry(t, s.len() as int);
        } else {
            let i = choose|i: int| 0 <= i < s.len() && s[i].0 == key;
            lemma_entry(t, i);
            lemma_entry(s, i);
        }
    }
}

/// Overwriting the value at the position of an existing key updates the map.
pub proof fn lemma_update<K, V>(s: Seq<(K, V)>, i: int, v: V)
    requires
        keys_unique(s),
        0 <= i < s.len(),
    ensures
        keys_unique(s.update(i, (s[i].0, v))),
        entries_map(s.update(i, (s[i].0, v))) =~= entries_map(s).insert(s[i].0, v),
{
    let k = s[i].0;
    let t = s.update(i, (k, v));
    assert(keys_unique(t));
    assert forall|key: K| #[trigger] has_key(t, key) == has_key(s, key) by {
        if has_key(s, key) {
            let j = choose|j: int| 0 <= j < s.len() && s[j].0 == key;
            assert(t[j].0 == key);
        }
        if has_key(t, key) {
            let j = choose|j: int| 0 <= j < t.len() && t[j].0 == key;
            assert(s[j].0 == key);
        }
    }
    lemma_entry(s, i);
    assert forall|key: K| #[trigger] entries_map(t).contains_key(key) implies entries_map(t)[key]
        == entries_map(s).insert(k, v)[key] by {
        if key == k {
            lemma_entry(t, i);
        } else {
            let j = choose|j: int| 0 <= j < s.len() && s[j].0 == key;
            lemma_entry(t, j);
            lemma_entry(s, j);
        }
    }
}

/// Removing the entry at position `i` removes its key from the map.
pub proof fn lemma_remove<K, V>(s: Seq<(K, V)>, i: int)
    requires
        keys_unique(s),
        0 <= i < s.len(),
    ensures
        keys_unique(s.remove(i)),
        entries_map(s.remove(i)) =~= entries_map(s).remove(s[i].0),
{
    let k = s[i].0;
    let t = s.remove(i);
    assert(t.len() == s.len() - 1);
    assert forall|a: int| 0 <= a < t.len() implies #[trigger] t[a] == (if a < i {
        s[a]
    } else {
        s[a + 1]
    }) by {}
    assert(keys_unique(t)) by {
        assert forall|a: int, b: int|
            0 <= a < t.len() && 0 <= b < t.len() && a != b implies #[trigger] t[a].0 != #[trigger] t[b].0 by {
            let a2 = if a < i {
                a
            } else {
                a + 1
            };
            let b2 = if b < i {
                b
            } else {
                b + 1
            };
            assert(t[a] == s[a2]);
            assert(t[b] == s[b2]);
        }
    }
    assert forall|key: K| #[trigger] has_key(t, key) == (has_key(s, key) && key != k) by {
        if has_key(s, key) && key != k {
            let j = choose|j: int| 0 <= j < s.len() && s[j].0 == key;
            assert(j != i);
            let j2 = if j < i {
                j
            } else {
                j - 1
            };
            assert(t[j2].0 == key);
        }
        if has_key(t, key) {
            let j = choose|j: int| 0 <= j < t.len() && t[j].0 == key;
            let j2 = if j < i {
                j
            } else {
                j + 1
            };
            assert(s[j2].0 == key);
            assert(j2 != i);
        }
    }
    assert forall|key: K| #[trigger] entries_map(t).contains_key(key) implies entries_map(t)[key]
        == entries_map(s).remove(k)[key] by {
        let j = choose|j: int| 0 <= j < t.len() && t[j].0 == key;
        let j2 = if j < i {
            j
        } else {
            j + 1
        };
        lemma_entry(t, j);
        lemma_entry(s, j2);
    }
}

/// A finite map stored as a vector of entries with distinct keys.
pub struct KeyMap<K, V> {
    entries: Vec<(K, V)>,
}

impl<K, V> KeyMap<K, V> {
    #[verifier::type_invariant]
    spec fn inv(self) -> bool {
        keys_unique(self.entries@)
    }

    /// The mathematical map held.
    pub closed spec fn view(&self) -> Map<K, V> {
        entries_map(self.entries@)
    }

    /// Number of entries.
    pub closed spec fn size(&self) -> nat {
        self.entries@.len()
    }

    pub fn new() -> (m: Self)
        ensures
            m@ == Map::<K, V>::empty(),
            m.size() == 0,
    {
        let m = KeyMap { entries: Vec::new() };
        assert(m@ =~= Map::<K, V>::empty());
        m
    }

    pub fn len(&self) -> (n: usize)
        ensures
            n == self.size(),
    {
        self.entries.len()
    }
}

/// The domain of an entry map has as many keys as there are entries.
pub proof fn lemma_dom_len<K, V>(s: Seq<(K, V)>)
    requires
        keys_unique(s),
    ensures
        entries_map(s).dom().finite(),
        entries_map(s).dom().len() == s.len(),
    decreases s.len(),
{
    if s.len() == 0 {
        assert(entries_map(s).dom() =~= Set::<K>::empty());
    } else {
        let p = s.drop_last();
        let last = s.last();
        assert(keys_unique(p));
        lemma_dom_len(p);
        assert(!has_key(p, last.0)) by {
            if has_key(p, last.0) {
                let i = choose|i: int| 0 <= i < p.len() && p[i].0 == last.0;
                assert(s[i].0 == s[s.len() - 1].0);
            }
        }
        lemma_push(p, last.0, last.1);
        assert(p.push(last) =~= s);
    }
}

impl<K: KeyEq, V> KeyMap<K, V> {
    fn find(&self, k: &K) -> (r: Option<usize>)
        ensures
            match r {
                Some(i) => i < self.entries@.len() && self.entries@[i as int].0 == *k,
                None => !has_key(self.entries@, *k),
            },
    {
        let mut i: usize = 0;
        while i < self.entries.len()
            invariant
                i <= self.entries@.len(),
                forall|j: int| 0 <= j < i ==> self.entries@[j].0 != *k,
            decreases self.entries@.len() - i,
        {
            if self.entries[i].0.key_eq(k) {
                return Some(i);
            }
            i += 1;
        }
        None
    }

    pub fn contains_key(&self, k: &K) -> (b: bool)
        ensures
            b == self@.contains_key(*k),
    {
        self.find(k).is_some()
    }

    pub fn get(&self, k: &K) -> (r: Option<&V>)
        ensures
            r is Some <==> self@.contains_key(*k),
            r is Some ==> *r->0 == self@[*k],
    {
        proof {
            use_type_invariant(self);
        }
        match self.find(k) {
            Some(i) => {
                proof {
                    lemma_entry(self.entries@, i as int);
                }
                Some(&self.entries[i].1)
            },
            None => None,
        }
    }

    pub fn insert(&mut self, k: K, v: V)
        ensures
            final(self)@ == old(self)@.insert(k, v),
            final(self).size() == old(self).size() + if old(self)@.contains_key(k) {
                0int
            } else {
                1int
            },
    {
        proof {
            use_type_invariant(&*self);
        }
        match self.find(&k) {
            Some(i) => {
                proof {
                    lemma_update(self.entries@, i as int, v);
                    lemma_entry(self.entries@, i as int);
                }
                let mut e: Vec<(K, V)> = Vec::new();
                std::mem::swap(&mut e, &mut self.entries);
                e.set(i, (k, v));
                self.entries = e;
            },
            None => {
                proof {
                    lemma_push(self.entries@, k, v);
                }
                let mut e: Vec<(K, V)> = Vec::new();
                std::mem::swap(&mut e, &mut self.entries);
                e.push((k, v));
                self.entries = e;
            },
        }
    }

    pub fn remove(&mut self, k: &K) -> (r: Option<V>)
        ensures
            final(self)@ == old(self)@.remove(*k),
            r is Some <==> old(self)@.contains_key(*k),
            r is Some ==> r->0 == old(self)@[*k],
            final(self).size() == old(self).size() - if old(self)@.contains_key(*k) {
                1int
            } else {
                0int
            },
    {
        proof {
            use_type_invariant(&*self);
        }
        match self.find(k) {
            Some(i) => {
                proof {
                    lemma_remove(self.entries@, i as int);
                    lemma_entry(self.entries@, i as int);
                }
                let mut e: Vec<(K, V)> = Vec::new();
                std::mem::swap(&mut e, &mut self.entries);
                let old_entry = e.remove(i);
                self.entries = e;
                Some(old_entry.1)
            },
            None => {
                assert(self@ =~= self@.remove(*k));
                None
            },
        }
    }
}

impl<K: Copy, V: Copy> KeyMap<K, V> {
    /// An independent copy of the map.
    pub fn duplicate(&self) -> (r: Self)
        ensures
            r@ == self@,
            r.size() == self.size(),
    {
        proof {
            use_type_invariant(self);
        }
        let mut out: Vec<(K, V)> = Vec::new();
        let mut i: usize = 0;
        while i < self.entries.len()
            invariant
                i <= self.entries@.len(),
                out@ =~= self.entries@.subrange(0, i as int),
            decreases self.entries@.len() - i,
        {
            out.push(self.entries[i]);
            i += 1;
        }
        assert(out@ =~= self.entries@);
        KeyMap { entries: out }
    }
}

/// What a list holds after a push.
pub proof fn lemma_push_contains<T>(s: Seq<T>, x: T)
    ensures
        forall|y: T| #[trigger] s.push(x).contains(y) <==> (s.contains(y) || y == x),
{
    let t = s.push(x);
    assert forall|y: T| #[trigger] t.contains(y) <==> (s.contains(y) || y == x) by {
        if t.contains(y) && y != x {
            let j = choose|j: int| 0 <= j < t.len() && t[j] == y;
            assert(s[j] == y);
        }
        if s.contains(y) {
            let j = choose|j: int| 0 <= j < s.len() && s[j] == y;
            assert(t[j] == y);
        }
        if y == x {
            assert(t[s.len() as int] == y);
        }
    }
}

/// Whether no element of the list repeats.
pub fn has_no_duplicates<K: KeyEq>(v: &Vec<K>) -> (b: bool)
    ensures
        b == v@.no_duplicates(),
{
    let n = v.len();
    let mut i: usize = 0;
    while i < n
        invariant
            n == v@.len(),
            i <= n,
            forall|a: int, b: int| 0 <= a < i && 0 <= b < n && a != b ==> v@[a] != v@[b],
        decreases n - i,
    {
        let mut j: usize = 0;
        while j < n
            invariant
                n == v@.len(),
                i < n,
                j <= n,
                forall|a: int, b: int| 0 <= a < i && 0 <= b < n && a != b ==> v@[a] != v@[b],
                forall|b: int| 0 <= b < j && b != i ==> v@[i as int] != v@[b],
            decreases n - j,
        {
            if j != i && v[i].key_eq(&v[j]) {
                return false;
            }
            j += 1;
        }
        i += 1;
    }
    true
}

/// Whether every element of `a` occurs in `b`.
pub fn all_listed<K: KeyEq>(a: &Vec<K>, b: &Vec<K>) -> (r: bool)
    ensures
        r == (forall|x: K| #[trigger] a@.contains(x) ==> b@.contains(x)),
{
    let mut i: usize = 0;
    while i < a.len()
        invariant
            i <= a@.len(),
            forall|j: int| 0 <= j < i ==> b@.contains(#[trigger] a@[j]),
        decreases a@.len() - i,
    {
        if !list_contains(b, &a[i]) {
            assert(a@.contains(a@[i as int]));
            return false;
        }
        i += 1;
    }
    assert forall|x: K| #[trigger] a@.contains(x) implies b@.contains(x) by {
        let j = choose|j: int| 0 <= j < a@.len() && a@[j] == x;
    }
    true
}

impl<K: KeyEq, V> KeyMap<K, V> {
    /// The map an entry list stands for; `None` when a key repeats.
    pub fn from_entries(entries: Vec<(K, V)>) -> (r: Option<Self>)
        ensures
            r is Some <==> keys_unique(entries@),
            r matches Some(m) ==> m@ == entries_map(entries@),
    {
        let n = entries.len();
        let mut i: usize = 0;
        while i < n
            invariant
                n == entries@.len(),
                i <= n,
                forall|a: int, b: int|
                    0 <= a < i && 0 <= b < n && a != b ==> entries@[a].0 != entries@[b].0,
            decreases n - i,
        {
            let mut j: usize = 0;
            while j < n
                invariant
                    n == entries@.len(),
                    i < n,
                    j <= n,
                    forall|a: int, b: int|
                        0 <= a < i && 0 <= b < n && a != b ==> entries@[a].0 != entries@[b].0,
                    forall|b: int| 0 <= b < j && b != i ==> entries@[i as int].0 != entries@[b].0,
                decreases n - j,
            {
                if j != i && entries[i].0.key_eq(&entries[j].0) {
                    return None;
                }
                j += 1;
            }
            i += 1;
        }
        Some(KeyMap { entries })
    }
}

impl<K: Copy, V: Copy> KeyMap<K, V> {
    /// The entries held, each key once.
    pub fn to_entries(&self) -> (r: Vec<(K, V)>)
        ensures
            keys_unique(r@),
            entries_map(r@) == self@,
    {
        proof {
            use_type_invariant(self);
        }
        copy_list(&self.entries)
    }
}

impl<K: KeyEq + Copy> KeyMap<K, ()> {
    /// The set of the listed keys; `None` when a key repeats.
    pub fn from_keys(keys: &Vec<K>) -> (r: Option<Self>)
        ensures
            r is Some <==> keys@.no_duplicates(),
            r matches Some(m) ==> m@.dom() == keys@.to_set(),
    {
        if !has_no_duplicates(keys) {
            return None;
        }
        let mut m: KeyMap<K, ()> = KeyMap::new();
        let mut i: usize = 0;
        while i < keys.len()
            invariant
                i <= keys@.len(),
                m@.dom() == keys@.subrange(0, i as int).to_set(),
            decreases keys@.len() - i,
        {
            m.insert(keys[i], ());
            proof {
                let pre = keys@.subrange(0, i as int);
                assert(keys@.subrange(0, i as int + 1) =~= pre.push(keys@[i as int]));
                lemma_push_contains(pre, keys@[i as int]);
                assert(pre.push(keys@[i as int]).to_set() =~= pre.to_set().insert(keys@[i as int]));
            }
            i += 1;
        }
        assert(keys@.subrange(0, keys@.len() as int) =~= keys@);
        Some(m)
    }
}

/// The entries of `m` whose key is listed in `keys`.
pub open spec fn restricted<K, V>(m: Map<K, V>, keys: Seq<K>) -> Map<K, V> {
    Map::new(|k: K| keys.contains(k) && m.contains_key(k), |k: K| m[k])
}

impl<K: KeyEq + Copy, V: Copy> KeyMap<K, V> {
    /// The entries for the listed keys that the map holds, in list order.
    pub fn entries_for(&self, keys: &Vec<K>) -> (r: Vec<(K, V)>)
        requires
            keys@.no_duplicates(),
        ensures
            keys_unique(r@),
            entries_map(r@) == restricted(self@, keys@),
    {
        let mut out: Vec<(K, V)> = Vec::new();
        let mut i: usize = 0;
        assert(entries_map(out@) =~= restricted(self@, keys@.subrange(0, 0)));
        while i < keys.len()
            invariant
                i <= keys@.len(),
                keys@.no_duplicates(),
                keys_unique(out@),
                entries_map(out@) == restricted(self@, keys@.subrange(0, i as int)),
            decreases keys@.len() - i,
        {
            let k = keys[i];
            let ghost pre = keys@.subrange(0, i as int);
            let ghost post = keys@.subrange(0, i as int + 1);
            proof {
                assert(post =~= pre.push(k));
                assert(!pre.contains(k)) by {
                    if pre.contains(k) {
                        let j = choose|j: int| 0 <= j < pre.len() && pre[j] == k;
                        assert(keys@[j] == keys@[i as int]);
                    }
                }
            }
            match self.get(&k) {
                Some(val) => {
                    proof {
                        assert(!has_key(out@, k)) by {
                            if has_key(out@, k) {
                                let j = choose|j: int| 0 <= j < out@.len() && out@[j].0 == k;
                                lemma_entry(out@, j);
                            }
                        }
                        lemma_push(out@, k, *val);
                    }
                    out.push((k, *val));
                },
                None => {},
            }
            proof {
                assert forall|x: K| #[trigger] post.contains(x) <==> (pre.contains(x) || x == k) by {
                    if post.contains(x) && x != k {
                        let j = choose|j: int| 0 <= j < post.len() && post[j] == x;
                        assert(pre[j] == x);
                    }
                    if pre.contains(x) {
                        let j = choose|j: int| 0 <= j < pre.len() && pre[j] == x;
                        assert(post[j] == x);
                    }
                    if x == k {
                        assert(post[i as int] == x);
                    }
                }
                assert(entries_map(out@) =~= restricted(self@, post));
            }
            i += 1;
        }
        assert(keys@.subrange(0, keys@.len() as int) =~= keys@);
        out
    }
}

/// Membership test on a duplicate-free list.
pub fn list_contains<K: KeyEq>(v: &Vec<K>, k: &K) -> (b: bool)
    ensures
        b == v@.contains(*k),
{
    let mut i: usize = 0;
    while i < v.len()
        invariant
            i <= v@.len(),
            forall|j: int| 0 <= j < i ==> v@[j] != *k,
        decreases v@.len() - i,
    {
        if v[i].key_eq(k) {
            return true;
        }
        i += 1;
    }
    false
}

/// Position of `k` in the list, if present.
pub fn list_position<K: KeyEq>(v: &Vec<K>, k: &K) -> (r: Option<usize>)
    ensures
        match r {
            Some(i) => i < v@.len() && v@[i as int] == *k,
            None => !v@.contains(*k),
        },
{
    let mut i: usize = 0;
    while i < v.len()
        invariant
            i <= v@.len(),
            forall|j: int| 0 <= j < i ==> v@[j] != *k,
        decreases v@.len() - i,
    {
        if v[i].key_eq(k) {
            return Some(i);
        }
        i += 1;
    }
    None
}

/// The list with every occurrence of `x` taken out, the rest in order.
pub open spec fn without<K>(s: Seq<K>, x: K) -> Seq<K> {
    s.filter(|y: K| y != x)
}

/// Copy of the list without `x`, keeping the order of the other items.
pub fn list_without<K: KeyEq + Copy>(v: &Vec<K>, x: &K) -> (r: Vec<K>)
    ensures
        r@ == without(v@, *x),
{
    let mut out: Vec<K> = Vec::new();
    let mut i: usize = 0;
    while i < v.len()
        invariant
            i <= v@.len(),
            out@ == without(v@.subrange(0, i as int), *x),
        decreases v@.len() - i,
    {
        proof {
            let s = v@.subrange(0, i as int + 1);
            assert(s.drop_last() =~= v@.subrange(0, i as int));
            reveal(Seq::filter);
        }
        if !v[i].key_eq(x) {
            out.push(v[i]);
        }
        i += 1;
    }
    assert(v@.subrange(0, v@.len() as int) =~= v@);
    out
}

} // verus!

verus! {

/// An element-by-element copy of the list.
pub fn copy_list<T: Copy>(v: &Vec<T>) -> (r: Vec<T>)
    ensures
        r@ == v@,
{
    let mut out: Vec<T> = Vec::new();
    let mut i: usize = 0;
    while i < v.len()
        invariant
            i <= v@.len(),
            out@ =~= v@.subrange(0, i as int),
        decreases v@.len() - i,
    {
        out.push(v[i]);
        i += 1;
    }
    assert(out@ =~= v@);
    out
}

} // verus!

verus! {

/// In a duplicate-free list, the position of an element is the one found.
pub proof fn lemma_index_of_unique<T>(s: Seq<T>, p: int)
    requires
        s.no_duplicates(),
        0 <= p < s.len(),
    ensures
        s.index_of(s[p]) == p,
{
    let x = s[p];
    assert(s.contains(x));
    let j = s.index_of(x);
    assert(0 <= j < s.len() && s[j] == x);
}

/// Appending a new element keeps a list duplicate-free and adds exactly it.
pub proof fn lemma_push_unique<T>(s: Seq<T>, x: T)
    requires
        s.no_duplicates(),
        !s.contains(x),
    ensures
        s.push(x).no_duplicates(),
        forall|y: T| #[trigger] s.push(x).contains(y) <==> (s.contains(y) || y == x),
{
    let t = s.push(x);
    assert forall|i: int, j: int| 0 <= i < t.len() && 0 <= j < t.len() && i != j implies t[i]
        != t[j] by {
        if i < s.len() && j < s.len() {
            assert(t[i] == s[i] && t[j] == s[j]);
        } else if i < s.len() {
            assert(t[i] == s[i]);
            assert(s.contains(s[i]));
        } else {
            assert(t[j] == s[j]);
            assert(s.contains(s[j]));
        }
    }
    assert forall|y: T| #[trigger] t.contains(y) <==> (s.contains(y) || y == x) by {
        if t.contains(y) && y != x {
            let i = choose|i: int| 0 <= i < t.len() && t[i] == y;
            assert(i < s.len());
            assert(s[i] == y);
        }
        if s.contains(y) {
            let i = choose|i: int| 0 <= i < s.len() && s[i] == y;
            assert(t[i] == y);
        }
        if y == x {
            assert(t[s.len() as int] == y);
        }
    }
}

/// Removing position `p` from a duplicate-free list removes exactly its
/// element.
pub proof fn lemma_remove_unique<T>(s: Seq<T>, p: int)
    requires
        s.no_duplicates(),
        0 <= p < s.len(),
    ensures
        s.remove(p).no_duplicates(),
        s.remove(p).len() == s.len() - 1,
        forall|y: T| #[trigger] s.remove(p).contains(y) <==> (s.contains(y) && y != s[p]),
{
    let t = s.remove(p);
    assert forall|a: int| 0 <= a < t.len() implies #[trigger] t[a] == (if a < p {
        s[a]
    } else {
        s[a + 1]
    }) by {}
    assert forall|i: int, j: int| 0 <= i < t.len() && 0 <= j < t.len() && i != j implies t[i]
        != t[j] by {
        let i2 = if i < p {
            i
        } else {
            i + 1
        };
        let j2 = if j < p {
            j
        } else {
            j + 1
        };
        assert(t[i] == s[i2] && t[j] == s[j2]);
    }
    assert forall|y: T| #[trigger] t.contains(y) <==> (s.contains(y) && y != s[p]) by {
        if t.contains(y) {
            let i = choose|i: int| 0 <= i < t.len() && t[i] == y;
            let i2 = if i < p {
                i
            } else {
                i + 1
            };
            assert(s[i2] == y);
            assert(i2 != p);
        }
        if s.contains(y) && y != s[p] {
            let i = choose|i: int| 0 <= i < s.len() && s[i] == y;
            assert(i != p);
            let i2 = if i < p {
                i
            } else {
                i - 1
            };
            assert(t[i2] == y);
        }
    }
}

/// The list after a swap-remove at position `p`: the last element takes the
/// freed position and the list shrinks by one.
pub open spec fn swap_removed<T>(s: Seq<T>, p: int) -> Seq<T> {
    s.update(p, s.last()).drop_last()
}

/// Swap-removing position `p` from a duplicate-free list removes exactly its
/// element.
pub proof fn lemma_swap_remove_unique<T>(s: Seq<T>, p: int)
    requires
        s.no_duplicates(),
        0 <= p < s.len(),
    ensures
        swap_removed(s, p).no_duplicates(),
        swap_removed(s, p).len() == s.len() - 1,
        forall|y: T| #[trigger] swap_removed(s, p).contains(y) <==> (s.contains(y) && y != s[p]),
{
    let n = s.len() - 1;
    let t = swap_removed(s, p);
    assert forall|a: int| 0 <= a < t.len() implies #[trigger] t[a] == (if a == p {
        s[n]
    } else {
        s[a]
    }) by {}
    assert forall|i: int, j: int| 0 <= i < t.len() && 0 <= j < t.len() && i != j implies t[i]
        != t[j] by {
        let i2 = if i == p {
            n
        } else {
            i
        };
        let j2 = if j == p {
            n
        } else {
            j
        };
        assert(t[i] == s[i2] && t[j] == s[j2]);
    }
    assert forall|y: T| #[trigger] t.contains(y) <==> (s.contains(y) && y != s[p]) by {
        if t.contains(y) {
            let i = choose|i: int| 0 <= i < t.len() && t[i] == y;
            let i2 = if i == p {
                n
            } else {
                i
            };
            assert(s[i2] == y);
            assert(i2 != p);
        }
        if s.contains(y) && y != s[p] {
            let i = choose|i: int| 0 <= i < s.len() && s[i] == y;
            assert(i != p);
            if i == n {
                assert(t[p] == y);
            } else {
                assert(t[i] == y);
            }
        }
    }
}

impl<K: Copy, V> KeyMap<K, V> {
    /// The keys held, each once.
    pub fn keys(&self) -> (r: Vec<K>)
        ensures
            r@.no_duplicates(),
            forall|k: K| #[trigger] r@.contains(k) <==> self@.contains_key(k),
    {
        proof {
            use_type_invariant(self);
        }
        let mut out: Vec<K> = Vec::new();
        let mut i: usize = 0;
        while i < self.entries.len()
            invariant
                i <= self.entries@.len(),
                keys_unique(self.entries@),
                out@.len() == i,
                forall|j: int| 0 <= j < i ==> #[trigger] out@[j] == self.entries@[j].0,
            decreases self.entries@.len() - i,
        {
            out.push(self.entries[i].0);
            i += 1;
        }
        proof {
            assert forall|a: int, b: int| 0 <= a < out@.len() && 0 <= b < out@.len() && a != b implies out@[a]
                != out@[b] by {
                assert(out@[a] == self.entries@[a].0);
                assert(out@[b] == self.entries@[b].0);
            }
            assert forall|k: K| #[trigger] out@.contains(k) <==> self@.contains_key(k) by {
                if out@.contains(k) {
                    let j = choose|j: int| 0 <= j < out@.len() && out@[j] == k;
                    assert(self.entries@[j].0 == k);
                    assert(has_key(self.entries@, k));
                }
                if self@.contains_key(k) {
                    let j = choose|j: int| 0 <= j < self.entries@.len() && self.entries@[j].0 == k;
                    assert(out@[j] == k);
                }
            }
        }
        out
    }
}

} // verus!

verus! {

/// The entries of `m` whose key is not a vote on `task_id`.
pub open spec fn without_task<V>(m: Map<crate::types::VoteKey, V>, task_id: u64) -> Map<
    crate::types::VoteKey,
    V,
> {
    Map::new(|k: crate::types::VoteKey| m.contains_key(k) && k.task_id != task_id, |k| m[k])
}

impl<V: Copy> KeyMap<crate::types::VoteKey, V> {
    /// Drops every entry keyed by a vote on `task_id`.
    pub fn remove_task(&mut self, task_id: u64)
        ensures
            final(self)@ == without_task(old(self)@, task_id),
    {
        proof {
            use_type_invariant(&*self);
        }
        let ghost s = self.entries@;
        let mut out: Vec<(crate::types::VoteKey, V)> = Vec::new();
        let mut i: usize = 0;
        assert(entries_map(out@) =~= without_task(entries_map(s.subrange(0, 0)), task_id));
        while i < self.entries.len()
            invariant
                s == self.entries@,
                i <= s.len(),
                keys_unique(s),
                keys_unique(out@),
                entries_map(out@) == without_task(entries_map(s.subrange(0, i as int)), task_id),
            decreases s.len() - i,
        {
            let k = self.entries[i].0;
            let val = self.entries[i].1;
            let ghost pre = s.subrange(0, i as int);
            proof {
                assert(keys_unique(pre));
                assert(!has_key(pre, k)) by {
                    if has_key(pre, k) {
                        let j = choose|j: int| 0 <= j < pre.len() && pre[j].0 == k;
                        assert(s[j].0 == s[i as int].0);
                    }
                }
                lemma_push(pre, k, val);
                assert(pre.push((k, val)) =~= s.subrange(0, i as int + 1));
            }
            if k.task_id != task_id {
                proof {
                    assert(!has_key(out@, k)) by {
                        if has_key(out@, k) {
                            let j = choose|j: int| 0 <= j < out@.len() && out@[j].0 == k;
                            lemma_entry(out@, j);
                            assert(entries_map(out@).contains_key(k));
                        }
                    }
                    lemma_push(out@, k, val);
                }
                out.push((k, val));
                proof {
                    assert(entries_map(out@) =~= without_task(
                        entries_map(s.subrange(0, i as int + 1)),
                        task_id,
                    ));
                }
            } else {
                proof {
                    assert(entries_map(out@) =~= without_task(
                        entries_map(s.subrange(0, i as int + 1)),
                        task_id,
                    ));
                }
            }
            i += 1;
        }
        assert(s.subrange(0, s.len() as int) =~= s);
        self.entries = out;
    }
}

} // verus!
