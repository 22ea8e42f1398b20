use vstd::prelude::*;
use vstd::set_lib::lemma_subset_equality;

verus! {

/// Whether no two entries of `s` carry the same key.
pub open spec fn keys_distinct(s: Seq<(String, String)>) -> bool {
    forall|i: int, j: int| 0 <= i < j < s.len() ==> #[trigger] s[i].0@ != #[trigger] s[j].0@
}

/// The map that a sequence of (key, value) entries stands for; a later entry wins.
pub open spec fn map_of_entries(s: Seq<(String, String)>) -> Map<Seq<char>, Seq<char>>
    decreases s.len(),
{
    if s.len() == 0 {
        Map::empty()
    } else {
        map_of_entries(s.drop_last()).insert(s.last().0@, s.last().1@)
    }
}

/// The keys of the map are exactly the keys of the entries.
pub proof fn lemma_map_of_entries_dom(s: Seq<(String, String)>)
    ensures
        map_of_entries(s).dom().finite(),
        forall|k: Seq<char>|
            #[trigger] map_of_entries(s).contains_key(k) <==> exists|i: int|
                0 <= i < s.len() && s[i].0@ == k,
    decreases s.len(),
{
    if s.len() > 0 {
        let p = s.drop_last();
        lemma_map_of_entries_dom(p);
        assert forall|k: Seq<char>|
            #[trigger] map_of_entries(s).contains_key(k) <==> exists|i: int|
                0 <= i < s.len() && s[i].0@ == k by {
            if map_of_entries(s).contains_key(k) {
                if k == s.last().0@ {
                    assert(s[s.len() - 1].0@ == k);
                } else {
                    let i = choose|i: int| 0 <= i < p.len() && p[i].0@ == k;
                    assert(s[i] == p[i]);
                }
            }
            if exists|i: int| 0 <= i < s.len() && s[i].0@ == k {
                let i = choose|i: int| 0 <= i < s.len() && s[i].0@ == k;
                if i < s.len() - 1 {
                    assert(p[i] == s[i]);
                }
            }
        }
    }
}

/// With distinct keys, every entry's key maps to that entry's value.
pub proof fn lemma_map_of_entries_value(s: Seq<(String, String)>, i: int)
    requires
        keys_distinct(s),
        0 <= i < s.len(),
    ensures
        map_of_entries(s).contains_key(s[i].0@),
        map_of_entries(s)[s[i].0@] == s[i].1@,
    decreases s.len(),
{
    if i < s.len() - 1 {
        let p = s.drop_last();
        assert(p[i] == s[i]);
        assert(keys_distinct(p)) by {
            assert forall|a: int, b: int| 0 <= a < b < p.len() implies #[trigger] p[a].0@
                != #[trigger] p[b].0@ by {
                assert(p[a] == s[a] && p[b] == s[b]);
            }
        }
        lemma_map_of_entries_value(p, i);
        assert(s[i].0@ != s[s.len() - 1].0@);
    }
}

/// With distinct keys, the map has exactly one key per entry.
pub proof fn lemma_map_of_entries_len(s: Seq<(String, String)>)
    requires
        keys_distinct(s),
    ensures
        map_of_entries(s).dom().len() == s.len(),
    decreases s.len(),
{
    lemma_map_of_entries_dom(s);
    if s.len() > 0 {
        let p = s.drop_last();
        assert(keys_distinct(p)) by {
            assert forall|a: int, b: int| 0 <= a < b < p.len() implies #[trigger] p[a].0@
                != #[trigger] p[b].0@ by {
                assert(p[a] == s[a] && p[b] == s[b]);
            }
        }
        lemma_map_of_entries_len(p);
        lemma_map_of_entries_dom(p);
        if map_of_entries(p).contains_key(s.last().0@) {
            let i = choose|i: int| 0 <= i < p.len() && p[i].0@ == s.last().0@;
            assert(p[i] == s[i]);
            assert(s[i].0@ != s[s.len() - 1].0@);
        }
    }
}

/// Two entry lists with distinct keys stand for the same map exactly when they
/// have the same length and each entry of the first is an entry of the map of the second.
pub proof fn lemma_map_of_entries_eq(a: Seq<(String, String)>, b: Seq<(String, String)>)
    requires
        keys_distinct(a),
        keys_distinct(b),
    ensures
        map_of_entries(a) == map_of_entries(b) <==> (a.len() == b.len() && forall|i: int|
            0 <= i < a.len() ==> map_of_entries(b).contains_key(#[trigger] a[i].0@)
                && map_of_entries(b)[a[i].0@] == a[i].1@),
{
    lemma_map_of_entries_dom(a);
    lemma_map_of_entries_dom(b);
    lemma_map_of_entries_len(a);
    lemma_map_of_entries_len(b);
    let ma = map_of_entries(a);
    let mb = map_of_entries(b);
    if ma == mb {
        assert forall|i: int| 0 <= i < a.len() implies mb.contains_key(#[trigger] a[i].0@)
            && mb[a[i].0@] == a[i].1@ by {
            lemma_map_of_entries_value(a, i);
        }
    }
    if a.len() == b.len() && forall|i: int|
        0 <= i < a.len() ==> mb.contains_key(#[trigger] a[i].0@) && mb[a[i].0@] == a[i].1@ {
        assert(ma.dom().subset_of(mb.dom())) by {
            assert forall|k: Seq<char>| ma.dom().contains(k) implies mb.dom().contains(k) by {
                assert(ma.contains_key(k));
                let i = choose|i: int| 0 <= i < a.len() && a[i].0@ == k;
                assert(mb.contains_key(a[i].0@));
            }
        }
        lemma_subset_equality(ma.dom(), mb.dom());
        assert forall|k: Seq<char>| #[trigger] ma.contains_key(k) implies ma[k] == mb[k] by {
            let i = choose|i: int| 0 <= i < a.len() && a[i].0@ == k;
            lemma_map_of_entries_value(a, i);
        }
        assert(ma =~= mb);
    }
}

/// A map from strings to strings, such as a volume's labels or a publish context.
#[derive(Debug)]
pub struct StringMap {
    entries: Vec<(String, String)>,
}

impl View for StringMap {
    type V = Map<Seq<char>, Seq<char>>;

    closed spec fn view(&self) -> Map<Seq<char>, Seq<char>> {
        map_of_entries(self.entries@)
    }
}

impl DeepView for StringMap {
    type V = Map<Seq<char>, Seq<char>>;

    open spec fn deep_view(&self) -> Map<Seq<char>, Seq<char>> {
        self@
    }
}

impl Clone for StringMap {
    fn clone(&self) -> (r: Self)
        ensures
            r@ == self@,
    {
        proof {
            use_type_invariant(self);
        }
        let entries = self.to_entries();
        StringMap { entries }
    }
}

/// Whether two vectors of strings hold the same strings in the same order.
pub fn strings_eq(a: &Vec<String>, b: &Vec<String>) -> (r: bool)
    ensures
        r == (a.deep_view() == b.deep_view()),
{
    if a.len() != b.len() {
        assert(a.deep_view().len() != b.deep_view().len());
        return false;
    }
    let mut i: usize = 0;
    while i < a.len()
        invariant
            i <= a.len(),
            a.len() == b.len(),
            forall|j: int| 0 <= j < i ==> #[trigger] a@[j]@ == b@[j]@,
        decreases a.len() - i,
    {
        if !(a[i] == b[i]) {
            assert(a.deep_view()[i as int] != b.deep_view()[i as int]);
            return false;
        }
        i = i + 1;
    }
    assert(a.deep_view() =~= b.deep_view());
    true
}

/// A copy of a vector of strings.
pub fn clone_strings(a: &Vec<String>) -> (r: Vec<String>)
    ensures
        r@ == a@,
{
    let mut out: Vec<String> = Vec::new();
    let mut i: usize = 0;
    while i < a.len()
        invariant
            i <= a.len(),
            out@ == a@.take(i as int),
        decreases a.len() - i,
    {
        out.push(a[i].clone());
        assert(a@.take(i + 1) =~= a@.take(i as int).push(a@[i as int]));
        i = i + 1;
    }
    assert(a@.take(a.len() as int) =~= a@);
    out
}

impl StringMap {
    #[verifier::type_invariant]
    closed spec fn wf(self) -> bool {
        keys_distinct(self.entries@)
    }

    /// An empty map.
    pub fn new() -> (m: Self)
        ensures
            m@ == Map::<Seq<char>, Seq<char>>::empty(),
    {
        StringMap { entries: Vec::new() }
    }

    /// The number of keys.
    pub fn len(&self) -> (n: usize)
        ensures
            n == self@.dom().len(),
            self@.dom().finite(),
    {
        proof {
            use_type_invariant(self);
            lemma_map_of_entries_len(self.entries@);
            lemma_map_of_entries_dom(self.entries@);
        }
        self.entries.len()
    }

    /// Position of the entry with the given key, if any.
    fn position(&self, key: &String) -> (r: Option<usize>)
        ensures
            match r {
                Some(i) => i < self.entries@.len() && self.entries@[i as int].0@ == key@,
                None => forall|i: int|
                    0 <= i < self.entries@.len() ==> #[trigger] self.entries@[i].0@ != key@,
            },
    {
        let mut i: usize = 0;
        while i < self.entries.len()
            invariant
                i <= self.entries@.len(),
                forall|j: int| 0 <= j < i ==> #[trigger] self.entries@[j].0@ != key@,
            decreases self.entries@.len() - i,
        {
            if self.entries[i].0 == *key {
                return Some(i);
            }
            i = i + 1;
        }
        None
    }

    /// The value stored under `key`.
    pub fn get(&self, key: &String) -> (r: Option<&String>)
        ensures
            r is Some <==> self@.contains_key(key@),
            r matches Some(v) ==> v@ == self@[key@],
    {
        proof {
            use_type_invariant(self);
            lemma_map_of_entries_dom(self.entries@);
        }
        match self.position(key) {
            Some(i) => {
                proof {
                    lemma_map_of_entries_value(self.entries@, i as int);
                }
                Some(&self.entries[i].1)
            },
            None => None,
        }
    }

    /// Stores `value` under `key`, replacing any value the key had.
    pub fn insert(&mut self, key: String, value: String)
        ensures
            final(self)@ == old(self)@.insert(key@, value@),
    {
        proof {
            use_type_invariant(&*self);
        }
        let ghost old_entries = self.entries@;
        let pos = self.position(&key);
        let mut taken = StringMap::new();
        std::mem::swap(self, &mut taken);
        let mut entries = taken.entries;
        assert(entries@ == old_entries);
        match pos {
            Some(i) => {
                entries.set(i, (key, value));
                let ghost new_entries = entries@;
                assert(keys_distinct(new_entries)) by {
                    assert forall|a: int, b: int| 0 <= a < b < new_entries.len() implies
                        #[trigger] new_entries[a].0@ != #[trigger] new_entries[b].0@ by {
                        assert(old_entries[a].0@ != old_entries[b].0@);
                    }
                }
                proof {
                    lemma_map_of_entries_dom(old_entries);
                    lemma_map_of_entries_dom(new_entries);
                    let mo = map_of_entries(old_entries).insert(key@, value@);
                    let mn = map_of_entries(new_entries);
                    assert forall|k: Seq<char>| #[trigger] mn.contains_key(k) <==> mo.contains_key(k) by {
                        if mn.contains_key(k) {
                            let j = choose|j: int| 0 <= j < new_entries.len() && new_entries[j].0@ == k;
                            if j != i {
                                assert(old_entries[j].0@ == k);
                            }
                        }
                        if k == key@ {
                            assert(new_entries[i as int].0@ == key@);
                        }
                        if mo.contains_key(k) && k != key@ {
                            let j = choose|j: int| 0 <= j < old_entries.len() && old_entries[j].0@ == k;
                            assert(new_entries[j].0@ == k);
                        }
                    }
                    assert forall|k: Seq<char>| #[trigger] mn.contains_key(k) implies mn[k] == mo[k] by {
                        let j = choose|j: int| 0 <= j < new_entries.len() && new_entries[j].0@ == k;
                        lemma_map_of_entries_value(new_entries, j);
                        if j != i {
                            lemma_map_of_entries_value(old_entries, j);
                        }
                    }
                    assert(mn =~= mo);
                }
                *self = StringMap { entries };
            },
            None => {
                entries.push((key, value));
                assert(entries@.drop_last() =~= old_entries);
                assert(keys_distinct(entries@)) by {
                    let s = entries@;
                    assert forall|a: int, b: int| 0 <= a < b < s.len() implies #[trigger] s[a].0@
                        != #[trigger] s[b].0@ by {
                        if b < s.len() - 1 {
                            assert(s[a] == old_entries[a] && s[b] == old_entries[b]);
                        } else {
                            assert(s[a] == old_entries[a]);
                        }
                    }
                }
                *self = StringMap { entries };
            },
        }
    }

    /// Whether the two maps hold the same keys with the same values.
    pub fn map_eq(&self, other: &StringMap) -> (r: bool)
        ensures
            r == (self@ == other@),
    {
        proof {
            use_type_invariant(self);
            use_type_invariant(other);
            lemma_map_of_entries_eq(self.entries@, other.entries@);
        }
        if self.entries.len() != other.entries.len() {
            return false;
        }
        let mut i: usize = 0;
        while i < self.entries.len()
            invariant
                i <= self.entries@.len(),
                self.entries@.len() == other.entries@.len(),
                keys_distinct(self.entries@),
                keys_distinct(other.entries@),
                forall|j: int|
                    0 <= j < i ==> other@.contains_key(#[trigger] self.entries@[j].0@)
                        && other@[self.entries@[j].0@] == self.entries@[j].1@,
            decreases self.entries@.len() - i,
        {
            match other.get(&self.entries[i].0) {
                Some(v) => {
                    if !(*v == self.entries[i].1) {
                        proof {
                            lemma_map_of_entries_eq(self.entries@, other.entries@);
                        }
                        return false;
                    }
                },
                None => {
                    proof {
                        lemma_map_of_entries_eq(self.entries@, other.entries@);
                    }
                    return false;
                },
            }
            i = i + 1;
        }
        true
    }

    /// The (key, value) entries, each key once.
    pub fn to_entries(&self) -> (r: Vec<(String, String)>)
        ensures
            keys_distinct(r@),
            map_of_entries(r@) == self@,
    {
        proof {
            use_type_invariant(self);
        }
        let mut out: Vec<(String, String)> = Vec::new();
        let mut i: usize = 0;
        while i < self.entries.len()
            invariant
                i <= self.entries@.len(),
                out@ == self.entries@.take(i as int),
            decreases self.entries@.len() - i,
        {
            let (k, v) = &self.entries[i];
            out.push((k.clone(), v.clone()));
            assert(self.entries@.take(i + 1) =~= self.entries@.take(i as int).push(
                self.entries@[i as int],
            ));
            i = i + 1;
        }
        assert(self.entries@.take(self.entries@.len() as int) =~= self.entries@);
        out
    }
}

/// A read after a write gives back what was written, and leaves the other keys as they were.
pub proof fn law_get_after_insert(
    m: Map<Seq<char>, Seq<char>>,
    key: Seq<char>,
    value: Seq<char>,
    other: Seq<char>,
)
    ensures
        m.insert(key, value).contains_key(key),
        m.insert(key, value)[key] == value,
        other != key ==> (m.insert(key, value).contains_key(other) == m.contains_key(other)),
        other != key && m.contains_key(other) ==> m.insert(key, value)[other] == m[other],
{
}

} // verus!
