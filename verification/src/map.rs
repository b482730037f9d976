//! A map from names to values that keeps its entries in the order in which
//! they were last written.
//!
//! The model is the sequence of entries, each a name with the view of its
//! value. Writing a name that the map holds removes the older entry, so the
//! newest write of a name is the one that is found, and a map that was built
//! by `insert` alone holds no name twice.

use crate::text::{chars_of, eq_ignore_case, same_ignore_case};
use vstd::prelude::*;

verus! {

/// The first index at or after `from` whose entry has the name `key`.
pub open spec fn position_from<T>(s: Seq<(Seq<char>, T)>, key: Seq<char>, from: int) -> Option<
    int,
>
    decreases s.len() - from,
{
    if from < 0 || from >= s.len() {
        None
    } else if s[from].0 == key {
        Some(from)
    } else {
        position_from(s, key, from + 1)
    }
}

/// The value of the last entry whose name is `key`.
pub open spec fn lookup<T>(s: Seq<(Seq<char>, T)>, key: Seq<char>) -> Option<T>
    decreases s.len(),
{
    if s.len() == 0 {
        None
    } else if s.last().0 == key {
        Some(s.last().1)
    } else {
        lookup(s.drop_last(), key)
    }
}

/// The value of the last entry whose name is `key` but for the case of
/// ASCII letters.
pub open spec fn lookup_ignore_case<T>(s: Seq<(Seq<char>, T)>, key: Seq<char>) -> Option<T>
    decreases s.len(),
{
    if s.len() == 0 {
        None
    } else if eq_ignore_case(s.last().0, key) {
        Some(s.last().1)
    } else {
        lookup_ignore_case(s.drop_last(), key)
    }
}

/// The entries after `key` was written with `value`: the first older entry
/// of that name leaves, and the new entry stands last.
pub open spec fn inserted<T>(s: Seq<(Seq<char>, T)>, key: Seq<char>, value: T) -> Seq<
    (Seq<char>, T),
> {
    match position_from(s, key, 0) {
        Some(i) if 0 <= i < s.len() => s.remove(i).push((key, value)),
        _ => s.push((key, value)),
    }
}

/// No two entries have the same name.
pub open spec fn distinct_keys<T>(s: Seq<(Seq<char>, T)>) -> bool {
    forall|i: int, j: int| 0 <= i < j < s.len() ==> (#[trigger] s[i]).0 != (#[trigger] s[j]).0
}

/// What `position_from` returns is the least index of the name at or after
/// `from`, and it returns nothing only where no entry from there on has it.
pub proof fn lemma_position_from<T>(s: Seq<(Seq<char>, T)>, key: Seq<char>, from: int)
    requires
        0 <= from,
    ensures
        match position_from(s, key, from) {
            Some(i) => from <= i < s.len() && s[i].0 == key && forall|j: int|
                from <= j < i ==> (#[trigger] s[j]).0 != key,
            None => forall|j: int| from <= j < s.len() ==> (#[trigger] s[j]).0 != key,
        },
    decreases s.len() - from,
{
    if from < s.len() && s[from].0 != key {
        lemma_position_from(s, key, from + 1);
    }
}

/// A name that was just written is found with the value written.
pub proof fn lemma_lookup_inserted<T>(s: Seq<(Seq<char>, T)>, key: Seq<char>, value: T)
    ensures
        lookup(inserted(s, key, value), key) == Some(value),
{
    let t = inserted(s, key, value);
    assert(t.last() == (key, value));
}

/// Taking out an entry changes nothing for the other names.
proof fn lemma_lookup_remove<T>(s: Seq<(Seq<char>, T)>, i: int, other: Seq<char>)
    requires
        0 <= i < s.len(),
        s[i].0 != other,
    ensures
        lookup(s.remove(i), other) == lookup(s, other),
    decreases s.len(),
{
    if i == s.len() - 1 {
        assert(s.remove(i) == s.drop_last());
    } else {
        assert(s.remove(i).last() == s.last());
        assert(s.remove(i).drop_last() == s.drop_last().remove(i));
        if s.last().0 != other {
            lemma_lookup_remove(s.drop_last(), i, other);
        }
    }
}

/// Writing one name changes nothing for the other names.
pub proof fn lemma_lookup_other<T>(
    s: Seq<(Seq<char>, T)>,
    key: Seq<char>,
    value: T,
    other: Seq<char>,
)
    requires
        other != key,
    ensures
        lookup(inserted(s, key, value), other) == lookup(s, other),
{
    lemma_position_from(s, key, 0);
    let t = inserted(s, key, value);
    match position_from(s, key, 0) {
        Some(i) => {
            assert(t.drop_last() == s.remove(i));
            lemma_lookup_remove(s, i, other);
        },
        None => {
            assert(t.drop_last() == s);
        },
    }
}

/// A map that holds no name twice holds none twice after a write.
pub proof fn lemma_inserted_distinct<T>(s: Seq<(Seq<char>, T)>, key: Seq<char>, value: T)
    requires
        distinct_keys(s),
    ensures
        distinct_keys(inserted(s, key, value)),
        inserted(s, key, value).len() == if position_from(s, key, 0) is Some {
            s.len()
        } else {
            s.len() + 1
        },
{
    lemma_position_from(s, key, 0);
    let t = inserted(s, key, value);
    match position_from(s, key, 0) {
        Some(p) => {
            let r = s.remove(p);
            assert forall|i: int, j: int| 0 <= i < j < t.len() implies (#[trigger] t[i]).0 != (
            #[trigger] t[j]).0 by {
                let si = if i < p {
                    i
                } else {
                    i + 1
                };
                assert(t[i] == s[si]);
                if j < t.len() - 1 {
                    let sj = if j < p {
                        j
                    } else {
                        j + 1
                    };
                    assert(t[j] == s[sj]);
                } else {
                    assert(t[j].0 == s[p].0);
                }
            }
        },
        None => {
            assert forall|i: int, j: int| 0 <= i < j < t.len() implies (#[trigger] t[i]).0 != (
            #[trigger] t[j]).0 by {
                assert(t[i] == s[i]);
                if j < t.len() - 1 {
                    assert(t[j] == s[j]);
                }
            }
        },
    }
}

/// A map from names to values, in the order of the last write of each name.
#[derive(Debug, Clone)]
pub struct OrderedMap<V> {
    entries: Vec<(String, V)>,
}

impl<V: View> View for OrderedMap<V> {
    type V = Seq<(Seq<char>, V::V)>;

    closed spec fn view(&self) -> Seq<(Seq<char>, V::V)> {
        self.entries@.map_values(|e: (String, V)| (e.0@, e.1@))
    }
}

impl<V: View> OrderedMap<V> {
    /// A map without entries.
    pub fn new() -> (m: Self)
        ensures
            m@ == Seq::<(Seq<char>, V::V)>::empty(),
    {
        let m = OrderedMap { entries: Vec::new() };
        assert(m@ == Seq::<(Seq<char>, V::V)>::empty());
        m
    }

    /// The number of entries.
    pub fn len(&self) -> (n: usize)
        ensures
            n == self@.len(),
    {
        self.entries.len()
    }

    /// The name of the entry at index `i`.
    pub fn key_at(&self, i: usize) -> (k: &String)
        requires
            i < self@.len(),
        ensures
            k@ == self@[i as int].0,
    {
        &self.entries[i].0
    }

    /// The value of the entry at index `i`.
    pub fn value_at(&self, i: usize) -> (v: &V)
        requires
            i < self@.len(),
        ensures
            v@ == self@[i as int].1,
    {
        &self.entries[i].1
    }

    /// Writes `value` under `key`: an older entry of that name leaves, and
    /// the new one stands last.
    pub fn insert(&mut self, key: String, value: V)
        ensures
            final(self)@ == inserted(old(self)@, key@, value@),
    {
        let ghost before = self@;
        let mut i: usize = 0;
        while i < self.entries.len()
            invariant_except_break
                i <= self.entries.len(),
                self@ == before,
                position_from(before, key@, 0) == position_from(before, key@, i as int),
            ensures
                self@.push((key@, value@)) == inserted(before, key@, value@),
            decreases self.entries.len() - i,
        {
            if self.entries[i].0 == key {
                self.entries.remove(i);
                assert(self@ == before.remove(i as int));
                break ;
            }
            i += 1;
        }
        let ghost removed = self@;
        self.entries.push((key, value));
        assert(self@ == removed.push((key@, value@)));
    }

    /// The value that was last written under `key`.
    pub fn get(&self, key: &str) -> (r: Option<&V>)
        ensures
            match r {
                Some(v) => lookup(self@, key@) == Some(v@),
                None => lookup(self@, key@) is None,
            },
    {
        let wanted = key.to_owned();
        let mut i: usize = self.entries.len();
        assert(self@.take(i as int) == self@);
        while i > 0
            invariant
                i <= self.entries.len(),
                wanted@ == key@,
                lookup(self@, key@) == lookup(self@.take(i as int), key@),
            decreases i,
        {
            assert(self@.take(i as int).drop_last() == self@.take(i - 1));
            if self.entries[i - 1].0 == wanted {
                return Some(&self.entries[i - 1].1);
            }
            i -= 1;
        }
        None
    }

    /// Whether a value was written under `key`.
    pub fn contains_key(&self, key: &str) -> (r: bool)
        ensures
            r == lookup(self@, key@) is Some,
    {
        self.get(key).is_some()
    }

    /// The value that was last written under a name that is `key` but for
    /// the case of ASCII letters.
    pub fn get_ignore_case(&self, key: &str) -> (r: Option<&V>)
        ensures
            match r {
                Some(v) => lookup_ignore_case(self@, key@) == Some(v@),
                None => lookup_ignore_case(self@, key@) is None,
            },
    {
        let wanted = chars_of(key);
        let mut i: usize = self.entries.len();
        assert(self@.take(i as int) == self@);
        while i > 0
            invariant
                i <= self.entries.len(),
                wanted@ == key@,
                lookup_ignore_case(self@, key@) == lookup_ignore_case(
                    self@.take(i as int),
                    key@,
                ),
            decreases i,
        {
            assert(self@.take(i as int).drop_last() == self@.take(i - 1));
            let name = chars_of(self.entries[i - 1].0.as_str());
            if same_ignore_case(&name, &wanted) {
                return Some(&self.entries[i - 1].1);
            }
            i -= 1;
        }
        None
    }
}

} // verus!
