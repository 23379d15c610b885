//! A map from names to values that keeps its entries in the order of their
//! names, so that two maps with the same names and values are the same
//! list of entries.

use crate::docs::order::{comes_before, lemma_name_order, name_before};
use crate::text::same_text;
use vstd::prelude::*;

verus! {

/// A map keyed by text. The entries stand in the order of their names, each
/// name before every later one, so that no name occurs twice.
#[derive(Debug, PartialEq, Eq)]
pub struct Dictionary<V> {
    entries: Vec<(String, V)>,
}

/// No two entries have the same name.
pub open spec fn distinct_names<V>(entries: Seq<(String, V)>) -> bool {
    forall|i: int, j: int| 0 <= i < j < entries.len() ==> entries[i].0@ != entries[j].0@
}

/// Each entry has its name before the names of all later entries.
pub open spec fn sorted_names<V>(entries: Seq<(String, V)>) -> bool {
    forall|i: int, j: int|
        0 <= i < j < entries.len() ==> name_before(#[trigger] entries[i].0@, #[trigger] entries[j].0@)
}

/// Entries in the order of their names have distinct names.
pub proof fn lemma_sorted_names<V>(entries: Seq<(String, V)>)
    requires
        sorted_names(entries),
    ensures
        distinct_names(entries),
{
    assert forall|i: int, j: int| 0 <= i < j < entries.len() implies entries[i].0@
        != entries[j].0@ by {
        lemma_name_order(entries[i].0@, entries[j].0@, entries[j].0@);
    }
}

/// The map that a list of entries stands for. Where a name occurs twice the
/// later entry counts.
pub open spec fn entries_map<V: DeepView>(entries: Seq<(String, V)>) -> Map<Seq<char>, V::V>
    decreases entries.len(),
{
    if entries.len() == 0 {
        Map::empty()
    } else {
        entries_map(entries.drop_last()).insert(entries.last().0@, entries.last().1.deep_view())
    }
}

/// The names that a map of entries holds are the names of the entries, and
/// under each the value of the entry that bears it.
pub proof fn lemma_entries_map<V: DeepView>(entries: Seq<(String, V)>)
    ensures
        entries_map(entries).dom().finite(),
        forall|k: Seq<char>| #[trigger]
            entries_map(entries).dom().contains(k) <==> exists|i: int|
                0 <= i < entries.len() && #[trigger] entries[i].0@ == k,
        distinct_names(entries) ==> entries_map(entries).dom().len() == entries.len(),
        distinct_names(entries) ==> forall|i: int|
            0 <= i < entries.len() ==> #[trigger] entries_map(entries)[entries[i].0@]
                == entries[i].1.deep_view(),
    decreases entries.len(),
{
    if entries.len() > 0 {
        let front = entries.drop_last();
        lemma_entries_map(front);
        assert forall|k: Seq<char>|
            (exists|i: int|
                0 <= i < entries.len() && #[trigger] entries[i].0@ == k) implies #[trigger] entries_map(
            entries,
        ).dom().contains(k) by {
            let i = choose|i: int| 0 <= i < entries.len() && #[trigger] entries[i].0@ == k;
            if i < front.len() {
                assert(front[i].0@ == k);
            }
        }
        if distinct_names(entries) {
            assert forall|i: int| 0 <= i < entries.len() implies #[trigger] entries_map(
                entries,
            )[entries[i].0@] == entries[i].1.deep_view() by {
                if i < front.len() {
                    assert(front[i].0@ == entries[i].0@);
                }
            }
        }
    }
}

/// Two lists of entries in the order of their names that stand for one map
/// are one list: the same names with the same values at the same places.
pub proof fn entries_of_one_map<V: DeepView>(a: Seq<(String, V)>, b: Seq<(String, V)>)
    requires
        sorted_names(a),
        sorted_names(b),
        entries_map(a) == entries_map(b),
    ensures
        a.len() == b.len(),
        forall|i: int|
            0 <= i < a.len() ==> (#[trigger] a[i]).0@ == b[i].0@ && a[i].1.deep_view()
                == b[i].1.deep_view(),
    decreases a.len(),
{
    lemma_sorted_names(a);
    lemma_sorted_names(b);
    lemma_entries_map(b);
    if a.len() > 0 {
        let n = a.len() - 1;
        let last_a = a[n].0@;
        let last_b = b[n].0@;
        // The last name of each list is in the other list, at the last
        // place or before it.
        lemma_name_order(last_a, last_b, last_a);
        assert(entries_map(a)[a[n].0@] == a[n].1.deep_view());
        let front_a = a.drop_last();
        let front_b = b.drop_last();
        lemma_entries_map(front_a);
        lemma_entries_map(front_b);
        assert(entries_map(front_a) =~= entries_map(a).remove(last_a));
        assert(entries_map(front_b) =~= entries_map(b).remove(last_b));
        entries_of_one_map(front_a, front_b);
        assert forall|k: int| 0 <= k < a.len() implies (#[trigger] a[k]).0@ == b[k].0@
            && a[k].1.deep_view() == b[k].1.deep_view() by {
            if k < n {
                assert(front_a[k] == a[k]);
            }
        }
    }
}

impl<V: DeepView> DeepView for Dictionary<V> {
    type V = Map<Seq<char>, V::V>;

    closed spec fn deep_view(&self) -> Map<Seq<char>, V::V> {
        entries_map(self.entries@)
    }
}

impl<V> Dictionary<V> {
    #[verifier::type_invariant]
    spec fn names_in_order(self) -> bool {
        sorted_names(self.entries@)
    }
}

impl<V: Clone> Clone for Dictionary<V> {
    fn clone(&self) -> (r: Self) {
        proof {
            use_type_invariant(self);
        }
        let mut entries: Vec<(String, V)> = Vec::new();
        let mut i: usize = 0;
        while i < self.entries.len()
            invariant
                i <= self.entries@.len(),
                entries@.len() == i,
                forall|j: int| 0 <= j < i ==> entries@[j].0@ == self.entries@[j].0@,
                sorted_names(self.entries@),
            decreases self.entries@.len() - i,
        {
            entries.push((self.entries[i].0.clone(), self.entries[i].1.clone()));
            i += 1;
        }
        Dictionary { entries }
    }
}

impl<V: DeepView> Dictionary<V> {
    /// The empty map.
    pub fn new() -> (r: Self)
        ensures
            r.deep_view() == Map::<Seq<char>, V::V>::empty(),
    {
        Dictionary { entries: Vec::new() }
    }

    /// The number of names.
    pub fn len(&self) -> (n: usize)
        ensures
            self.deep_view().dom().finite(),
            n == self.deep_view().dom().len(),
    {
        proof {
            use_type_invariant(self);
            lemma_sorted_names(self.entries@);
            lemma_entries_map(self.entries@);
        }
        self.entries.len()
    }

    /// Whether the map holds no name.
    pub fn is_empty(&self) -> (r: bool)
        ensures
            r == (self.deep_view() == Map::<Seq<char>, V::V>::empty()),
    {
        proof {
            use_type_invariant(self);
            lemma_sorted_names(self.entries@);
            lemma_entries_map(self.entries@);
        }
        self.entries.len() == 0
    }

    /// The place of `name` among the entries, or else the place at which it
    /// belongs: after the entries whose names come before it, and before
    /// the others.
    fn locate(&self, name: &str) -> (r: Result<usize, usize>)
        ensures
            match r {
                Ok(i) => i < self.entries@.len() && self.entries@[i as int].0@ == name@,
                Err(i) => {
                    &&& i <= self.entries@.len()
                    &&& forall|j: int|
                        0 <= j < i ==> name_before(#[trigger] self.entries@[j].0@, name@)
                    &&& forall|j: int|
                        i <= j < self.entries@.len() ==> name_before(
                            name@,
                            #[trigger] self.entries@[j].0@,
                        )
                },
            },
    {
        proof {
            use_type_invariant(self);
        }
        let mut i: usize = 0;
        while i < self.entries.len()
            invariant
                i <= self.entries@.len(),
                sorted_names(self.entries@),
                forall|j: int| 0 <= j < i ==> name_before(#[trigger] self.entries@[j].0@, name@),
            decreases self.entries@.len() - i,
        {
            let here = self.entries[i].0.as_str();
            if !comes_before(here, name) {
                if same_text(here, name) {
                    return Ok(i);
                }
                proof {
                    assert forall|j: int| i <= j < self.entries@.len() implies name_before(
                        name@,
                        #[trigger] self.entries@[j].0@,
                    ) by {
                        lemma_name_order(name@, here@, self.entries@[j].0@);
                    }
                }
                return Err(i);
            }
            i += 1;
        }
        Err(i)
    }

    /// The place of `name` among the entries.
    fn position(&self, name: &str) -> (r: Option<usize>)
        ensures
            match r {
                Some(i) => i < self.entries@.len() && self.entries@[i as int].0@ == name@,
                None => forall|i: int| 0 <= i < self.entries@.len() ==> self.entries@[i].0@ != name@,
            },
    {
        match self.locate(name) {
            Ok(i) => Some(i),
            Err(_) => {
                proof {
                    lemma_name_order(name@, name@, name@);
                }
                None
            },
        }
    }

    /// Whether the map holds `name`.
    pub fn contains_key(&self, name: &str) -> (r: bool)
        ensures
            r == self.deep_view().dom().contains(name@),
    {
        proof {
            use_type_invariant(self);
            lemma_entries_map(self.entries@);
        }
        self.position(name).is_some()
    }

    /// The value under `name`, if the map holds that name.
    pub fn get(&self, name: &str) -> (r: Option<&V>)
        ensures
            match r {
                Some(v) => self.deep_view().dom().contains(name@) && self.deep_view()[name@]
                    == v.deep_view(),
                None => !self.deep_view().dom().contains(name@),
            },
    {
        proof {
            use_type_invariant(self);
            lemma_sorted_names(self.entries@);
            lemma_entries_map(self.entries@);
        }
        match self.position(name) {
            Some(i) => Some(&self.entries[i].1),
            None => None,
        }
    }

    /// Puts `value` under `name`, in place of the value that was there.
    pub fn insert(&mut self, name: String, value: V)
        ensures
            final(self).deep_view() == old(self).deep_view().insert(name@, value.deep_view()),
    {
        proof {
            use_type_invariant(&*self);
            lemma_sorted_names(self.entries@);
            lemma_entries_map(self.entries@);
        }
        let ghost before = self.entries@;
        let place = self.locate(name.as_str());
        let mut entries: Vec<(String, V)> = Vec::new();
        core::mem::swap(&mut self.entries, &mut entries);
        match place {
            Ok(i) => {
                entries.set(i, (name, value));
                proof {
                    let after = entries@;
                    lemma_entries_map(after);
                    assert(entries_map(after) =~= entries_map(before).insert(
                        name@,
                        value.deep_view(),
                    )) by {
                        assert forall|k: Seq<char>|
                            entries_map(before).insert(name@, value.deep_view()).dom().contains(
                                k,
                            ) implies #[trigger] entries_map(after).dom().contains(k) by {
                            if k == name@ {
                                assert(after[i as int].0@ == k);
                            } else {
                                let j = choose|j: int|
                                    0 <= j < before.len() && #[trigger] before[j].0@ == k;
                                assert(after[j].0@ == k);
                            }
                        }
                    }
                }
            },
            Err(at) => {
                entries.insert(at, (name, value));
                proof {
                    let after = entries@;
                    let i = at as int;
                    lemma_name_order(name@, name@, name@);
                    lemma_entries_map(after);
                    assert(entries_map(after) =~= entries_map(before).insert(
                        name@,
                        value.deep_view(),
                    )) by {
                        assert forall|k: Seq<char>|
                            entries_map(before).insert(name@, value.deep_view()).dom().contains(
                                k,
                            ) implies #[trigger] entries_map(after).dom().contains(k) by {
                            if k == name@ {
                                assert(after[i].0@ == k);
                            } else {
                                let j = choose|j: int|
                                    0 <= j < before.len() && #[trigger] before[j].0@ == k;
                                let j1 = if j < i { j } else { j + 1 };
                                assert(after[j1].0@ == k);
                            }
                        }
                    }
                }
            },
        }
        core::mem::swap(&mut self.entries, &mut entries);
    }

    /// Takes `name` and its value out of the map.
    pub fn remove(&mut self, name: &str) -> (r: Option<V>)
        ensures
            final(self).deep_view() == old(self).deep_view().remove(name@),
            match r {
                Some(v) => old(self).deep_view().dom().contains(name@) && old(self).deep_view()[name@]
                    == v.deep_view(),
                None => !old(self).deep_view().dom().contains(name@),
            },
    {
        proof {
            use_type_invariant(&*self);
            lemma_sorted_names(self.entries@);
            lemma_entries_map(self.entries@);
        }
        let ghost before = self.entries@;
        match self.position(name) {
            Some(i) => {
                let mut entries: Vec<(String, V)> = Vec::new();
                core::mem::swap(&mut self.entries, &mut entries);
                let taken = entries.remove(i);
                proof {
                    let after = entries@;
                    lemma_entries_map(after);
                    assert(entries_map(after) =~= entries_map(before).remove(name@)) by {
                        assert forall|k: Seq<char>|
                            entries_map(before).remove(name@).dom().contains(
                                k,
                            ) implies #[trigger] entries_map(after).dom().contains(k) by {
                            let j = choose|j: int|
                                0 <= j < before.len() && #[trigger] before[j].0@ == k;
                            let j1 = if j < i { j } else { j - 1 };
                            assert(after[j1].0@ == k);
                        }
                    }
                }
                core::mem::swap(&mut self.entries, &mut entries);
                Some(taken.1)
            },
            None => {
                None
            },
        }
    }

    /// Gives up the entries, in the order of their names.
    pub fn into_entries(self) -> (r: Vec<(String, V)>)
        ensures
            sorted_names(r@),
            distinct_names(r@),
            entries_map(r@) == self.deep_view(),
    {
        proof {
            use_type_invariant(&self);
            lemma_sorted_names(self.entries@);
        }
        self.entries
    }

    /// Puts every entry of `other` into the map, in place of what was there
    /// under the same name.
    pub fn extend(&mut self, other: Dictionary<V>)
        ensures
            final(self).deep_view() == old(self).deep_view().union_prefer_right(other.deep_view()),
    {
        let entries = other.into_entries();
        let ghost start = self.deep_view();
        for entry in it: entries.into_iter()
            invariant
                it.seq() == entries@,
                self.deep_view() == start.union_prefer_right(
                    entries_map(entries@.take(it.index() as int)),
                ),
        {
            let ghost done = entries@.take(it.index() as int);
            let ghost next = entries@.take(it.index() + 1);
            assert(next.drop_last() == done);
            self.insert(entry.0, entry.1);
        }
        assert(entries@.take(entries@.len() as int) == entries@);
    }
}

} // verus!

