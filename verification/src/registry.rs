//! A table from names to values that remembers the order in which the names
//! came.
//!
//! The table is a list of entries and not a hash map. Its names can be
//! listed, and in an order that is the same on every run; and that no name
//! occurs twice is an invariant that is proved here, where the behaviour of
//! a hash map under string keys could only be taken on trust.

use crate::text::views;
use vstd::prelude::*;
use vstd::string::StringExecFns;

verus! {

/// `names` without every occurrence of `name`.
pub open spec fn without(names: Seq<Seq<char>>, name: Seq<char>) -> Seq<Seq<char>>
    decreases names.len(),
{
    if names.len() == 0 {
        Seq::empty()
    } else if names.last() == name {
        without(names.drop_last(), name)
    } else {
        without(names.drop_last(), name).push(names.last())
    }
}

/// A table from names to values. No name occurs twice.
pub struct Registry<T> {
    entries: Vec<(String, T)>,
}

/// Whether the names of `entries` are pairwise distinct.
spec fn distinct_names<T>(entries: Seq<(String, T)>) -> bool {
    forall|i: int, j: int| 0 <= i < j < entries.len() ==> entries[i].0@ != entries[j].0@
}

/// Whether `i` is the place of `name` in `entries`.
spec fn place<T>(entries: Seq<(String, T)>, name: Seq<char>, i: int) -> bool {
    0 <= i < entries.len() && entries[i].0@ == name
}

/// The place of `name` in `entries`, if it has one.
spec fn index_of<T>(entries: Seq<(String, T)>, name: Seq<char>) -> int {
    choose|i: int| place(entries, name, i)
}

/// The names of `entries`, in order.
spec fn names_of<T>(entries: Seq<(String, T)>) -> Seq<Seq<char>> {
    Seq::new(entries.len(), |i: int| entries[i].0@)
}

/// What `entries` hold under each name.
spec fn table_of<T>(entries: Seq<(String, T)>) -> Map<Seq<char>, T> {
    Map::new(
        |name: Seq<char>| exists|i: int| place(entries, name, i),
        |name: Seq<char>| entries[index_of(entries, name)].1,
    )
}

/// Where the names of the entries are distinct, no name occurs twice among
/// the names.
proof fn lemma_distinct<T>(entries: Seq<(String, T)>)
    requires
        distinct_names(entries),
    ensures
        names_of(entries).no_duplicates(),
{
    assert forall|i: int, j: int|
        0 <= i < names_of(entries).len() && 0 <= j < names_of(entries).len() && i
            != j implies names_of(entries)[i] != names_of(entries)[j] by {
        if i < j {
            assert(entries[i].0@ != entries[j].0@);
        } else {
            assert(entries[j].0@ != entries[i].0@);
        }
    }
}

/// Where names are distinct, the place of a name is the only one that holds
/// it, and the table gives the value at that place.
proof fn lemma_place<T>(entries: Seq<(String, T)>, i: int)
    requires
        distinct_names(entries),
        0 <= i < entries.len(),
    ensures
        index_of(entries, entries[i].0@) == i,
        table_of(entries).contains_key(entries[i].0@),
        table_of(entries)[entries[i].0@] == entries[i].1,
{
    let name = entries[i].0@;
    assert(place(entries, name, i));
    let w = index_of(entries, name);
    assert(place(entries, name, w));
    if w < i {
        assert(entries[w].0@ != entries[i].0@);
    }
    if i < w {
        assert(entries[i].0@ != entries[w].0@);
    }
}

/// Replacing the value at `i` changes what the table holds under that name
/// and nothing else.
proof fn lemma_replace<T>(before: Seq<(String, T)>, after: Seq<(String, T)>, i: int)
    requires
        distinct_names(before),
        0 <= i < before.len(),
        after == before.update(i, after[i]),
        after[i].0@ == before[i].0@,
    ensures
        distinct_names(after),
        names_of(after) == names_of(before),
        table_of(after) == table_of(before).insert(before[i].0@, after[i].1),
{
    assert forall|a: int, b: int| 0 <= a < b < after.len() implies after[a].0@
        != after[b].0@ by {
        assert(before[a].0@ != before[b].0@);
    }
    assert(names_of(after) =~= names_of(before));
    let goal = table_of(before).insert(before[i].0@, after[i].1);
    assert forall|name: Seq<char>| table_of(after).contains_key(name) <==> goal.contains_key(
        name,
    ) by {
        if table_of(after).contains_key(name) {
            let w = choose|w: int| place(after, name, w);
            assert(place(before, name, w));
        }
        if goal.contains_key(name) {
            if name == before[i].0@ {
                assert(place(after, name, i));
            } else {
                let w = choose|w: int| place(before, name, w);
                assert(place(after, name, w));
            }
        }
    }
    assert forall|name: Seq<char>| table_of(after).contains_key(name) implies table_of(
        after,
    )[name] == goal[name] by {
        let w = choose|w: int| place(after, name, w);
        lemma_place(after, w);
        lemma_place(before, w);
    }
    assert(table_of(after) =~= goal);
}

/// Adding an entry under a new name adds that name at the end and changes
/// nothing else.
proof fn lemma_append<T>(before: Seq<(String, T)>, entry: (String, T))
    requires
        distinct_names(before),
        forall|i: int| !place(before, entry.0@, i),
    ensures
        distinct_names(before.push(entry)),
        names_of(before.push(entry)) == names_of(before).push(entry.0@),
        table_of(before.push(entry)) == table_of(before).insert(entry.0@, entry.1),
{
    let after = before.push(entry);
    assert forall|a: int, b: int| 0 <= a < b < after.len() implies after[a].0@
        != after[b].0@ by {
        if b == before.len() {
            assert(!place(before, entry.0@, a));
        } else {
            assert(before[a].0@ != before[b].0@);
        }
    }
    assert(names_of(after) =~= names_of(before).push(entry.0@));
    let goal = table_of(before).insert(entry.0@, entry.1);
    assert forall|name: Seq<char>| table_of(after).contains_key(name) <==> goal.contains_key(
        name,
    ) by {
        if table_of(after).contains_key(name) {
            let w = choose|w: int| place(after, name, w);
            if w < before.len() {
                assert(place(before, name, w));
            }
        }
        if goal.contains_key(name) {
            if name == entry.0@ {
                assert(place(after, name, before.len() as int));
            } else {
                let w = choose|w: int| place(before, name, w);
                assert(place(after, name, w));
            }
        }
    }
    assert forall|name: Seq<char>| table_of(after).contains_key(name) implies table_of(
        after,
    )[name] == goal[name] by {
        let w = choose|w: int| place(after, name, w);
        lemma_place(after, w);
        if w < before.len() {
            lemma_place(before, w);
        }
    }
    assert(table_of(after) =~= goal);
}

/// Taking out the entry at `i` removes its name and changes nothing else.
proof fn lemma_take_out<T>(before: Seq<(String, T)>, i: int)
    requires
        distinct_names(before),
        0 <= i < before.len(),
    ensures
        distinct_names(before.remove(i)),
        names_of(before.remove(i)) == names_of(before).remove(i),
        table_of(before.remove(i)) == table_of(before).remove(before[i].0@),
{
    let after = before.remove(i);
    let shift = |w: int|
        if w < i {
            w
        } else {
            w + 1
        };
    assert forall|a: int, b: int| 0 <= a < b < after.len() implies after[a].0@
        != after[b].0@ by {
        assert(before[shift(a)].0@ != before[shift(b)].0@);
    }
    assert(names_of(after) =~= names_of(before).remove(i));
    let goal = table_of(before).remove(before[i].0@);
    assert forall|name: Seq<char>| table_of(after).contains_key(name) <==> goal.contains_key(
        name,
    ) by {
        if table_of(after).contains_key(name) {
            let w = choose|w: int| place(after, name, w);
            assert(place(before, name, shift(w)));
            if name == before[i].0@ {
                if shift(w) < i {
                    assert(before[shift(w)].0@ != before[i].0@);
                } else {
                    assert(before[i].0@ != before[shift(w)].0@);
                }
            }
        }
        if goal.contains_key(name) {
            let w = choose|w: int| place(before, name, w);
            if w < i {
                assert(place(after, name, w));
            } else {
                assert(place(after, name, w - 1));
            }
        }
    }
    assert forall|name: Seq<char>| table_of(after).contains_key(name) implies table_of(
        after,
    )[name] == goal[name] by {
        let w = choose|w: int| place(after, name, w);
        lemma_place(after, w);
        lemma_place(before, shift(w));
    }
    assert(table_of(after) =~= goal);
}

impl<T> Registry<T> {
    /// No name occurs twice.
    #[verifier::type_invariant]
    spec fn distinct(self) -> bool {
        distinct_names(self.entries@)
    }

    /// What the table holds under each name.
    pub closed spec fn view(&self) -> Map<Seq<char>, T> {
        table_of(self.entries@)
    }

    /// The names in the table, in the order in which they came.
    pub closed spec fn names(&self) -> Seq<Seq<char>> {
        names_of(self.entries@)
    }

    /// The names in the table are the names under which it holds a value.
    pub proof fn lemma_names(self)
        ensures
            forall|name: Seq<char>| self@.contains_key(name) <==> self.names().contains(name),
    {
        let entries = self.entries@;
        assert forall|name: Seq<char>| self@.contains_key(name) <==> self.names().contains(
            name,
        ) by {
            if self@.contains_key(name) {
                let w = choose|w: int| place(entries, name, w);
                assert(names_of(entries)[w] == name);
            }
            if self.names().contains(name) {
                let w = choose|w: int|
                    0 <= w < names_of(entries).len() && names_of(entries)[w] == name;
                assert(place(entries, name, w));
            }
        }
    }

    /// An empty table.
    pub fn new() -> (out: Self)
        ensures
            out@ == Map::<Seq<char>, T>::empty(),
            out.names() == Seq::<Seq<char>>::empty(),
            out.names().no_duplicates(),
    {
        let out = Registry { entries: Vec::new() };
        assert(out@ =~= Map::<Seq<char>, T>::empty());
        assert(out.names() =~= Seq::<Seq<char>>::empty());
        out
    }

    /// The place of `name` in the table, if it has one.
    fn find(&self, name: &str) -> (out: Option<usize>)
        ensures
            match out {
                Some(i) => place(self.entries@, name@, i as int),
                None => forall|i: int| !place(self.entries@, name@, i),
            },
    {
        let mut i: usize = 0;
        while i < self.entries.len()
            invariant
                i <= self.entries.len(),
                forall|e: int| 0 <= e < i ==> !place(self.entries@, name@, e),
            decreases self.entries.len() - i,
        {
            if self.entries[i].0.as_str().eq(name) {
                return Some(i);
            }
            i += 1;
        }
        None
    }

    /// The number of names in the table.
    pub fn len(&self) -> (out: usize)
        ensures
            out == self.names().len(),
    {
        self.entries.len()
    }

    /// Whether the table holds a value under `name`. No name is listed twice
    /// in the table that was asked.
    pub fn contains(&self, name: &str) -> (out: bool)
        ensures
            out == self@.contains_key(name@),
            self.names().no_duplicates(),
    {
        proof {
            use_type_invariant(self);
            lemma_distinct(self.entries@);
        }
        self.find(name).is_some()
    }

    /// What the table holds under `name`, if anything.
    pub fn get(&self, name: &str) -> (out: Option<&T>)
        ensures
            out is Some <==> self@.contains_key(name@),
            out matches Some(value) ==> *value == self@[name@],
    {
        proof {
            use_type_invariant(self);
        }
        match self.find(name) {
            Some(i) => {
                proof {
                    lemma_place(self.entries@, i as int);
                }
                Some(&self.entries[i].1)
            },
            None => None,
        }
    }

    /// Puts `value` under `name`, in place of what was there if anything
    /// was. A new name comes last in the order of names.
    pub fn insert(&mut self, name: &str, value: T)
        ensures
            final(self)@ == old(self)@.insert(name@, value),
            final(self).names() == if old(self)@.contains_key(name@) {
                old(self).names()
            } else {
                old(self).names().push(name@)
            },
            final(self).names().no_duplicates(),
    {
        proof {
            use_type_invariant(&*self);
        }
        let found = self.find(name);
        let entry = (String::from_str(name), value);
        let mut entries: Vec<(String, T)> = Vec::new();
        std::mem::swap(&mut self.entries, &mut entries);
        match found {
            Some(i) => {
                entries.set(i, entry);
                proof {
                    lemma_replace(old(self).entries@, entries@, i as int);
                }
            },
            None => {
                proof {
                    lemma_append(entries@, entry);
                }
                entries.push(entry);
            },
        }
        self.entries = entries;
        proof {
            use_type_invariant(&*self);
            lemma_distinct(self.entries@);
        }
    }

    /// Takes out what the table holds under `name` and hands it back, if
    /// there is anything.
    pub fn remove(&mut self, name: &str) -> (out: Option<T>)
        ensures
            out == if old(self)@.contains_key(name@) {
                Some(old(self)@[name@])
            } else {
                None
            },
            final(self)@ == old(self)@.remove(name@),
            final(self).names() == without(old(self).names(), name@),
            final(self).names().no_duplicates(),
    {
        proof {
            use_type_invariant(&*self);
            lemma_distinct(self.entries@);
        }
        match self.find(name) {
            Some(i) => {
                let mut entries: Vec<(String, T)> = Vec::new();
                std::mem::swap(&mut self.entries, &mut entries);
                proof {
                    lemma_take_out(entries@, i as int);
                    lemma_place(entries@, i as int);
                    lemma_without_one(entries@, i as int);
                }
                let entry = entries.remove(i);
                self.entries = entries;
                proof {
                    use_type_invariant(&*self);
                    lemma_distinct(self.entries@);
                }
                Some(entry.1)
            },
            None => {
                proof {
                    assert(self@ =~= old(self)@.remove(name@));
                    lemma_without_none(self.entries@, name@);
                }
                None
            },
        }
    }

    /// The names in the table, in the order in which they came. No name is
    /// listed twice, and the names listed are those under which the table
    /// holds a value.
    pub fn list(&self) -> (out: Vec<String>)
        ensures
            views(out@) == self.names(),
            views(out@).no_duplicates(),
            forall|name: Seq<char>| views(out@).contains(name) <==> self@.contains_key(name),
    {
        let mut out: Vec<String> = Vec::new();
        let mut i: usize = 0;
        while i < self.entries.len()
            invariant
                i <= self.entries.len(),
                views(out@) == names_of(self.entries@).take(i as int),
            decreases self.entries.len() - i,
        {
            let ghost before = out@;
            out.push(String::from_str(self.entries[i].0.as_str()));
            i += 1;
            assert(views(out@) =~= views(before).push(self.entries@[i - 1].0@));
            assert(names_of(self.entries@).take(i as int) =~= names_of(self.entries@).take(
                i - 1,
            ).push(self.entries@[i - 1].0@));
        }
        proof {
            assert(names_of(self.entries@).take(self.entries.len() as int) =~= names_of(
                self.entries@,
            ));
            use_type_invariant(self);
            lemma_distinct(self.entries@);
            self.lemma_names();
            assert forall|name: Seq<char>| views(out@).contains(name) <==> self@.contains_key(
                name,
            ) by {
                assert(self@.contains_key(name) <==> self.names().contains(name));
            }
        }
        out
    }
}

/// Where names are distinct, the names without the one at `i` are the names
/// without place `i`.
proof fn lemma_without_one<T>(entries: Seq<(String, T)>, i: int)
    requires
        distinct_names(entries),
        0 <= i < entries.len(),
    ensures
        without(names_of(entries), entries[i].0@) == names_of(entries).remove(i),
    decreases entries.len(),
{
    let name = entries[i].0@;
    let names = names_of(entries);
    let last = entries.len() - 1;
    let shorter = entries.drop_last();
    assert(names.drop_last() =~= names_of(shorter));
    if i == last {
        assert forall|e: int| !place(shorter, name, e) by {
            if 0 <= e < shorter.len() {
                assert(entries[e].0@ != entries[i].0@);
            }
        }
        lemma_without_none(shorter, name);
        assert(names.remove(i) =~= names.drop_last());
    } else {
        lemma_without_one(shorter, i);
        assert(entries[i].0@ != entries[last].0@);
        assert(names.remove(i) =~= names_of(shorter).remove(i).push(names.last()));
    }
}

/// Where `name` is not among the names, leaving it out leaves out nothing.
proof fn lemma_without_none<T>(entries: Seq<(String, T)>, name: Seq<char>)
    requires
        forall|i: int| !place(entries, name, i),
    ensures
        without(names_of(entries), name) == names_of(entries),
    decreases entries.len(),
{
    let names = names_of(entries);
    if entries.len() > 0 {
        let shorter = entries.drop_last();
        assert(names.drop_last() =~= names_of(shorter));
        assert forall|i: int| !place(shorter, name, i) by {
            assert(!place(entries, name, i));
        }
        lemma_without_none(shorter, name);
        assert(!place(entries, name, entries.len() - 1));
        assert(names =~= names.drop_last().push(names.last()));
    } else {
        assert(names =~= Seq::<Seq<char>>::empty());
    }
}

} // verus!
