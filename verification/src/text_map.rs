//! A map from text to text.

use crate::fields;
use crate::text::IntoText;
use vstd::prelude::*;

verus! {

/// The map that a list of named values stands for, when no name occurs twice in it.
pub open spec fn map_of(entries: Seq<fields::Field>) -> Map<Seq<char>, Seq<char>>
    decreases entries.len(),
{
    if entries.len() == 0 {
        Map::empty()
    } else {
        map_of(entries.drop_last()).insert(entries.last().0, entries.last().1)
    }
}

/// Whether no name occurs twice in a list of named values.
pub open spec fn distinct(entries: Seq<fields::Field>) -> bool {
    forall|i: int, j: int|
        0 <= i < j < entries.len() ==> #[trigger] entries[i].0 != #[trigger] entries[j].0
}

/// The value under a name, if there is one.
pub open spec fn lookup(map: Map<Seq<char>, Seq<char>>, name: Seq<char>) -> Option<Seq<char>> {
    if map.contains_key(name) {
        Some(map[name])
    } else {
        None
    }
}

/// A map from text to text: route parameters, or the variables of an environment.
#[derive(Debug)]
pub struct TextMap {
    entries: Vec<(String, String)>,
}

impl View for TextMap {
    type V = Map<Seq<char>, Seq<char>>;

    closed spec fn view(&self) -> Map<Seq<char>, Seq<char>> {
        map_of(fields::listed(self.entries@))
    }
}

pub(crate) proof fn lemma_map_of(entries: Seq<fields::Field>, name: Seq<char>)
    ensures
        map_of(entries).contains_key(name) <==> exists|i: int|
            0 <= i < entries.len() && (#[trigger] entries[i]).0 == name,
        distinct(entries) ==> forall|i: int|
            0 <= i < entries.len() && (#[trigger] entries[i]).0 == name ==> map_of(entries)[name]
                == entries[i].1,
    decreases entries.len(),
{
    if entries.len() > 0 {
        let shorter = entries.drop_last();
        lemma_map_of(shorter, name);
        assert forall|i: int| 0 <= i < shorter.len() implies shorter[i] == #[trigger] entries[i] by {
        }
        if map_of(shorter).contains_key(name) {
            let i = choose|i: int| 0 <= i < shorter.len() && (#[trigger] shorter[i]).0 == name;
            assert(entries[i].0 == name);
        }
    }
}

proof fn lemma_map_of_update(entries: Seq<fields::Field>, i: int, value: Seq<char>)
    requires
        distinct(entries),
        0 <= i < entries.len(),
    ensures
        map_of(entries.update(i, (entries[i].0, value))) == map_of(entries).insert(
            entries[i].0,
            value,
        ),
    decreases entries.len(),
{
    let changed = entries.update(i, (entries[i].0, value));
    if i == entries.len() - 1 {
        assert(changed.drop_last() =~= entries.drop_last());
        assert(map_of(changed) =~= map_of(entries).insert(entries[i].0, value));
    } else {
        lemma_map_of_update(entries.drop_last(), i, value);
        assert(changed.drop_last() =~= entries.drop_last().update(i, (entries[i].0, value)));
        assert(entries.last().0 != entries[i].0);
        assert(map_of(changed) =~= map_of(entries).insert(entries[i].0, value));
    }
}

impl TextMap {
    #[verifier::type_invariant]
    spec fn names_are_distinct(self) -> bool {
        distinct(fields::listed(self.entries@))
    }

    /// Makes an empty map.
    pub fn new() -> (result: Self)
        ensures
            result@ == Map::<Seq<char>, Seq<char>>::empty(),
    {
        TextMap { entries: Vec::new() }
    }

    fn place(&self, name: &String) -> (result: Option<usize>)
        ensures
            match result {
                Some(i) => i < self.entries@.len() && self.entries@[i as int].0@ == name@,
                None => forall|i: int|
                    0 <= i < self.entries@.len() ==> (#[trigger] self.entries@[i]).0@ != name@,
            },
    {
        let mut i: usize = 0;
        while i < self.entries.len()
            invariant
                i <= self.entries@.len(),
                forall|j: int| 0 <= j < i ==> (#[trigger] self.entries@[j]).0@ != name@,
            decreases self.entries@.len() - i,
        {
            if self.entries[i].0 == *name {
                return Some(i);
            }
            i += 1;
        }
        None
    }

    /// The value under a name.
    pub fn get(&self, name: &str) -> (result: Option<&String>)
        ensures
            match result {
                Some(value) => self@.contains_key(name@) && self@[name@] == value@,
                None => !self@.contains_key(name@),
            },
    {
        let wanted = name.to_owned();
        let found = self.place(&wanted);
        proof {
            use_type_invariant(self);
            let entries = fields::listed(self.entries@);
            lemma_map_of(entries, name@);
            match found {
                Some(i) => {
                    assert(entries[i as int].0 == name@);
                },
                None => {
                    assert forall|i: int| 0 <= i < entries.len() implies (#[trigger] entries[i]).0
                        != name@ by {
                        assert(self.entries@[i].0@ != name@);
                    }
                },
            }
        }
        match found {
            Some(i) => Some(&self.entries[i].1),
            None => None,
        }
    }

    /// A copy of the value under a name.
    pub fn value(&self, name: &str) -> (result: Option<String>)
        ensures
            crate::text::optional(result) == lookup(self@, name@),
    {
        match self.get(name) {
            Some(value) => Some(value.clone()),
            None => None,
        }
    }

    /// The names and their values. No name occurs twice.
    pub fn entries(&self) -> (result: &Vec<(String, String)>)
        ensures
            distinct(fields::listed(result@)),
            map_of(fields::listed(result@)) == self@,
    {
        proof {
            use_type_invariant(self);
        }
        &self.entries
    }

    /// Puts a value under a name, and gives back the value that was there.
    pub fn insert<N: IntoText, T: IntoText>(&mut self, name: N, value: T) -> (result: Option<String>)
        ensures
            final(self)@ == old(self)@.insert(name.text(), value.text()),
            match result {
                Some(previous) => old(self)@.contains_key(name.text())
                    && old(self)@[name.text()] == previous@,
                None => !old(self)@.contains_key(name.text()),
            },
    {
        let ghost before = fields::listed(self.entries@);
        let name = name.into_text();
        let value = value.into_text();
        let found = self.place(&name);
        proof {
            use_type_invariant(&*self);
            lemma_map_of(before, name@);
        }
        match found {
            Some(i) => {
                let mut entries: Vec<(String, String)> = Vec::new();
                std::mem::swap(&mut self.entries, &mut entries);
                let previous = entries[i].1.clone();
                entries[i] = (name, value);
                proof {
                    assert(before[i as int].0 == name@);
                    assert(fields::listed(entries@) =~= before.update(
                        i as int,
                        (before[i as int].0, value@),
                    ));
                    lemma_map_of_update(before, i as int, value@);
                }
                self.entries = entries;
                Some(previous)
            },
            None => {
                let mut entries: Vec<(String, String)> = Vec::new();
                std::mem::swap(&mut self.entries, &mut entries);
                proof {
                    assert forall|i: int| 0 <= i < before.len() implies (#[trigger] before[i]).0
                        != name@ by {
                        assert(entries@[i].0@ != name@);
                    }
                }
                entries.push((name, value));
                proof {
                    assert(fields::listed(entries@) =~= before.push((name@, value@)));
                    assert(before.push((name@, value@)).drop_last() =~= before);
                }
                self.entries = entries;
                None
            },
        }
    }
}

impl Clone for TextMap {
    fn clone(&self) -> (result: Self)
        ensures
            result@ == self@,
    {
        proof {
            use_type_invariant(self);
        }
        let entries = fields::copy(&self.entries);
        TextMap { entries }
    }
}

} // verus!
