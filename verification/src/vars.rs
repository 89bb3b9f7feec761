//! The table of CSS custom properties (`--name: colour`) found in a
//! workspace: each name stands for the colour it was last defined as.

use vstd::prelude::*;

use crate::hex::Rgb;
use crate::text::str_equals;

verus! {

/// Custom property names and their colours, each name at most once.
pub struct CssVars {
    entries: Vec<(String, Rgb)>,
}

impl CssVars {
    #[verifier::type_invariant]
    spec fn names_distinct(self) -> bool {
        forall|i: int, j: int|
            0 <= i < j < self.entries@.len() ==> self.entries@[i].0@ != self.entries@[j].0@
    }

    spec fn slot(self, name: Seq<char>, i: int) -> bool {
        0 <= i < self.entries@.len() && self.entries@[i].0@ == name
    }

    spec fn holds(self, name: Seq<char>) -> bool {
        exists|i: int| self.slot(name, i)
    }

    spec fn slot_of(self, name: Seq<char>) -> int {
        choose|i: int| self.slot(name, i)
    }

    /// An empty table.
    pub fn new() -> (res: CssVars)
        ensures
            res@ == Map::<Seq<char>, Rgb>::empty(),
    {
        let res = CssVars { entries: Vec::new() };
        assert(res@ =~= Map::<Seq<char>, Rgb>::empty());
        res
    }

    fn find(&self, name: &str) -> (res: Option<usize>)
        ensures
            match res {
                Some(i) => self.slot(name@, i as int),
                None => !self.holds(name@),
            },
    {
        let mut i: usize = 0;
        while i < self.entries.len()
            invariant
                0 <= i <= self.entries@.len(),
                forall|k: int| 0 <= k < i ==> !self.slot(name@, k),
            decreases self.entries.len() - i,
        {
            if str_equals(self.entries[i].0.as_str(), name) {
                return Some(i);
            }
            i = i + 1;
        }
        None
    }

    /// The colour `name` stands for, if it is in the table.
    pub fn get(&self, name: &str) -> (res: Option<Rgb>)
        ensures
            res == (if self@.contains_key(name@) {
                Some(self@[name@])
            } else {
                None::<Rgb>
            }),
    {
        proof {
            use_type_invariant(self);
        }
        match self.find(name) {
            Some(i) => {
                proof {
                    let k = self.slot_of(name@);
                    assert(self.slot(name@, k));
                    assert(k == i as int);
                }
                Some(self.entries[i].1)
            },
            None => None,
        }
    }

    /// Makes `name` stand for `color`, replacing what it stood for before.
    pub fn insert(&mut self, name: String, color: Rgb)
        ensures
            final(self)@ == old(self)@.insert(name@, color),
    {
        proof {
            use_type_invariant(&*self);
        }
        let ghost before = *self;
        let ghost key = name@;
        match self.find(name.as_str()) {
            Some(i) => {
                let mut entries = Vec::new();
                std::mem::swap(&mut entries, &mut self.entries);
                entries.set(i, (name, color));
                self.entries = entries;
                proof {
                    assert forall|k: Seq<char>| #[trigger] self.holds(k) == before.holds(k) by {
                        if before.holds(k) {
                            let j = before.slot_of(k);
                            assert(self.slot(k, j));
                        }
                        if self.holds(k) {
                            let j = self.slot_of(k);
                            assert(before.slot(k, j));
                        }
                    }
                    assert forall|k: Seq<char>| self.holds(k) implies self.entries@[self.slot_of(
                        k,
                    )].1 == (if k == key {
                        color
                    } else {
                        before.entries@[before.slot_of(k)].1
                    }) by {
                        let j = self.slot_of(k);
                        let j0 = before.slot_of(k);
                        assert(before.slot(k, j0));
                        assert(self.slot(k, j0));
                    }
                    assert(self@ =~= before@.insert(key, color));
                }
            },
            None => {
                let mut entries = Vec::new();
                std::mem::swap(&mut entries, &mut self.entries);
                entries.push((name, color));
                proof {
                    let n = before.entries@.len() as int;
                    assert forall|i: int, j: int|
                        0 <= i < j < entries@.len() implies entries@[i].0@ != entries@[j].0@ by {
                        if j == n {
                            assert(!before.slot(key, i));
                        } else {
                            assert(entries@[i] == before.entries@[i]);
                            assert(entries@[j] == before.entries@[j]);
                        }
                    }
                }
                self.entries = entries;
                proof {
                    let n = before.entries@.len() as int;
                    assert(self.slot(key, n));
                    assert forall|k: Seq<char>| #[trigger] self.holds(k) == (before.holds(k) || k
                        == key) by {
                        if before.holds(k) {
                            let j = before.slot_of(k);
                            assert(self.slot(k, j));
                        }
                        if self.holds(k) && k != key {
                            let j = self.slot_of(k);
                            assert(before.slot(k, j));
                        }
                    }
                    assert forall|k: Seq<char>| self.holds(k) implies self.entries@[self.slot_of(
                        k,
                    )].1 == (if k == key {
                        color
                    } else {
                        before.entries@[before.slot_of(k)].1
                    }) by {
                        let j = self.slot_of(k);
                        if k == key {
                            assert(j == n);
                        } else {
                            let j0 = before.slot_of(k);
                            assert(before.slot(k, j0));
                            assert(self.slot(k, j0));
                        }
                    }
                    assert(self@ =~= before@.insert(key, color));
                }
            },
        }
    }
}

/// The table `m` after setting each `(name, colour)` of `defs`, in order.
pub open spec fn insert_all(m: Map<Seq<char>, Rgb>, defs: Seq<(Seq<char>, Rgb)>) -> Map<
    Seq<char>,
    Rgb,
>
    decreases defs.len(),
{
    if defs.len() == 0 {
        m
    } else {
        insert_all(m, defs.drop_last()).insert(defs.last().0, defs.last().1)
    }
}

/// The texts of the names of `defs`, with their colours.
pub open spec fn definitions_seen(defs: Seq<(String, Rgb)>) -> Seq<(Seq<char>, Rgb)> {
    defs.map_values(|d: (String, Rgb)| (d.0@, d.1))
}

impl CssVars {
    /// The table built by setting each `(name, colour)` of `defs` in order,
    /// starting from an empty table.
    pub fn from_definitions(defs: &Vec<(String, Rgb)>) -> (res: CssVars)
        ensures
            res@ == insert_all(Map::empty(), definitions_seen(defs@)),
    {
        let mut vars = CssVars::new();
        let ghost seen = definitions_seen(defs@);
        let mut i: usize = 0;
        while i < defs.len()
            invariant
                0 <= i <= defs@.len(),
                seen == definitions_seen(defs@),
                vars@ == insert_all(Map::empty(), seen.take(i as int)),
            decreases defs.len() - i,
        {
            let name = defs[i].0.clone();
            vars.insert(name, defs[i].1);
            assert(seen.take(i + 1).drop_last() =~= seen.take(i as int));
            i = i + 1;
        }
        assert(seen.take(defs@.len() as int) =~= seen);
        vars
    }
}

impl View for CssVars {
    type V = Map<Seq<char>, Rgb>;

    closed spec fn view(&self) -> Map<Seq<char>, Rgb> {
        Map::new(|k: Seq<char>| self.holds(k), |k: Seq<char>| self.entries@[self.slot_of(k)].1)
    }
}

} // verus!
