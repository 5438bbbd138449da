//! The SIMD probe families a machine knows, and the one it prefers.
use crate::text::{chars_of, to_lower};
use vstd::prelude::*;

verus! {

/// One probe family.
#[derive(Debug, Clone, PartialEq, Eq)]
pub struct SimdFamily {
    pub name: String,
    /// Whether this processor can run it.
    pub available: bool,
}

/// Every family, and the place of the widest that can be run.
#[derive(Debug, Clone, PartialEq, Eq)]
pub struct SimdCatalogue {
    pub families: Vec<SimdFamily>,
    pub widest: Option<usize>,
}

impl SimdCatalogue {
    /// Whether the family at a place can be run.
    pub open spec fn runs(self, i: usize) -> bool {
        i < self.families@.len() && self.families@[i as int].available
    }

    /// The widest family, if it is one that can be run.
    pub open spec fn preferred(self) -> Option<usize> {
        match self.widest {
            Some(i) => if self.runs(i) {
                Some(i)
            } else {
                None
            },
            None => None,
        }
    }

    /// Whether the family at a place can be run.
    pub fn is_available(&self, i: usize) -> (available: bool)
        ensures
            available == self.runs(i),
    {
        i < self.families.len() && self.families[i].available
    }

    /// The widest family that can be run.
    pub fn best(&self) -> (family: Option<usize>)
        ensures
            family == self.preferred(),
    {
        match self.widest {
            Some(i) => if self.is_available(i) {
                Some(i)
            } else {
                None
            },
            None => None,
        }
    }

    /// The name of a family, or of there being none.
    pub open spec fn name_of(self, family: Option<usize>) -> Seq<char> {
        match family {
            Some(i) => self.families@[i as int].name@,
            None => "none"@,
        }
    }

    /// The name of a family, or `none`.
    pub fn label(&self, family: Option<usize>) -> (name: &str)
        requires
            family matches Some(i) ==> i < self.families@.len(),
        ensures
            name@ == self.name_of(family),
    {
        match family {
            Some(i) => self.families[i].name.as_str(),
            None => "none",
        }
    }

    /// Where a name first stands in the list, whatever its capitals.
    pub open spec fn place(self, name: Seq<char>) -> Option<int> {
        first_named(names(self.families@), name, 0)
    }

    /// Finds a family by its name, whatever its capitals.
    pub fn find(&self, name: &str) -> (family: Option<usize>)
        ensures
            match family {
                Some(i) => self.place(name@) == Some(i as int) && i < self.families@.len(),
                None => self.place(name@) is None,
            },
    {
        let mut i: usize = 0;
        while i < self.families.len()
            invariant
                i <= self.families.len(),
                self.place(name@) == first_named(names(self.families@), name@, i as int),
            decreases self.families.len() - i,
        {
            if same_ignoring_case(self.families[i].name.as_str(), name) {
                return Some(i);
            }
            i = i + 1;
        }
        None
    }
}

/// The names of a list of families.
pub open spec fn names(families: Seq<SimdFamily>) -> Seq<Seq<char>> {
    families.map_values(|f: SimdFamily| f.name@)
}

/// The first place, from `from` on, that holds a name whatever its capitals.
pub open spec fn first_named(all: Seq<Seq<char>>, name: Seq<char>, from: int) -> Option<int>
    decreases all.len() - from,
{
    if from < 0 || from >= all.len() {
        None
    } else if crate::text::lowered(all[from]) == crate::text::lowered(name) {
        Some(from)
    } else {
        first_named(all, name, from + 1)
    }
}

/// A name is found inside the list, at a family that bears it.
pub proof fn lemma_place(catalogue: SimdCatalogue, name: Seq<char>)
    ensures
        catalogue.place(name) matches Some(i) ==> 0 <= i < catalogue.families@.len()
            && crate::text::lowered(catalogue.families@[i].name@) == crate::text::lowered(name),
{
    lemma_first_named(names(catalogue.families@), name, 0);
}

proof fn lemma_first_named(all: Seq<Seq<char>>, name: Seq<char>, from: int)
    requires
        0 <= from,
    ensures
        first_named(all, name, from) matches Some(i) ==> from <= i < all.len()
            && crate::text::lowered(all[i]) == crate::text::lowered(name),
    decreases all.len() - from,
{
    if from < all.len() {
        lemma_first_named(all, name, from + 1);
    }
}

/// Whether two texts are the same but for ASCII capitals.
pub fn same_ignoring_case(a: &str, b: &str) -> (equal: bool)
    ensures
        equal == (crate::text::lowered(a@) == crate::text::lowered(b@)),
{
    let left: Vec<char> = chars_of(a);
    let right: Vec<char> = chars_of(b);
    let small_left: Vec<char> = to_lower(left.as_slice());
    let small_right: Vec<char> = to_lower(right.as_slice());
    if small_left.len() != small_right.len() {
        return false;
    }
    let mut i: usize = 0;
    while i < small_left.len()
        invariant
            i <= small_left.len(),
            small_left.len() == small_right.len(),
            small_left@ == crate::text::lowered(a@),
            small_right@ == crate::text::lowered(b@),
            forall|k: int| 0 <= k < i ==> small_left@[k] == small_right@[k],
        decreases small_left.len() - i,
    {
        if small_left[i] != small_right[i] {
            assert(small_left@[i as int] != small_right@[i as int]);
            return false;
        }
        i = i + 1;
    }
    assert(small_left@ =~= small_right@);
    true
}

} // verus!
