//! The family table of a backend factory: which backend families have a constructor, and in
//! which slot. Registering a family again replaces its constructor in place; asking for a
//! family that was never registered is refused.
use vstd::prelude::*;

use crate::error::BackendConstructError;
use crate::types::shared::strings_view;

verus! {

/// The registered family names, each once, in the order they were first registered; the
/// constructor of the family at position `i` sits in slot `i`.
pub struct FamilyTable {
    names: Vec<String>,
}

impl View for FamilyTable {
    type V = Seq<Seq<char>>;

    closed spec fn view(&self) -> Seq<Seq<char>> {
        strings_view(self.names@)
    }
}

/// No family occurs twice.
pub open spec fn distinct_names(s: Seq<Seq<char>>) -> bool {
    forall|i: int, j: int| 0 <= i < j < s.len() ==> s[i] != s[j]
}

impl FamilyTable {
    /// Each family is registered once.
    #[verifier::type_invariant]
    spec fn wf(&self) -> bool {
        distinct_names(self@)
    }

    /// A table with no family.
    pub fn new() -> (r: Self)
        ensures
            r@ == Seq::<Seq<char>>::empty(),
    {
        let r = FamilyTable { names: Vec::new() };
        assert(r@ =~= Seq::<Seq<char>>::empty());
        r
    }

    /// The registered families, in slot order.
    pub fn names(&self) -> (r: &Vec<String>)
        ensures
            strings_view(r@) == self@,
            distinct_names(self@),
    {
        proof {
            use_type_invariant(self);
        }
        &self.names
    }

    /// The slot of `family`, or `UnknownFamily` when no constructor is registered for it.
    pub fn lookup(&self, family: &str) -> (r: Result<usize, BackendConstructError>)
        ensures
            r is Err <==> !self@.contains(family@),
            r matches Ok(i) ==> i < self@.len() && self@[i as int] == family@,
            r matches Err(e) ==> e matches BackendConstructError::UnknownFamily { family: f } && f@ == family@,
    {
        let wanted = family.to_owned();
        let n = self.names.len();
        let mut i: usize = 0;
        while i < n
            invariant
                n == self.names@.len(),
                n == self@.len(),
                wanted@ == family@,
                i <= n,
                forall|j: int| 0 <= j < i ==> self@[j] != family@,
            decreases n - i,
        {
            proof {
                assert(self@[i as int] == self.names@[i as int]@);
            }
            if self.names[i] == wanted {
                return Ok(i);
            }
            i = i + 1;
        }
        proof {
            if self@.contains(family@) {
                let k = choose|k: int| 0 <= k < self@.len() && self@[k] == family@;
                assert(self@[k] != family@);
            }
        }
        Err(BackendConstructError::unknown_family(family))
    }

    /// Registers `family` and returns its slot: the slot it already has, with the table
    /// unchanged, or a new last slot.
    pub fn register(&mut self, family: &str) -> (slot: usize)
        ensures
            old(self)@.contains(family@) ==> final(self)@ == old(self)@ && slot < old(self)@.len()
                && old(self)@[slot as int] == family@,
            !old(self)@.contains(family@) ==> final(self)@ == old(self)@.push(family@) && slot
                == old(self)@.len(),
    {
        proof {
            use_type_invariant(&*self);
        }
        match self.lookup(family) {
            Ok(i) => i,
            Err(_) => {
                let slot = self.names.len();
                let ghost before = self@;
                let mut names: Vec<String> = Vec::new();
                std::mem::swap(&mut names, &mut self.names);
                assert(strings_view(names@) == before);
                names.push(family.to_owned());
                assert(strings_view(names@) =~= before.push(family@));
                assert forall|i: int, j: int|
                    0 <= i < j < strings_view(names@).len() implies strings_view(names@)[i]
                    != strings_view(names@)[j] by {
                    if j == before.len() {
                        assert(before[i] == strings_view(names@)[i]);
                    }
                }
                self.names = names;
                slot
            },
        }
    }
}

} // verus!
