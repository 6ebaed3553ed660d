use vstd::prelude::*;

use crate::number::IndexNumber;
use vstd::std_specs::cmp::PartialEqSpec;

verus! {

/// What a generational index stands for: a slot and a generation.
pub struct IndexModel {
    pub slot: nat,
    pub generation: nat,
}

/// The key handed out by the allocator.
///
/// `index` names the slot; `generation` tells apart the successive uses of
/// that slot, so that a handle kept past retirement no longer matches.
#[derive(Hash, Debug, Copy, Clone)]
pub struct GenIndex<I: IndexNumber, G: IndexNumber> {
    index: I,
    generation: G,
}

impl<I: IndexNumber, G: IndexNumber> View for GenIndex<I, G> {
    type V = IndexModel;

    open spec fn view(&self) -> IndexModel {
        IndexModel { slot: self.spec_index().value(), generation: self.spec_generation().value() }
    }
}

impl<I: IndexNumber, G: IndexNumber> GenIndex<I, G> {
    /// The slot held.
    pub closed spec fn spec_index(self) -> I {
        self.index
    }

    /// The generation held.
    pub closed spec fn spec_generation(self) -> G {
        self.generation
    }

    /// The index with the given slot and generation.
    pub fn new(index: I, generation: G) -> (r: Self)
        ensures
            r.spec_index() == index,
            r.spec_generation() == generation,
    {
        GenIndex { index, generation }
    }

    /// The slot of this index.
    pub fn get_index(&self) -> (r: I)
        ensures
            r == self.spec_index(),
    {
        self.index
    }

    /// The generation of this index.
    pub fn get_generation(&self) -> (r: G)
        ensures
            r == self.spec_generation(),
    {
        self.generation
    }

}

impl<I: IndexNumber, G: IndexNumber> PartialEq for GenIndex<I, G> {
    fn eq(&self, other: &Self) -> (r: bool) {
        self.index.same_value(&other.index) && self.generation.same_value(&other.generation)
    }
}

impl<I: IndexNumber, G: IndexNumber> vstd::std_specs::cmp::PartialEqSpecImpl for GenIndex<I, G> {
    open spec fn obeys_eq_spec() -> bool {
        true
    }

    open spec fn eq_spec(&self, other: &Self) -> bool {
        self@ == other@
    }
}

impl<I: IndexNumber, G: IndexNumber> Eq for GenIndex<I, G> {

}

/// Two indices are equal exactly when their slots are equal and their
/// generations are equal.
pub proof fn lemma_equal_iff_fields_equal<I: IndexNumber, G: IndexNumber>(
    a: GenIndex<I, G>,
    b: GenIndex<I, G>,
)
    ensures
        a.eq_spec(&b) <==> (a@.slot == b@.slot && a@.generation == b@.generation),
{
}

} // verus!
