use std::sync::Arc;
use std::sync::Mutex;

use vstd::prelude::*;

use crate::index::{GenIndex, IndexModel};
use crate::number::IndexNumber;

verus! {

#[verifier::external_type_specification]
#[verifier::external_body]
#[verifier::reject_recursive_types(T)]
pub struct ExMutex<T: ?Sized>(Mutex<T>);

/// Relies on std's `Mutex::new`: it wraps the value in an unlocked mutex.
/// Nothing is stated of the result, which Verus cannot look into.
pub assume_specification<T>[ Mutex::<T>::new ](t: T) -> Mutex<T>;

/// The state of an allocator, as numbers: the next slot that was never
/// handed out, and the retired indices in the order they were retired.
pub struct AllocatorModel {
    pub next_slot: nat,
    pub retired: Seq<IndexModel>,
}

impl AllocatorModel {
    /// A new allocator: no slot handed out, nothing retired.
    pub open spec fn initial() -> AllocatorModel {
        AllocatorModel { next_slot: 0, retired: Seq::empty() }
    }

    /// The index that the next allocation hands out: a fresh slot of
    /// generation zero when nothing is retired, else the most recently
    /// retired index with its generation advanced by one.
    pub open spec fn allocated(self) -> IndexModel {
        if self.retired.len() == 0 {
            IndexModel { slot: self.next_slot, generation: 0 }
        } else {
            IndexModel {
                slot: self.retired.last().slot,
                generation: self.retired.last().generation + 1,
            }
        }
    }

    /// The state after an allocation.
    pub open spec fn after_allocate(self) -> AllocatorModel {
        if self.retired.len() == 0 {
            AllocatorModel { next_slot: self.next_slot + 1, retired: self.retired }
        } else {
            AllocatorModel { next_slot: self.next_slot, retired: self.retired.drop_last() }
        }
    }

    /// The state after `gi` is retired.
    pub open spec fn after_retire(self, gi: IndexModel) -> AllocatorModel {
        AllocatorModel { next_slot: self.next_slot, retired: self.retired.push(gi) }
    }
}

/// The allocator's state: a counter of slots handed out and a stack of
/// retired indices waiting to be reused.
///
/// Share it between threads through the handle that `new` returns.
pub struct GenIndexEntitySet<I: IndexNumber, G: IndexNumber> {
    index_note: I,
    deleted: Vec<GenIndex<I, G>>,
}

impl<I: IndexNumber, G: IndexNumber> View for GenIndexEntitySet<I, G> {
    type V = AllocatorModel;

    open spec fn view(&self) -> AllocatorModel {
        AllocatorModel {
            next_slot: self.spec_counter().value(),
            retired: self.spec_retired().map_values(|g: GenIndex<I, G>| g@),
        }
    }
}

impl<I: IndexNumber, G: IndexNumber> GenIndexEntitySet<I, G> {
    /// The counter of fresh slots.
    pub closed spec fn spec_counter(&self) -> I {
        self.index_note
    }

    /// The retired indices, the most recent last.
    pub closed spec fn spec_retired(&self) -> Seq<GenIndex<I, G>> {
        self.deleted@
    }

    /// Whether the next allocation can be made within the integer types:
    /// the counter, or the generation of the index to be reused, is below
    /// its type's largest value.
    pub open spec fn allocatable(&self) -> bool {
        if self.spec_retired().len() == 0 {
            self.spec_counter().has_successor()
        } else {
            self.spec_retired().last().spec_generation().has_successor()
        }
    }

    /// A new allocator, not shared.
    pub fn empty() -> (r: Self)
        ensures
            r@ == AllocatorModel::initial(),
    {
        let r = GenIndexEntitySet { index_note: I::zero(), deleted: Vec::new() };
        proof {
            assert(r@.retired =~= Seq::<IndexModel>::empty());
        }
        r
    }

    /// A new allocator behind a mutex, to be shared between threads.
    ///
    /// The state inside is the one `empty` makes.
    pub fn new() -> Arc<Mutex<GenIndexEntitySet<I, G>>> {
        Arc::new(Mutex::new(Self::empty()))
    }

    /// Tests `allocatable`.
    pub fn can_allocate(&self) -> (r: bool)
        ensures
            r == self.allocatable(),
    {
        if self.deleted.len() == 0 {
            self.index_note.has_next()
        } else {
            self.deleted[self.deleted.len() - 1].get_generation().has_next()
        }
    }

    /// Hands out an index: the most recently retired one with its
    /// generation advanced by one, or a fresh slot of generation zero when
    /// nothing is retired.
    pub fn next_index(&mut self) -> (r: GenIndex<I, G>)
        requires
            old(self).allocatable(),
        ensures
            r@ == old(self)@.allocated(),
            final(self)@ == old(self)@.after_allocate(),
            old(self)@.retired.len() == 0 ==> r@.slot >= old(self)@.next_slot && r@.generation
                == 0,
            old(self).spec_retired().len() == 0 ==> final(self).spec_retired() == old(
                self,
            ).spec_retired(),
            old(self).spec_retired().len() > 0 ==> final(self).spec_retired() == old(
                self,
            ).spec_retired().drop_last() && final(self).spec_counter() == old(self).spec_counter(),
    {
        if self.deleted.len() == 0 {
            let g = GenIndex::new(self.index_note, G::zero());
            self.index_note.step();
            proof {
                assert(self@.retired =~= old(self)@.retired);
            }
            g
        } else {
            let ghost before = self.deleted@;
            let last = self.deleted.pop().unwrap();
            let mut generation = last.get_generation();
            generation.step();
            proof {
                assert(before.map_values(|g: GenIndex<I, G>| g@).last() == last@);
                assert(self@.retired =~= old(self)@.retired.drop_last());
            }
            GenIndex::new(last.get_index(), generation)
        }
    }

    /// Retires `gi`, making it the first to be reused. Every index is
    /// accepted, and the result is always `Ok`.
    ///
    /// Nothing is checked: an index retired twice, or one this allocator
    /// never handed out, is reused all the same, so that two live handles
    /// may come out equal. Retiring each live index exactly once is the
    /// caller's part.
    pub fn delete_index(&mut self, gi: GenIndex<I, G>) -> (r: Result<(), &'static str>)
        ensures
            r is Ok,
            final(self)@ == old(self)@.after_retire(gi@),
            final(self).spec_retired() == old(self).spec_retired().push(gi),
            final(self).spec_counter() == old(self).spec_counter(),
    {
        self.deleted.push(gi);
        proof {
            assert(self@.retired =~= old(self)@.retired.push(gi@));
        }
        Ok(())
    }
}

} // verus!
