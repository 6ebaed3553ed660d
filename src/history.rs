use vstd::prelude::*;

use crate::allocator::AllocatorModel;
use crate::index::IndexModel;

verus! {

/// One call on the allocator: an allocation, or the retirement of an index.
pub enum Event {
    Allocate,
    Retire(IndexModel),
}

impl AllocatorModel {
    /// The state after one call.
    pub open spec fn step(self, e: Event) -> AllocatorModel {
        match e {
            Event::Allocate => self.after_allocate(),
            Event::Retire(gi) => self.after_retire(gi),
        }
    }
}

/// The state after the calls of `events`, made one after another from `m`.
pub open spec fn run(m: AllocatorModel, events: Seq<Event>) -> AllocatorModel
    decreases events.len(),
{
    if events.len() == 0 {
        m
    } else {
        run(m, events.drop_last()).step(events.last())
    }
}

/// The indices handed out by the allocations of `events`, in order.
pub open spec fn handed_out(m: AllocatorModel, events: Seq<Event>) -> Seq<IndexModel>
    decreases events.len(),
{
    if events.len() == 0 {
        Seq::empty()
    } else {
        let before = events.drop_last();
        match events.last() {
            Event::Allocate => handed_out(m, before).push(run(m, before).allocated()),
            Event::Retire(_) => handed_out(m, before),
        }
    }
}

/// The slots handed out fresh from the counter (not reused) by the
/// allocations of `events`, in order.
pub open spec fn fresh_slots(m: AllocatorModel, events: Seq<Event>) -> Seq<nat>
    decreases events.len(),
{
    if events.len() == 0 {
        Seq::empty()
    } else {
        let before = events.drop_last();
        if events.last() is Allocate && run(m, before).retired.len() == 0 {
            fresh_slots(m, before).push(run(m, before).next_slot)
        } else {
            fresh_slots(m, before)
        }
    }
}

/// How many allocations `events` holds.
pub open spec fn count_allocations(events: Seq<Event>) -> nat
    decreases events.len(),
{
    if events.len() == 0 {
        0
    } else {
        count_allocations(events.drop_last()) + if events.last() is Allocate {
            1nat
        } else {
            0nat
        }
    }
}

/// How many retirements `events` holds.
pub open spec fn count_retirements(events: Seq<Event>) -> nat
    decreases events.len(),
{
    if events.len() == 0 {
        0
    } else {
        count_retirements(events.drop_last()) + if events.last() is Retire {
            1nat
        } else {
            0nat
        }
    }
}

/// While nothing is retired, allocations hand out the counter's slots in
/// increasing order, each of generation zero, and nothing is reused.
pub proof fn lemma_fresh_allocations_ascend(m: AllocatorModel, events: Seq<Event>)
    requires
        m.retired.len() == 0,
        forall|i: int| 0 <= i < events.len() ==> #[trigger] events[i] is Allocate,
    ensures
        handed_out(m, events).len() == events.len(),
        forall|k: int|
            0 <= k < events.len() ==> #[trigger] handed_out(m, events)[k] == (IndexModel {
                slot: m.next_slot + k as nat,
                generation: 0,
            }),
        forall|i: int, j: int|
            0 <= i < j < events.len() ==> #[trigger] handed_out(m, events)[i].slot
                < #[trigger] handed_out(m, events)[j].slot,
        run(m, events) == (AllocatorModel {
            next_slot: m.next_slot + events.len(),
            retired: m.retired,
        }),
    decreases events.len(),
{
    if events.len() > 0 {
        let before = events.drop_last();
        assert forall|i: int| 0 <= i < before.len() implies #[trigger] before[i] is Allocate by {
            assert(before[i] == events[i]);
        }
        lemma_fresh_allocations_ascend(m, before);
        assert(events.last() == events[events.len() - 1]);
    }
}

/// Retiring `a` and then `b` makes the next two allocations hand out `b`
/// and then `a`, each with its generation advanced by one, and leaves the
/// allocator as it was before the two retirements.
pub proof fn lemma_lifo_reuse(m: AllocatorModel, a: IndexModel, b: IndexModel)
    ensures
        ({
            let s = m.after_retire(a).after_retire(b);
            &&& s.allocated() == (IndexModel { slot: b.slot, generation: b.generation + 1 })
            &&& s.after_allocate().allocated() == (IndexModel {
                slot: a.slot,
                generation: a.generation + 1,
            })
            &&& s.after_allocate().after_allocate() == m
        }),
{
    let s = m.after_retire(a).after_retire(b);
    assert(s.after_allocate().retired =~= m.retired.push(a));
    assert(s.after_allocate().after_allocate().retired =~= m.retired);
}

/// Over any sequence of calls, each allocation takes one index from the
/// retired list or one slot from the counter, and each retirement adds one
/// index to the list; the slots taken from the counter are the counter's
/// values in order, so no two of them are equal.
pub proof fn lemma_history_counts(m: AllocatorModel, events: Seq<Event>)
    ensures
        run(m, events).next_slot >= m.next_slot,
        run(m, events).retired.len() + count_allocations(events) + m.next_slot
            == m.retired.len() + count_retirements(events) + run(m, events).next_slot,
        fresh_slots(m, events) =~= Seq::new(
            (run(m, events).next_slot - m.next_slot) as nat,
            |k: int| m.next_slot + k as nat,
        ),
    decreases events.len(),
{
    if events.len() > 0 {
        lemma_history_counts(m, events.drop_last());
    }
}

/// When every allocation is matched by a retirement, as when each of
/// several threads allocates and then retires what it got, the calls in
/// whatever order they are serialised leave a new allocator with as many
/// retired indices as slots handed out fresh, and those fresh slots are
/// pairwise distinct.
pub proof fn lemma_balanced_history(events: Seq<Event>)
    requires
        count_allocations(events) == count_retirements(events),
    ensures
        run(AllocatorModel::initial(), events).retired.len() == run(
            AllocatorModel::initial(),
            events,
        ).next_slot,
        fresh_slots(AllocatorModel::initial(), events).len() == run(
            AllocatorModel::initial(),
            events,
        ).next_slot,
        forall|i: int, j: int|
            0 <= i < j < fresh_slots(AllocatorModel::initial(), events).len() ==> #[trigger] fresh_slots(
                AllocatorModel::initial(),
                events,
            )[i] != #[trigger] fresh_slots(AllocatorModel::initial(), events)[j],
{
    lemma_history_counts(AllocatorModel::initial(), events);
}

} // verus!
