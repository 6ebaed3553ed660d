//! Generational indices.
//!
//! An allocator of `(slot, generation)` pairs for entity tables: a slot is
//! handed out fresh from a counter, or taken back from the list of retired
//! indices with its generation advanced by one, so that a stale handle to a
//! reused slot never equals the live one.

mod allocator;
mod history;
mod index;
mod number;

pub use allocator::{AllocatorModel, GenIndexEntitySet};
pub use history::{
    Event,
    count_allocations,
    count_retirements,
    fresh_slots,
    handed_out,
    lemma_balanced_history,
    lemma_fresh_allocations_ascend,
    lemma_history_counts,
    lemma_lifo_reuse,
    run,
};
pub use index::{GenIndex, IndexModel, lemma_equal_iff_fields_equal};
pub use number::IndexNumber;
