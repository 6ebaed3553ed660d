use vstd::prelude::*;

verus! {

/// The integer types that can serve as a slot or a generation.
///
/// A value is seen through `value`, a natural number; the operations are
/// the ones the allocator needs: a zero, a step of one, and a test for
/// equality.
pub trait IndexNumber: Copy + Sized {
    /// The number this value stands for.
    spec fn value(self) -> nat;

    /// Whether `value() + 1` is representable in the type.
    spec fn has_successor(self) -> bool;

    /// The zero of the type.
    fn zero() -> (r: Self)
        ensures
            r.value() == 0,
    ;

    /// Tests `has_successor`.
    fn has_next(&self) -> (r: bool)
        ensures
            r == self.has_successor(),
    ;

    /// Adds one in place.
    fn step(&mut self)
        requires
            old(self).has_successor(),
        ensures
            final(self).value() == old(self).value() + 1,
    ;

    /// Whether the two values stand for the same number.
    fn same_value(&self, other: &Self) -> (r: bool)
        ensures
            r == (self.value() == other.value()),
    ;
}

impl IndexNumber for u8 {
    open spec fn value(self) -> nat {
        self as nat
    }

    open spec fn has_successor(self) -> bool {
        self < u8::MAX
    }

    fn zero() -> (r: u8) {
        0
    }

    fn has_next(&self) -> (r: bool) {
        *self < u8::MAX
    }

    fn step(&mut self) {
        *self = *self + 1;
    }

    fn same_value(&self, other: &u8) -> (r: bool) {
        *self == *other
    }
}

impl IndexNumber for u16 {
    open spec fn value(self) -> nat {
        self as nat
    }

    open spec fn has_successor(self) -> bool {
        self < u16::MAX
    }

    fn zero() -> (r: u16) {
        0
    }

    fn has_next(&self) -> (r: bool) {
        *self < u16::MAX
    }

    fn step(&mut self) {
        *self = *self + 1;
    }

    fn same_value(&self, other: &u16) -> (r: bool) {
        *self == *other
    }
}

impl IndexNumber for u32 {
    open spec fn value(self) -> nat {
        self as nat
    }

    open spec fn has_successor(self) -> bool {
        self < u32::MAX
    }

    fn zero() -> (r: u32) {
        0
    }

    fn has_next(&self) -> (r: bool) {
        *self < u32::MAX
    }

    fn step(&mut self) {
        *self = *self + 1;
    }

    fn same_value(&self, other: &u32) -> (r: bool) {
        *self == *other
    }
}

impl IndexNumber for u64 {
    open spec fn value(self) -> nat {
        self as nat
    }

    open spec fn has_successor(self) -> bool {
        self < u64::MAX
    }

    fn zero() -> (r: u64) {
        0
    }

    fn has_next(&self) -> (r: bool) {
        *self < u64::MAX
    }

    fn step(&mut self) {
        *self = *self + 1;
    }

    fn same_value(&self, other: &u64) -> (r: bool) {
        *self == *other
    }
}

impl IndexNumber for usize {
    open spec fn value(self) -> nat {
        self as nat
    }

    open spec fn has_successor(self) -> bool {
        self < usize::MAX
    }

    fn zero() -> (r: usize) {
        0
    }

    fn has_next(&self) -> (r: bool) {
        *self < usize::MAX
    }

    fn step(&mut self) {
        *self = *self + 1;
    }

    fn same_value(&self, other: &usize) -> (r: bool) {
        *self == *other
    }
}

} // verus!
