//! Slot kinds and the arithmetic between them.
use crate::sealed::Sealed;
use vstd::prelude::*;

verus! {

/// The number type of a slot that holds a value.
pub type T = i64;

/// Whether an integer can be held by a slot of type `T`.
pub open spec fn fits(x: int) -> bool {
    T::MIN <= x <= T::MAX
}

/// A slot that is zero for the whole life of its record and holds nothing.
#[derive(Debug, Clone, Copy, PartialEq, Eq)]
pub struct Zero;

impl Sealed for Zero {}

impl Sealed for T {}

/// What a slot of a multivector can be: `Zero` (always absent) or `T` (a value).
pub trait Value: Sealed + Copy {
    /// The number the slot stands for.
    spec fn value(&self) -> int;

    /// Whether slots of this kind hold a value.
    spec fn holds_value() -> bool;

    /// Reads the slot; an absent slot reads as zero.
    fn get(&self) -> (r: T)
        ensures
            r as int == self.value(),
            !Self::holds_value() ==> r == 0,
    ;

    /// An absent slot stands for zero, and a slot's value fits in `T`.
    proof fn lemma_value(&self)
        ensures
            !Self::holds_value() ==> self.value() == 0,
            fits(self.value()),
    ;
}

impl Value for Zero {
    open spec fn value(&self) -> int {
        0
    }

    open spec fn holds_value() -> bool {
        false
    }

    fn get(&self) -> (r: T) {
        0
    }

    proof fn lemma_value(&self) {
    }
}

impl Value for T {
    open spec fn value(&self) -> int {
        *self as int
    }

    open spec fn holds_value() -> bool {
        true
    }

    fn get(&self) -> (r: T) {
        *self
    }

    proof fn lemma_value(&self) {
    }
}

/// Negation of a slot; the kind is kept.
pub trait Negate: Value {
    type Output: Value;

    fn negate(self) -> (r: Self::Output)
        requires
            fits(-self.value()),
        ensures
            r.value() == -self.value(),
            <Self::Output as Value>::holds_value() == Self::holds_value(),
    ;
}

impl Negate for Zero {
    type Output = Zero;

    fn negate(self) -> (r: Zero) {
        self
    }
}

impl Negate for T {
    type Output = T;

    fn negate(self) -> (r: T) {
        -self
    }
}

/// Addition of two slots; the result holds a value when either side does.
pub trait Plus<R: Value>: Value {
    type Output: Value;

    fn plus(self, rhs: R) -> (r: Self::Output)
        requires
            fits(self.value() + rhs.value()),
        ensures
            r.value() == self.value() + rhs.value(),
            <Self::Output as Value>::holds_value() == (Self::holds_value() || R::holds_value()),
    ;
}

impl Plus<Zero> for Zero {
    type Output = Zero;

    fn plus(self, rhs: Zero) -> (r: Zero) {
        self
    }
}

impl Plus<T> for Zero {
    type Output = T;

    fn plus(self, rhs: T) -> (r: T) {
        rhs
    }
}

impl Plus<Zero> for T {
    type Output = T;

    fn plus(self, rhs: Zero) -> (r: T) {
        self
    }
}

impl Plus<T> for T {
    type Output = T;

    fn plus(self, rhs: T) -> (r: T) {
        self + rhs
    }
}

/// Subtraction of two slots; the result holds a value when either side does.
pub trait Minus<R: Value>: Value {
    type Output: Value;

    fn minus(self, rhs: R) -> (r: Self::Output)
        requires
            fits(self.value() - rhs.value()),
        ensures
            r.value() == self.value() - rhs.value(),
            <Self::Output as Value>::holds_value() == (Self::holds_value() || R::holds_value()),
    ;
}

impl Minus<Zero> for Zero {
    type Output = Zero;

    fn minus(self, rhs: Zero) -> (r: Zero) {
        self
    }
}

impl Minus<T> for Zero {
    type Output = T;

    fn minus(self, rhs: T) -> (r: T) {
        -rhs
    }
}

impl Minus<Zero> for T {
    type Output = T;

    fn minus(self, rhs: Zero) -> (r: T) {
        self
    }
}

impl Minus<T> for T {
    type Output = T;

    fn minus(self, rhs: T) -> (r: T) {
        self - rhs
    }
}

/// Multiplication of two slots; the result holds a value only when both sides do.
pub trait Times<R: Value>: Value {
    type Output: Value;

    fn times(self, rhs: R) -> (r: Self::Output)
        requires
            fits(self.value() * rhs.value()),
        ensures
            r.value() == self.value() * rhs.value(),
            <Self::Output as Value>::holds_value() == (Self::holds_value() && R::holds_value()),
    ;
}

impl Times<Zero> for Zero {
    type Output = Zero;

    fn times(self, rhs: Zero) -> (r: Zero) {
        self
    }
}

impl Times<T> for Zero {
    type Output = Zero;

    fn times(self, rhs: T) -> (r: Zero) {
        self
    }
}

impl Times<Zero> for T {
    type Output = Zero;

    fn times(self, rhs: Zero) -> (r: Zero) {
        rhs
    }
}

impl Times<T> for T {
    type Output = T;

    fn times(self, rhs: T) -> (r: T) {
        self * rhs
    }
}

/// The kind of the sum of slots of kinds `A` and `B`.
pub type PlusOut<A, B> = <A as Plus<B>>::Output;

/// The kind of the difference of slots of kinds `A` and `B`.
pub type MinusOut<A, B> = <A as Minus<B>>::Output;

/// The kind of the product of slots of kinds `A` and `B`.
pub type TimesOut<A, B> = <A as Times<B>>::Output;

/// Relabelling of a slot into a kind that can hold at least as much: an
/// absent slot may become a zero value, a value is never dropped.
pub trait Widen<O: Value>: Value {
    fn widen(self) -> (r: O)
        ensures
            r.value() == self.value(),
            Self::holds_value() ==> O::holds_value(),
    ;
}

impl Widen<Zero> for Zero {
    fn widen(self) -> (r: Zero) {
        self
    }
}

impl Widen<T> for Zero {
    fn widen(self) -> (r: T) {
        0
    }
}

impl Widen<T> for T {
    fn widen(self) -> (r: T) {
        self
    }
}

} // verus!
