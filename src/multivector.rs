//! The multivector record, its named specializations and its operators.
use crate::algebra::{
    difference, difference_fits, negated, negation_fits, product, product_fits, product_shape, sum,
    sum_fits, union, SLOTS,
};
use crate::value::{Minus, MinusOut, Negate, Plus, PlusOut, Times, TimesOut, Value, Widen, T, Zero};
use vstd::prelude::*;

verus! {

/// A multivector of the two-dimensional projective algebra whose slots have
/// the kinds `S, E0, ..., E012`: `Zero` for a slot that is always absent,
/// `T` for one that holds a value.
#[derive(Debug, Clone, Copy, PartialEq, Eq)]
pub struct GenericMultiVector<S, E0, E1, E2, E01, E02, E12, E012> where
    S: Value,
    E0: Value,
    E1: Value,
    E2: Value,
    E01: Value,
    E02: Value,
    E12: Value,
    E012: Value,
 {
    pub s: S,
    pub e0: E0,
    pub e1: E1,
    pub e2: E2,
    pub e01: E01,
    pub e02: E02,
    pub e12: E12,
    pub e012: E012,
}

/// The general multivector: every slot holds a value.
pub type MultiVector = GenericMultiVector<T, T, T, T, T, T, T, T>;

/// A scalar: only `s` holds a value.
pub type Scalar = GenericMultiVector<T, Zero, Zero, Zero, Zero, Zero, Zero, Zero>;

/// A vector, the algebra's line: `e0`, `e1` and `e2` hold values.
pub type Vector = GenericMultiVector<Zero, T, T, T, Zero, Zero, Zero, Zero>;

/// A line is a vector.
pub type Line = Vector;

/// A bivector, the algebra's point: `e01`, `e02` and `e12` hold values.
pub type BiVector = GenericMultiVector<Zero, Zero, Zero, Zero, T, T, T, Zero>;

/// A point is a bivector.
pub type Point = BiVector;

/// A trivector: only the pseudoscalar `e012` holds a value.
pub type TriVector = GenericMultiVector<Zero, Zero, Zero, Zero, Zero, Zero, Zero, T>;

impl GenericMultiVector<T, T, T, T, T, T, T, T> {
    /// Builds a general multivector from all eight slot values.
    pub fn new(
        s: T,
        e0: T,
        e1: T,
        e2: T,
        e01: T,
        e02: T,
        e12: T,
        e012: T,
    ) -> (r: MultiVector)
        ensures
            r.values() == seq![
                s as int,
                e0 as int,
                e1 as int,
                e2 as int,
                e01 as int,
                e02 as int,
                e12 as int,
                e012 as int,
            ],
    {
        GenericMultiVector {
            s,
            e0,
            e1,
            e2,
            e01,
            e02,
            e12,
            e012,
        }
    }
}

impl GenericMultiVector<T, Zero, Zero, Zero, Zero, Zero, Zero, Zero> {
    /// Builds a scalar.
    pub fn new(s: T) -> (r: Scalar)
        ensures
            r.values() == seq![s as int, 0, 0, 0, 0, 0, 0, 0],
    {
        GenericMultiVector {
            s,
            e0: Zero,
            e1: Zero,
            e2: Zero,
            e01: Zero,
            e02: Zero,
            e12: Zero,
            e012: Zero,
        }
    }
}

impl GenericMultiVector<Zero, T, T, T, Zero, Zero, Zero, Zero> {
    /// Builds a vector (a line) from its three components.
    pub fn new(e0: T, e1: T, e2: T) -> (r: Vector)
        ensures
            r.values() == seq![0, e0 as int, e1 as int, e2 as int, 0, 0, 0, 0],
    {
        GenericMultiVector {
            s: Zero,
            e0,
            e1,
            e2,
            e01: Zero,
            e02: Zero,
            e12: Zero,
            e012: Zero,
        }
    }
}

impl GenericMultiVector<Zero, Zero, Zero, Zero, T, T, T, Zero> {
    /// Builds a bivector (a point) from its three components.
    pub fn new(e01: T, e02: T, e12: T) -> (r: BiVector)
        ensures
            r.values() == seq![0, 0, 0, 0, e01 as int, e02 as int, e12 as int, 0],
    {
        GenericMultiVector {
            s: Zero,
            e0: Zero,
            e1: Zero,
            e2: Zero,
            e01,
            e02,
            e12,
            e012: Zero,
        }
    }
}

impl GenericMultiVector<Zero, Zero, Zero, Zero, Zero, Zero, Zero, T> {
    /// Builds a trivector.
    pub fn new(e012: T) -> (r: TriVector)
        ensures
            r.values() == seq![0, 0, 0, 0, 0, 0, 0, e012 as int],
    {
        GenericMultiVector {
            s: Zero,
            e0: Zero,
            e1: Zero,
            e2: Zero,
            e01: Zero,
            e02: Zero,
            e12: Zero,
            e012,
        }
    }
}

impl<S, E0, E1, E2, E01, E02, E12, E012> GenericMultiVector<S, E0, E1, E2, E01, E02, E12, E012> where
    S: Value,
    E0: Value,
    E1: Value,
    E2: Value,
    E01: Value,
    E02: Value,
    E12: Value,
    E012: Value,
 {
    /// The slot values in basis order.
    pub open spec fn values(&self) -> Seq<int> {
        seq![
            self.s.value(),
            self.e0.value(),
            self.e1.value(),
            self.e2.value(),
            self.e01.value(),
            self.e02.value(),
            self.e12.value(),
            self.e012.value(),
        ]
    }

    /// Which slots hold a value, in basis order; fixed by the type.
    pub open spec fn shape(&self) -> Seq<bool> {
        seq![
            S::holds_value(),
            E0::holds_value(),
            E1::holds_value(),
            E2::holds_value(),
            E01::holds_value(),
            E02::holds_value(),
            E12::holds_value(),
            E012::holds_value(),
        ]
    }

    /// The slot values in basis order; an absent slot reads as zero.
    pub fn components(&self) -> (r: [T; SLOTS])
        ensures
            forall|i: int| 0 <= i < SLOTS ==> r@[i] as int == #[trigger] self.values()[i],
    {
        [
            self.s.get(),
            self.e0.get(),
            self.e1.get(),
            self.e2.get(),
            self.e01.get(),
            self.e02.get(),
            self.e12.get(),
            self.e012.get(),
        ]
    }

    /// Relabels every slot into the kinds `OS, ..., OE012`. A slot that holds a
    /// value can only go to a kind that holds one, so no value is ever lost:
    /// a narrowing conversion does not compile.
    pub fn convert_into<OS, OE0, OE1, OE2, OE01, OE02, OE12, OE012>(self) -> (r: GenericMultiVector<
        OS,
        OE0,
        OE1,
        OE2,
        OE01,
        OE02,
        OE12,
        OE012,
    >) where
        OS: Value,
        OE0: Value,
        OE1: Value,
        OE2: Value,
        OE01: Value,
        OE02: Value,
        OE12: Value,
        OE012: Value,
        S: Widen<OS>,
        E0: Widen<OE0>,
        E1: Widen<OE1>,
        E2: Widen<OE2>,
        E01: Widen<OE01>,
        E02: Widen<OE02>,
        E12: Widen<OE12>,
        E012: Widen<OE012>,
        ensures
            r.values() == self.values(),
            forall|i: int| 0 <= i < SLOTS && #[trigger] self.shape()[i] ==> r.shape()[i],
    {
        let r = GenericMultiVector {
            s: self.s.widen(),
            e0: self.e0.widen(),
            e1: self.e1.widen(),
            e2: self.e2.widen(),
            e01: self.e01.widen(),
            e02: self.e02.widen(),
            e12: self.e12.widen(),
            e012: self.e012.widen(),
        };
        assert(r.values() =~= self.values());
        r
    }

    /// Slot-wise negation; the shape is kept.
    pub fn neg(self) -> (r: GenericMultiVector<
        S::Output,
        E0::Output,
        E1::Output,
        E2::Output,
        E01::Output,
        E02::Output,
        E12::Output,
        E012::Output,
    >) where
        S: Negate,
        E0: Negate,
        E1: Negate,
        E2: Negate,
        E01: Negate,
        E02: Negate,
        E12: Negate,
        E012: Negate,
        requires
            negation_fits(self.values()),
        ensures
            r.values() == negated(self.values()),
            r.shape() == self.shape(),
    {
        let r = GenericMultiVector {
            s: self.s.negate(),
            e0: self.e0.negate(),
            e1: self.e1.negate(),
            e2: self.e2.negate(),
            e01: self.e01.negate(),
            e02: self.e02.negate(),
            e12: self.e12.negate(),
            e012: self.e012.negate(),
        };
        assert(r.values() =~= negated(self.values()));
        assert(r.shape() =~= self.shape());
        r
    }

    /// Slot-wise sum; a slot holds a value when it does on either side.
    pub fn add<RS, RE0, RE1, RE2, RE01, RE02, RE12, RE012>(
        self,
        rhs: GenericMultiVector<RS, RE0, RE1, RE2, RE01, RE02, RE12, RE012>,
    ) -> (r: GenericMultiVector<
        PlusOut<S, RS>,
        PlusOut<E0, RE0>,
        PlusOut<E1, RE1>,
        PlusOut<E2, RE2>,
        PlusOut<E01, RE01>,
        PlusOut<E02, RE02>,
        PlusOut<E12, RE12>,
        PlusOut<E012, RE012>,
    >) where
        S: Plus<RS>,
        E0: Plus<RE0>,
        E1: Plus<RE1>,
        E2: Plus<RE2>,
        E01: Plus<RE01>,
        E02: Plus<RE02>,
        E12: Plus<RE12>,
        E012: Plus<RE012>,
        RS: Value,
        RE0: Value,
        RE1: Value,
        RE2: Value,
        RE01: Value,
        RE02: Value,
        RE12: Value,
        RE012: Value,
        requires
            sum_fits(self.values(), rhs.values()),
        ensures
            r.values() == sum(self.values(), rhs.values()),
            r.shape() == union(self.shape(), rhs.shape()),
    {
        let r = GenericMultiVector {
            s: self.s.plus(rhs.s),
            e0: self.e0.plus(rhs.e0),
            e1: self.e1.plus(rhs.e1),
            e2: self.e2.plus(rhs.e2),
            e01: self.e01.plus(rhs.e01),
            e02: self.e02.plus(rhs.e02),
            e12: self.e12.plus(rhs.e12),
            e012: self.e012.plus(rhs.e012),
        };
        assert(r.values() =~= sum(self.values(), rhs.values()));
        assert(r.shape() =~= union(self.shape(), rhs.shape()));
        r
    }

    /// Slot-wise difference; a slot holds a value when it does on either side.
    pub fn sub<RS, RE0, RE1, RE2, RE01, RE02, RE12, RE012>(
        self,
        rhs: GenericMultiVector<RS, RE0, RE1, RE2, RE01, RE02, RE12, RE012>,
    ) -> (r: GenericMultiVector<
        MinusOut<S, RS>,
        MinusOut<E0, RE0>,
        MinusOut<E1, RE1>,
        MinusOut<E2, RE2>,
        MinusOut<E01, RE01>,
        MinusOut<E02, RE02>,
        MinusOut<E12, RE12>,
        MinusOut<E012, RE012>,
    >) where
        S: Minus<RS>,
        E0: Minus<RE0>,
        E1: Minus<RE1>,
        E2: Minus<RE2>,
        E01: Minus<RE01>,
        E02: Minus<RE02>,
        E12: Minus<RE12>,
        E012: Minus<RE012>,
        RS: Value,
        RE0: Value,
        RE1: Value,
        RE2: Value,
        RE01: Value,
        RE02: Value,
        RE12: Value,
        RE012: Value,
        requires
            difference_fits(self.values(), rhs.values()),
        ensures
            r.values() == difference(self.values(), rhs.values()),
            r.shape() == union(self.shape(), rhs.shape()),
    {
        let r = GenericMultiVector {
            s: self.s.minus(rhs.s),
            e0: self.e0.minus(rhs.e0),
            e1: self.e1.minus(rhs.e1),
            e2: self.e2.minus(rhs.e2),
            e01: self.e01.minus(rhs.e01),
            e02: self.e02.minus(rhs.e02),
            e12: self.e12.minus(rhs.e12),
            e012: self.e012.minus(rhs.e012),
        };
        assert(r.values() =~= difference(self.values(), rhs.values()));
        assert(r.shape() =~= union(self.shape(), rhs.shape()));
        r
    }
}

impl<A, B, C, D, E, F, G, H> GenericMultiVector<A, B, C, D, E, F, G, H> where
    A: Value,
    B: Value,
    C: Value,
    D: Value,
    E: Value,
    F: Value,
    G: Value,
    H: Value,
 {
    /// The geometric product `self * rhs`, by the signed table of basis products.
    ///
    /// A term with a factor from an absent slot is neither computed nor counted
    /// in the shape: an output slot is absent exactly when every one of its
    /// terms has such a factor.
    pub fn mul<I, J, K, L, M, N, O, P>(
        self,
        rhs: GenericMultiVector<I, J, K, L, M, N, O, P>,
    ) -> (r: GenericMultiVector<
        MinusOut<PlusOut<PlusOut<TimesOut<A, I>, TimesOut<C, K>>, TimesOut<D, L>>, TimesOut<G, O>>,
        PlusOut<PlusOut<PlusOut<PlusOut<MinusOut<MinusOut<PlusOut<TimesOut<A, J>, TimesOut<B, I>>, TimesOut<C, M>>, TimesOut<D, N>>, TimesOut<E, K>>, TimesOut<F, L>>, TimesOut<G, P>>, TimesOut<H, O>>,
        PlusOut<PlusOut<MinusOut<PlusOut<TimesOut<A, K>, TimesOut<C, I>>, TimesOut<D, O>>, TimesOut<G, L>>, TimesOut<G, N>>,
        MinusOut<PlusOut<PlusOut<PlusOut<PlusOut<TimesOut<A, L>, TimesOut<D, I>>, TimesOut<C, O>>, TimesOut<D, I>>, TimesOut<E, O>>, TimesOut<G, K>>,
        PlusOut<MinusOut<PlusOut<PlusOut<MinusOut<PlusOut<TimesOut<A, M>, TimesOut<B, K>>, TimesOut<C, J>>, TimesOut<D, P>>, TimesOut<E, I>>, TimesOut<F, O>>, TimesOut<H, L>>,
        MinusOut<MinusOut<PlusOut<MinusOut<MinusOut<PlusOut<TimesOut<A, N>, TimesOut<B, L>>, TimesOut<D, J>>, TimesOut<C, P>>, TimesOut<F, I>>, TimesOut<G, M>>, TimesOut<H, K>>,
        PlusOut<MinusOut<PlusOut<TimesOut<A, O>, TimesOut<C, L>>, TimesOut<D, K>>, TimesOut<G, I>>,
        PlusOut<PlusOut<MinusOut<PlusOut<PlusOut<MinusOut<PlusOut<TimesOut<A, P>, TimesOut<B, P>>, TimesOut<C, N>>, TimesOut<D, M>>, TimesOut<E, L>>, TimesOut<F, K>>, TimesOut<G, J>>, TimesOut<H, I>>,
    >) where
        A: Times<I> + Times<J> + Times<K> + Times<L> + Times<M> + Times<N> + Times<O> + Times<P>,
        B: Times<I> + Times<K> + Times<L> + Times<P>,
        C: Times<K> + Times<M> + Times<I> + Times<O> + Times<J> + Times<P> + Times<L> + Times<N>,
        D: Times<L> + Times<N> + Times<O> + Times<I> + Times<P> + Times<J> + Times<K> + Times<M>,
        E: Times<K> + Times<O> + Times<I> + Times<L>,
        F: Times<L> + Times<O> + Times<I> + Times<K>,
        G: Times<O> + Times<P> + Times<L> + Times<N> + Times<K> + Times<M> + Times<I> + Times<J>,
        H: Times<O> + Times<L> + Times<K> + Times<I>,
        I: Value,
        J: Value,
        K: Value,
        L: Value,
        M: Value,
        N: Value,
        O: Value,
        P: Value,
        TimesOut<A, I>: Plus<TimesOut<C, K>>,
        PlusOut<TimesOut<A, I>, TimesOut<C, K>>: Plus<TimesOut<D, L>>,
        PlusOut<PlusOut<TimesOut<A, I>, TimesOut<C, K>>, TimesOut<D, L>>: Minus<TimesOut<G, O>>,
        TimesOut<A, J>: Plus<TimesOut<B, I>>,
        PlusOut<TimesOut<A, J>, TimesOut<B, I>>: Minus<TimesOut<C, M>>,
        MinusOut<PlusOut<TimesOut<A, J>, TimesOut<B, I>>, TimesOut<C, M>>: Minus<TimesOut<D, N>>,
        MinusOut<MinusOut<PlusOut<TimesOut<A, J>, TimesOut<B, I>>, TimesOut<C, M>>, TimesOut<D, N>>: Plus<TimesOut<E, K>>,
        PlusOut<MinusOut<MinusOut<PlusOut<TimesOut<A, J>, TimesOut<B, I>>, TimesOut<C, M>>, TimesOut<D, N>>, TimesOut<E, K>>: Plus<TimesOut<F, L>>,
        PlusOut<PlusOut<MinusOut<MinusOut<PlusOut<TimesOut<A, J>, TimesOut<B, I>>, TimesOut<C, M>>, TimesOut<D, N>>, TimesOut<E, K>>, TimesOut<F, L>>: Plus<TimesOut<G, P>>,
        PlusOut<PlusOut<PlusOut<MinusOut<MinusOut<PlusOut<TimesOut<A, J>, TimesOut<B, I>>, TimesOut<C, M>>, TimesOut<D, N>>, TimesOut<E, K>>, TimesOut<F, L>>, TimesOut<G, P>>: Plus<TimesOut<H, O>>,
        TimesOut<A, K>: Plus<TimesOut<C, I>>,
        PlusOut<TimesOut<A, K>, TimesOut<C, I>>: Minus<TimesOut<D, O>>,
        MinusOut<PlusOut<TimesOut<A, K>, TimesOut<C, I>>, TimesOut<D, O>>: Plus<TimesOut<G, L>>,
        PlusOut<MinusOut<PlusOut<TimesOut<A, K>, TimesOut<C, I>>, TimesOut<D, O>>, TimesOut<G, L>>: Plus<TimesOut<G, N>>,
        TimesOut<A, L>: Plus<TimesOut<D, I>>,
        PlusOut<TimesOut<A, L>, TimesOut<D, I>>: Plus<TimesOut<C, O>>,
        PlusOut<PlusOut<TimesOut<A, L>, TimesOut<D, I>>, TimesOut<C, O>>: Plus<TimesOut<D, I>>,
        PlusOut<PlusOut<PlusOut<TimesOut<A, L>, TimesOut<D, I>>, TimesOut<C, O>>, TimesOut<D, I>>: Plus<TimesOut<E, O>>,
        PlusOut<PlusOut<PlusOut<PlusOut<TimesOut<A, L>, TimesOut<D, I>>, TimesOut<C, O>>, TimesOut<D, I>>, TimesOut<E, O>>: Minus<TimesOut<G, K>>,
        TimesOut<A, M>: Plus<TimesOut<B, K>>,
        PlusOut<TimesOut<A, M>, TimesOut<B, K>>: Minus<TimesOut<C, J>>,
        MinusOut<PlusOut<TimesOut<A, M>, TimesOut<B, K>>, TimesOut<C, J>>: Plus<TimesOut<D, P>>,
        PlusOut<MinusOut<PlusOut<TimesOut<A, M>, TimesOut<B, K>>, TimesOut<C, J>>, TimesOut<D, P>>: Plus<TimesOut<E, I>>,
        PlusOut<PlusOut<MinusOut<PlusOut<TimesOut<A, M>, TimesOut<B, K>>, TimesOut<C, J>>, TimesOut<D, P>>, TimesOut<E, I>>: Minus<TimesOut<F, O>>,
        MinusOut<PlusOut<PlusOut<MinusOut<PlusOut<TimesOut<A, M>, TimesOut<B, K>>, TimesOut<C, J>>, TimesOut<D, P>>, TimesOut<E, I>>, TimesOut<F, O>>: Plus<TimesOut<H, L>>,
        TimesOut<A, N>: Plus<TimesOut<B, L>>,
        PlusOut<TimesOut<A, N>, TimesOut<B, L>>: Minus<TimesOut<D, J>>,
        MinusOut<PlusOut<TimesOut<A, N>, TimesOut<B, L>>, TimesOut<D, J>>: Minus<TimesOut<C, P>>,
        MinusOut<MinusOut<PlusOut<TimesOut<A, N>, TimesOut<B, L>>, TimesOut<D, J>>, TimesOut<C, P>>: Plus<TimesOut<F, I>>,
        PlusOut<MinusOut<MinusOut<PlusOut<TimesOut<A, N>, TimesOut<B, L>>, TimesOut<D, J>>, TimesOut<C, P>>, TimesOut<F, I>>: Minus<TimesOut<G, M>>,
        MinusOut<PlusOut<MinusOut<MinusOut<PlusOut<TimesOut<A, N>, TimesOut<B, L>>, TimesOut<D, J>>, TimesOut<C, P>>, TimesOut<F, I>>, TimesOut<G, M>>: Minus<TimesOut<H, K>>,
        TimesOut<A, O>: Plus<TimesOut<C, L>>,
        PlusOut<TimesOut<A, O>, TimesOut<C, L>>: Minus<TimesOut<D, K>>,
        MinusOut<PlusOut<TimesOut<A, O>, TimesOut<C, L>>, TimesOut<D, K>>: Plus<TimesOut<G, I>>,
        TimesOut<A, P>: Plus<TimesOut<B, P>>,
        PlusOut<TimesOut<A, P>, TimesOut<B, P>>: Minus<TimesOut<C, N>>,
        MinusOut<PlusOut<TimesOut<A, P>, TimesOut<B, P>>, TimesOut<C, N>>: Plus<TimesOut<D, M>>,
        PlusOut<MinusOut<PlusOut<TimesOut<A, P>, TimesOut<B, P>>, TimesOut<C, N>>, TimesOut<D, M>>: Plus<TimesOut<E, L>>,
        PlusOut<PlusOut<MinusOut<PlusOut<TimesOut<A, P>, TimesOut<B, P>>, TimesOut<C, N>>, TimesOut<D, M>>, TimesOut<E, L>>: Minus<TimesOut<F, K>>,
        MinusOut<PlusOut<PlusOut<MinusOut<PlusOut<TimesOut<A, P>, TimesOut<B, P>>, TimesOut<C, N>>, TimesOut<D, M>>, TimesOut<E, L>>, TimesOut<F, K>>: Plus<TimesOut<G, J>>,
        PlusOut<MinusOut<PlusOut<PlusOut<MinusOut<PlusOut<TimesOut<A, P>, TimesOut<B, P>>, TimesOut<C, N>>, TimesOut<D, M>>, TimesOut<E, L>>, TimesOut<F, K>>, TimesOut<G, J>>: Plus<TimesOut<H, I>>,
        requires
            product_fits(self.values(), rhs.values()),
        ensures
            r.values() == product(self.values(), rhs.values()),
            r.shape() == product_shape(self.shape(), rhs.shape()),
    {
        let a = self.s;
        let b = self.e0;
        let c = self.e1;
        let d = self.e2;
        let e = self.e01;
        let f = self.e02;
        let g = self.e12;
        let h = self.e012;
        let i = rhs.s;
        let j = rhs.e0;
        let k = rhs.e1;
        let l = rhs.e2;
        let m = rhs.e01;
        let n = rhs.e02;
        let o = rhs.e12;
        let p = rhs.e012;
        let r = GenericMultiVector {
            s: a.times(i).plus(c.times(k)).plus(d.times(l)).minus(g.times(o)),
            e0: a.times(j)
                .plus(b.times(i))
                .minus(c.times(m))
                .minus(d.times(n))
                .plus(e.times(k))
                .plus(f.times(l))
                .plus(g.times(p))
                .plus(h.times(o)),
            e1: a.times(k).plus(c.times(i)).minus(d.times(o)).plus(g.times(l)).plus(g.times(n)),
            e2: a.times(l)
                .plus(d.times(i))
                .plus(c.times(o))
                .plus(d.times(i))
                .plus(e.times(o))
                .minus(g.times(k)),
            e01: a.times(m)
                .plus(b.times(k))
                .minus(c.times(j))
                .plus(d.times(p))
                .plus(e.times(i))
                .minus(f.times(o))
                .plus(h.times(l)),
            e02: a.times(n)
                .plus(b.times(l))
                .minus(d.times(j))
                .minus(c.times(p))
                .plus(f.times(i))
                .minus(g.times(m))
                .minus(h.times(k)),
            e12: a.times(o).plus(c.times(l)).minus(d.times(k)).plus(g.times(i)),
            e012: a.times(p)
                .plus(b.times(p))
                .minus(c.times(n))
                .plus(d.times(m))
                .plus(e.times(l))
                .minus(f.times(k))
                .plus(g.times(j))
                .plus(h.times(i)),
        };
        assert(r.values() =~= product(self.values(), rhs.values()));
        assert(r.shape() =~= product_shape(self.shape(), rhs.shape()));
        r
    }
}

} // verus!
