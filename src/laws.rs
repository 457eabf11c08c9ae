//! Algebraic laws of the multivector operators, stated over the slot values
//! and shapes that the operators' contracts speak of.
use crate::algebra::{difference, negated, product, product_shape, sum, union, SLOTS};
use crate::multivector::{GenericMultiVector, Vector};
use crate::value::Value;
use vstd::prelude::*;

verus! {

/// A term of the product with a zero factor is zero.
proof fn lemma_zero_terms(x: Seq<int>, y: Seq<int>)
    ensures
        forall|p: int, q: int|
            (#[trigger] x[p] == 0 || #[trigger] y[q] == 0) ==> x[p] * y[q] == 0,
{
    assert forall|p: int, q: int|
        (#[trigger] x[p] == 0 || #[trigger] y[q] == 0) implies x[p] * y[q] == 0 by {
        let u = x[p];
        let v = y[q];
        assert((u == 0 || v == 0) ==> u * v == 0) by (nonlinear_arith);
    }
}

/// Negating twice gives back the values that were negated.
pub proof fn lemma_negation_involution<
    AS,
    AE0,
    AE1,
    AE2,
    AE01,
    AE02,
    AE12,
    AE012,
>(
    a: GenericMultiVector<AS, AE0, AE1, AE2, AE01, AE02, AE12, AE012>,
) where
    AS: Value,
    AE0: Value,
    AE1: Value,
    AE2: Value,
    AE01: Value,
    AE02: Value,
    AE12: Value,
    AE012: Value,
    ensures
        negated(negated(a.values())) == a.values(),
{
    assert(negated(negated(a.values())) =~= a.values());
}

/// The sum does not depend on the order of its operands, in values or in shape.
pub proof fn lemma_sum_commutative<
    AS,
    AE0,
    AE1,
    AE2,
    AE01,
    AE02,
    AE12,
    AE012,
    BS,
    BE0,
    BE1,
    BE2,
    BE01,
    BE02,
    BE12,
    BE012,
>(
    a: GenericMultiVector<AS, AE0, AE1, AE2, AE01, AE02, AE12, AE012>,
    b: GenericMultiVector<BS, BE0, BE1, BE2, BE01, BE02, BE12, BE012>,
) where
    AS: Value,
    AE0: Value,
    AE1: Value,
    AE2: Value,
    AE01: Value,
    AE02: Value,
    AE12: Value,
    AE012: Value,
    BS: Value,
    BE0: Value,
    BE1: Value,
    BE2: Value,
    BE01: Value,
    BE02: Value,
    BE12: Value,
    BE012: Value,
    ensures
        sum(a.values(), b.values()) == sum(b.values(), a.values()),
        union(a.shape(), b.shape()) == union(b.shape(), a.shape()),
{
    assert(sum(a.values(), b.values()) =~= sum(b.values(), a.values()));
    assert(union(a.shape(), b.shape()) =~= union(b.shape(), a.shape()));
}

/// The sum does not depend on how three operands are grouped, in values or in
/// shape.
pub proof fn lemma_sum_associative<
    AS,
    AE0,
    AE1,
    AE2,
    AE01,
    AE02,
    AE12,
    AE012,
    BS,
    BE0,
    BE1,
    BE2,
    BE01,
    BE02,
    BE12,
    BE012,
    CS,
    CE0,
    CE1,
    CE2,
    CE01,
    CE02,
    CE12,
    CE012,
>(
    a: GenericMultiVector<AS, AE0, AE1, AE2, AE01, AE02, AE12, AE012>,
    b: GenericMultiVector<BS, BE0, BE1, BE2, BE01, BE02, BE12, BE012>,
    c: GenericMultiVector<CS, CE0, CE1, CE2, CE01, CE02, CE12, CE012>,
) where
    AS: Value,
    AE0: Value,
    AE1: Value,
    AE2: Value,
    AE01: Value,
    AE02: Value,
    AE12: Value,
    AE012: Value,
    BS: Value,
    BE0: Value,
    BE1: Value,
    BE2: Value,
    BE01: Value,
    BE02: Value,
    BE12: Value,
    BE012: Value,
    CS: Value,
    CE0: Value,
    CE1: Value,
    CE2: Value,
    CE01: Value,
    CE02: Value,
    CE12: Value,
    CE012: Value,
    ensures
        sum(sum(a.values(), b.values()), c.values()) == sum(a.values(), sum(b.values(), c.values())),
        union(union(a.shape(), b.shape()), c.shape()) == union(a.shape(), union(b.shape(), c.shape())),
{
    assert(sum(sum(a.values(), b.values()), c.values()) =~= sum(a.values(), sum(b.values(), c.values())));
    assert(union(union(a.shape(), b.shape()), c.shape()) =~= union(a.shape(), union(b.shape(), c.shape())));
}

/// A value plus its negation is zero in every slot, with the shape of the value.
pub proof fn lemma_sum_with_negation<
    AS,
    AE0,
    AE1,
    AE2,
    AE01,
    AE02,
    AE12,
    AE012,
>(
    a: GenericMultiVector<AS, AE0, AE1, AE2, AE01, AE02, AE12, AE012>,
) where
    AS: Value,
    AE0: Value,
    AE1: Value,
    AE2: Value,
    AE01: Value,
    AE02: Value,
    AE12: Value,
    AE012: Value,
    ensures
        sum(a.values(), negated(a.values())) == Seq::new(SLOTS as nat, |i: int| 0int),
        union(a.shape(), a.shape()) == a.shape(),
{
    assert(sum(a.values(), negated(a.values())) =~= Seq::new(SLOTS as nat, |i: int| 0int));
    assert(union(a.shape(), a.shape()) =~= a.shape());
}

/// Subtracting is adding the negation.
pub proof fn lemma_difference_is_sum_of_negation<
    AS,
    AE0,
    AE1,
    AE2,
    AE01,
    AE02,
    AE12,
    AE012,
    BS,
    BE0,
    BE1,
    BE2,
    BE01,
    BE02,
    BE12,
    BE012,
>(
    a: GenericMultiVector<AS, AE0, AE1, AE2, AE01, AE02, AE12, AE012>,
    b: GenericMultiVector<BS, BE0, BE1, BE2, BE01, BE02, BE12, BE012>,
) where
    AS: Value,
    AE0: Value,
    AE1: Value,
    AE2: Value,
    AE01: Value,
    AE02: Value,
    AE12: Value,
    AE012: Value,
    BS: Value,
    BE0: Value,
    BE1: Value,
    BE2: Value,
    BE01: Value,
    BE02: Value,
    BE12: Value,
    BE012: Value,
    ensures
        difference(a.values(), b.values()) == sum(a.values(), negated(b.values())),
{
    assert(difference(a.values(), b.values()) =~= sum(a.values(), negated(b.values())));
}

/// A slot that the product shape marks absent is zero for every pair of
/// operands: each of its terms has a factor from an absent slot.
pub proof fn lemma_absent_product_slots_vanish<
    AS,
    AE0,
    AE1,
    AE2,
    AE01,
    AE02,
    AE12,
    AE012,
    BS,
    BE0,
    BE1,
    BE2,
    BE01,
    BE02,
    BE12,
    BE012,
>(
    a: GenericMultiVector<AS, AE0, AE1, AE2, AE01, AE02, AE12, AE012>,
    b: GenericMultiVector<BS, BE0, BE1, BE2, BE01, BE02, BE12, BE012>,
) where
    AS: Value,
    AE0: Value,
    AE1: Value,
    AE2: Value,
    AE01: Value,
    AE02: Value,
    AE12: Value,
    AE012: Value,
    BS: Value,
    BE0: Value,
    BE1: Value,
    BE2: Value,
    BE01: Value,
    BE02: Value,
    BE12: Value,
    BE012: Value,
    ensures
        forall|i: int|
            0 <= i < SLOTS && !#[trigger] product_shape(a.shape(), b.shape())[i] ==> product(
                a.values(),
                b.values(),
            )[i] == 0,
{
    a.s.lemma_value();
    b.s.lemma_value();
    a.e0.lemma_value();
    b.e0.lemma_value();
    a.e1.lemma_value();
    b.e1.lemma_value();
    a.e2.lemma_value();
    b.e2.lemma_value();
    a.e01.lemma_value();
    b.e01.lemma_value();
    a.e02.lemma_value();
    b.e02.lemma_value();
    a.e12.lemma_value();
    b.e12.lemma_value();
    a.e012.lemma_value();
    b.e012.lemma_value();
    lemma_zero_terms(a.values(), b.values());
    assert forall|i: int| 0 <= i < SLOTS && !#[trigger] product_shape(a.shape(), b.shape())[i] implies product(
        a.values(),
        b.values(),
    )[i] == 0 by {
        if i == 0 {
        } else if i == 1 {
        } else if i == 2 {
        } else if i == 3 {
        } else if i == 4 {
        } else if i == 5 {
        } else if i == 6 {
        } else {
        }
    }
}

/// The slot list that is one in slot `p` and zero elsewhere.
pub open spec fn unit(p: int) -> Seq<int> {
    Seq::new(SLOTS as nat, |k: int| if k == p { 1int } else { 0int })
}

/// A slot list of length `SLOTS` that is zero wherever `shape` marks a slot absent.
pub open spec fn has_shape(v: Seq<int>, shape: Seq<bool>) -> bool {
    &&& v.len() == SLOTS
    &&& forall|k: int| 0 <= k < SLOTS && !#[trigger] shape[k] ==> v[k] == 0
}

/// On unit operands a term is one exactly for the pair of slots that are one.
proof fn lemma_unit_terms(p: int, q: int)
    ensures
        forall|k: int, l: int|
            0 <= k < SLOTS && 0 <= l < SLOTS ==> #[trigger] unit(p)[k] * #[trigger] unit(q)[l] == if k
                == p && l == q {
                1int
            } else {
                0int
            },
{
    assert forall|k: int, l: int| 0 <= k < SLOTS && 0 <= l < SLOTS implies #[trigger] unit(p)[k]
        * #[trigger] unit(q)[l] == if k == p && l == q {
        1int
    } else {
        0int
    } by {
        let u = unit(p)[k];
        let v = unit(q)[l];
        assert(u == 0 || u == 1);
        assert(v == 0 || v == 1);
        assert((u == 0 || u == 1) && (v == 0 || v == 1) ==> u * v == if u == 1 && v == 1 {
            1int
        } else {
            0int
        }) by (nonlinear_arith);
    }
}

proof fn lemma_unit_product(x: Seq<bool>, y: Seq<bool>, i: int, p: int, q: int)
    requires
        0 <= p < SLOTS,
        0 <= q < SLOTS,
        x[p],
        y[q],
        product(unit(p), unit(q))[i] != 0,
    ensures
        exists|u: Seq<int>, w: Seq<int>|
            has_shape(u, x) && has_shape(w, y) && #[trigger] product(u, w)[i] != 0,
{
    assert(has_shape(unit(p), x));
    assert(has_shape(unit(q), y));
}

/// Each slot that the product shape marks present is nonzero for some operands
/// of the two shapes: the shape names no slot that is always zero.
pub proof fn lemma_present_product_slots_can_be_nonzero(x: Seq<bool>, y: Seq<bool>, i: int)
    requires
        x.len() == SLOTS,
        y.len() == SLOTS,
        0 <= i < SLOTS,
        product_shape(x, y)[i],
    ensures
        exists|u: Seq<int>, w: Seq<int>|
            has_shape(u, x) && has_shape(w, y) && #[trigger] product(u, w)[i] != 0,
{
    if i == 0 && x[0] && y[0] {
        lemma_unit_terms(0, 0);
        lemma_unit_product(x, y, i, 0, 0);
    } else if i == 0 && x[2] && y[2] {
        lemma_unit_terms(2, 2);
        lemma_unit_product(x, y, i, 2, 2);
    } else if i == 0 && x[3] && y[3] {
        lemma_unit_terms(3, 3);
        lemma_unit_product(x, y, i, 3, 3);
    } else if i == 0 && x[6] && y[6] {
        lemma_unit_terms(6, 6);
        lemma_unit_product(x, y, i, 6, 6);
    } else if i == 1 && x[0] && y[1] {
        lemma_unit_terms(0, 1);
        lemma_unit_product(x, y, i, 0, 1);
    } else if i == 1 && x[1] && y[0] {
        lemma_unit_terms(1, 0);
        lemma_unit_product(x, y, i, 1, 0);
    } else if i == 1 && x[2] && y[4] {
        lemma_unit_terms(2, 4);
        lemma_unit_product(x, y, i, 2, 4);
    } else if i == 1 && x[3] && y[5] {
        lemma_unit_terms(3, 5);
        lemma_unit_product(x, y, i, 3, 5);
    } else if i == 1 && x[4] && y[2] {
        lemma_unit_terms(4, 2);
        lemma_unit_product(x, y, i, 4, 2);
    } else if i == 1 && x[5] && y[3] {
        lemma_unit_terms(5, 3);
        lemma_unit_product(x, y, i, 5, 3);
    } else if i == 1 && x[6] && y[7] {
        lemma_unit_terms(6, 7);
        lemma_unit_product(x, y, i, 6, 7);
    } else if i == 1 && x[7] && y[6] {
        lemma_unit_terms(7, 6);
        lemma_unit_product(x, y, i, 7, 6);
    } else if i == 2 && x[0] && y[2] {
        lemma_unit_terms(0, 2);
        lemma_unit_product(x, y, i, 0, 2);
    } else if i == 2 && x[2] && y[0] {
        lemma_unit_terms(2, 0);
        lemma_unit_product(x, y, i, 2, 0);
    } else if i == 2 && x[3] && y[6] {
        lemma_unit_terms(3, 6);
        lemma_unit_product(x, y, i, 3, 6);
    } else if i == 2 && x[6] && y[3] {
        lemma_unit_terms(6, 3);
        lemma_unit_product(x, y, i, 6, 3);
    } else if i == 2 && x[6] && y[5] {
        lemma_unit_terms(6, 5);
        lemma_unit_product(x, y, i, 6, 5);
    } else if i == 3 && x[0] && y[3] {
        lemma_unit_terms(0, 3);
        lemma_unit_product(x, y, i, 0, 3);
    } else if i == 3 && x[3] && y[0] {
        lemma_unit_terms(3, 0);
        lemma_unit_product(x, y, i, 3, 0);
    } else if i == 3 && x[2] && y[6] {
        lemma_unit_terms(2, 6);
        lemma_unit_product(x, y, i, 2, 6);
    } else if i == 3 && x[4] && y[6] {
        lemma_unit_terms(4, 6);
        lemma_unit_product(x, y, i, 4, 6);
    } else if i == 3 && x[6] && y[2] {
        lemma_unit_terms(6, 2);
        lemma_unit_product(x, y, i, 6, 2);
    } else if i == 4 && x[0] && y[4] {
        lemma_unit_terms(0, 4);
        lemma_unit_product(x, y, i, 0, 4);
    } else if i == 4 && x[1] && y[2] {
        lemma_unit_terms(1, 2);
        lemma_unit_product(x, y, i, 1, 2);
    } else if i == 4 && x[2] && y[1] {
        lemma_unit_terms(2, 1);
        lemma_unit_product(x, y, i, 2, 1);
    } else if i == 4 && x[3] && y[7] {
        lemma_unit_terms(3, 7);
        lemma_unit_product(x, y, i, 3, 7);
    } else if i == 4 && x[4] && y[0] {
        lemma_unit_terms(4, 0);
        lemma_unit_product(x, y, i, 4, 0);
    } else if i == 4 && x[5] && y[6] {
        lemma_unit_terms(5, 6);
        lemma_unit_product(x, y, i, 5, 6);
    } else if i == 4 && x[7] && y[3] {
        lemma_unit_terms(7, 3);
        lemma_unit_product(x, y, i, 7, 3);
    } else if i == 5 && x[0] && y[5] {
        lemma_unit_terms(0, 5);
        lemma_unit_product(x, y, i, 0, 5);
    } else if i == 5 && x[1] && y[3] {
        lemma_unit_terms(1, 3);
        lemma_unit_product(x, y, i, 1, 3);
    } else if i == 5 && x[3] && y[1] {
        lemma_unit_terms(3, 1);
        lemma_unit_product(x, y, i, 3, 1);
    } else if i == 5 && x[2] && y[7] {
        lemma_unit_terms(2, 7);
        lemma_unit_product(x, y, i, 2, 7);
    } else if i == 5 && x[5] && y[0] {
        lemma_unit_terms(5, 0);
        lemma_unit_product(x, y, i, 5, 0);
    } else if i == 5 && x[6] && y[4] {
        lemma_unit_terms(6, 4);
        lemma_unit_product(x, y, i, 6, 4);
    } else if i == 5 && x[7] && y[2] {
        lemma_unit_terms(7, 2);
        lemma_unit_product(x, y, i, 7, 2);
    } else if i == 6 && x[0] && y[6] {
        lemma_unit_terms(0, 6);
        lemma_unit_product(x, y, i, 0, 6);
    } else if i == 6 && x[2] && y[3] {
        lemma_unit_terms(2, 3);
        lemma_unit_product(x, y, i, 2, 3);
    } else if i == 6 && x[3] && y[2] {
        lemma_unit_terms(3, 2);
        lemma_unit_product(x, y, i, 3, 2);
    } else if i == 6 && x[6] && y[0] {
        lemma_unit_terms(6, 0);
        lemma_unit_product(x, y, i, 6, 0);
    } else if i == 7 && x[0] && y[7] {
        lemma_unit_terms(0, 7);
        lemma_unit_product(x, y, i, 0, 7);
    } else if i == 7 && x[1] && y[7] {
        lemma_unit_terms(1, 7);
        lemma_unit_product(x, y, i, 1, 7);
    } else if i == 7 && x[2] && y[5] {
        lemma_unit_terms(2, 5);
        lemma_unit_product(x, y, i, 2, 5);
    } else if i == 7 && x[3] && y[4] {
        lemma_unit_terms(3, 4);
        lemma_unit_product(x, y, i, 3, 4);
    } else if i == 7 && x[4] && y[3] {
        lemma_unit_terms(4, 3);
        lemma_unit_product(x, y, i, 4, 3);
    } else if i == 7 && x[5] && y[2] {
        lemma_unit_terms(5, 2);
        lemma_unit_product(x, y, i, 5, 2);
    } else if i == 7 && x[6] && y[1] {
        lemma_unit_terms(6, 1);
        lemma_unit_product(x, y, i, 6, 1);
    } else if i == 7 && x[7] && y[0] {
        lemma_unit_terms(7, 0);
        lemma_unit_product(x, y, i, 7, 0);
    }
}

/// The product of two vectors holds values in `s`, `e01`, `e02` and `e12`; when
/// neither vector has an `e0` part, only `s` and `e12` can be nonzero.
pub proof fn lemma_vector_product_slots(a: Vector, b: Vector)
    ensures
        product_shape(a.shape(), b.shape()) == seq![true, false, false, false, true, true, true, false],
        a.e0 == 0 && b.e0 == 0 ==> forall|i: int|
            0 <= i < SLOTS && i != 0 && i != 6 ==> #[trigger] product(a.values(), b.values())[i] == 0,
{
    assert(product_shape(a.shape(), b.shape()) =~= seq![true, false, false, false, true, true, true, false]);
    lemma_zero_terms(a.values(), b.values());
}

} // verus!
