//! The mathematical model of multivectors: lists of slot values in basis
//! order, the operators on them, and when the operators fit in `T`.
use crate::value::fits;
use vstd::prelude::*;

verus! {

/// The number of basis slots: `s, e0, e1, e2, e01, e02, e12, e012`, in that order.
pub const SLOTS: usize = 8;

/// Slot-wise negation of a list of slot values.
pub open spec fn negated(v: Seq<int>) -> Seq<int> {
    Seq::new(SLOTS as nat, |i: int| -v[i])
}

/// Slot-wise sum.
pub open spec fn sum(a: Seq<int>, b: Seq<int>) -> Seq<int> {
    Seq::new(SLOTS as nat, |i: int| a[i] + b[i])
}

/// Slot-wise union of two shapes.
pub open spec fn union(a: Seq<bool>, b: Seq<bool>) -> Seq<bool> {
    Seq::new(SLOTS as nat, |i: int| a[i] || b[i])
}

/// Slot-wise difference.
pub open spec fn difference(a: Seq<int>, b: Seq<int>) -> Seq<int> {
    Seq::new(SLOTS as nat, |i: int| a[i] - b[i])
}

/// Every slot of the difference fits in `T`.
pub open spec fn difference_fits(a: Seq<int>, b: Seq<int>) -> bool {
    forall|i: int| 0 <= i < SLOTS ==> fits(a[i] - b[i])
}

/// Every slot of the negation fits in `T`.
pub open spec fn negation_fits(v: Seq<int>) -> bool {
    forall|i: int| 0 <= i < SLOTS ==> fits(-v[i])
}

/// Every slot of the sum fits in `T`.
pub open spec fn sum_fits(a: Seq<int>, b: Seq<int>) -> bool {
    forall|i: int| 0 <= i < SLOTS ==> fits(a[i] + b[i])
}

/// The geometric product of two slot lists, by the signed table of basis
/// products (left slots `a..h`, right slots `i..p`, both in basis order).
///
/// The table is kept exactly as it stands. Two rows look like slips in its
/// derivation: the `e1` row sums `g * l` and `g * n`, and the `e2` row counts
/// `d * i` twice. On general operands the table agrees with the algebra's own
/// product (`e0` squaring to zero, `e1` and `e2` to one) only in `s` and `e12`.
pub open spec fn product(x: Seq<int>, y: Seq<int>) -> Seq<int> {
    let a = x[0];
    let b = x[1];
    let c = x[2];
    let d = x[3];
    let e = x[4];
    let f = x[5];
    let g = x[6];
    let h = x[7];
    let i = y[0];
    let j = y[1];
    let k = y[2];
    let l = y[3];
    let m = y[4];
    let n = y[5];
    let o = y[6];
    let p = y[7];
    seq![
        a * i + c * k + d * l - g * o,
        a * j + b * i - c * m - d * n + e * k + f * l + g * p + h * o,
        a * k + c * i - d * o + g * l + g * n,
        a * l + d * i + c * o + d * i + e * o - g * k,
        a * m + b * k - c * j + d * p + e * i - f * o + h * l,
        a * n + b * l - d * j - c * p + f * i - g * m - h * k,
        a * o + c * l - d * k + g * i,
        a * p + b * p - c * n + d * m + e * l - f * k + g * j + h * i,
    ]
}

/// Which slots of a product hold a value: those with at least one term whose
/// two factors both hold a value.
pub open spec fn product_shape(x: Seq<bool>, y: Seq<bool>) -> Seq<bool> {
    let a = x[0];
    let b = x[1];
    let c = x[2];
    let d = x[3];
    let e = x[4];
    let f = x[5];
    let g = x[6];
    let h = x[7];
    let i = y[0];
    let j = y[1];
    let k = y[2];
    let l = y[3];
    let m = y[4];
    let n = y[5];
    let o = y[6];
    let p = y[7];
    seq![
        (a && i) || (c && k) || (d && l) || (g && o),
        (a && j) || (b && i) || (c && m) || (d && n) || (e && k) || (f && l) || (g && p) || (h && o),
        (a && k) || (c && i) || (d && o) || (g && l) || (g && n),
        (a && l) || (d && i) || (c && o) || (d && i) || (e && o) || (g && k),
        (a && m) || (b && k) || (c && j) || (d && p) || (e && i) || (f && o) || (h && l),
        (a && n) || (b && l) || (d && j) || (c && p) || (f && i) || (g && m) || (h && k),
        (a && o) || (c && l) || (d && k) || (g && i),
        (a && p) || (b && p) || (c && n) || (d && m) || (e && l) || (f && k) || (g && j) || (h && i),
    ]
}

/// Every term of the product, and every partial sum of each slot's terms in
/// the order of the table, fits in `T`: the product can be computed without
/// overflow.
pub open spec fn product_fits(x: Seq<int>, y: Seq<int>) -> bool {
    let a = x[0];
    let b = x[1];
    let c = x[2];
    let d = x[3];
    let e = x[4];
    let f = x[5];
    let g = x[6];
    let h = x[7];
    let i = y[0];
    let j = y[1];
    let k = y[2];
    let l = y[3];
    let m = y[4];
    let n = y[5];
    let o = y[6];
    let p = y[7];
    &&& fits(a * i)
    &&& fits(c * k)
    &&& fits(a * i + c * k)
    &&& fits(d * l)
    &&& fits(a * i + c * k + d * l)
    &&& fits(g * o)
    &&& fits(a * i + c * k + d * l - g * o)
    &&& fits(a * j)
    &&& fits(b * i)
    &&& fits(a * j + b * i)
    &&& fits(c * m)
    &&& fits(a * j + b * i - c * m)
    &&& fits(d * n)
    &&& fits(a * j + b * i - c * m - d * n)
    &&& fits(e * k)
    &&& fits(a * j + b * i - c * m - d * n + e * k)
    &&& fits(f * l)
    &&& fits(a * j + b * i - c * m - d * n + e * k + f * l)
    &&& fits(g * p)
    &&& fits(a * j + b * i - c * m - d * n + e * k + f * l + g * p)
    &&& fits(h * o)
    &&& fits(a * j + b * i - c * m - d * n + e * k + f * l + g * p + h * o)
    &&& fits(a * k)
    &&& fits(c * i)
    &&& fits(a * k + c * i)
    &&& fits(d * o)
    &&& fits(a * k + c * i - d * o)
    &&& fits(g * l)
    &&& fits(a * k + c * i - d * o + g * l)
    &&& fits(g * n)
    &&& fits(a * k + c * i - d * o + g * l + g * n)
    &&& fits(a * l)
    &&& fits(d * i)
    &&& fits(a * l + d * i)
    &&& fits(c * o)
    &&& fits(a * l + d * i + c * o)
    &&& fits(d * i)
    &&& fits(a * l + d * i + c * o + d * i)
    &&& fits(e * o)
    &&& fits(a * l + d * i + c * o + d * i + e * o)
    &&& fits(g * k)
    &&& fits(a * l + d * i + c * o + d * i + e * o - g * k)
    &&& fits(a * m)
    &&& fits(b * k)
    &&& fits(a * m + b * k)
    &&& fits(c * j)
    &&& fits(a * m + b * k - c * j)
    &&& fits(d * p)
    &&& fits(a * m + b * k - c * j + d * p)
    &&& fits(e * i)
    &&& fits(a * m + b * k - c * j + d * p + e * i)
    &&& fits(f * o)
    &&& fits(a * m + b * k - c * j + d * p + e * i - f * o)
    &&& fits(h * l)
    &&& fits(a * m + b * k - c * j + d * p + e * i - f * o + h * l)
    &&& fits(a * n)
    &&& fits(b * l)
    &&& fits(a * n + b * l)
    &&& fits(d * j)
    &&& fits(a * n + b * l - d * j)
    &&& fits(c * p)
    &&& fits(a * n + b * l - d * j - c * p)
    &&& fits(f * i)
    &&& fits(a * n + b * l - d * j - c * p + f * i)
    &&& fits(g * m)
    &&& fits(a * n + b * l - d * j - c * p + f * i - g * m)
    &&& fits(h * k)
    &&& fits(a * n + b * l - d * j - c * p + f * i - g * m - h * k)
    &&& fits(a * o)
    &&& fits(c * l)
    &&& fits(a * o + c * l)
    &&& fits(d * k)
    &&& fits(a * o + c * l - d * k)
    &&& fits(g * i)
    &&& fits(a * o + c * l - d * k + g * i)
    &&& fits(a * p)
    &&& fits(b * p)
    &&& fits(a * p + b * p)
    &&& fits(c * n)
    &&& fits(a * p + b * p - c * n)
    &&& fits(d * m)
    &&& fits(a * p + b * p - c * n + d * m)
    &&& fits(e * l)
    &&& fits(a * p + b * p - c * n + d * m + e * l)
    &&& fits(f * k)
    &&& fits(a * p + b * p - c * n + d * m + e * l - f * k)
    &&& fits(g * j)
    &&& fits(a * p + b * p - c * n + d * m + e * l - f * k + g * j)
    &&& fits(h * i)
    &&& fits(a * p + b * p - c * n + d * m + e * l - f * k + g * j + h * i)
}

/// Bound on the magnitude of the slots of a product's operands under which
/// the product never overflows.
pub const PRODUCT_LIMIT: i64 = 1073741824;

/// Every slot is strictly between `-PRODUCT_LIMIT` and `PRODUCT_LIMIT`.
pub open spec fn within_product_limit(v: Seq<int>) -> bool {
    forall|i: int| 0 <= i < SLOTS ==> -PRODUCT_LIMIT < #[trigger] v[i] < PRODUCT_LIMIT
}

/// One term of a product of operands within the limit.
proof fn lemma_term_bound(x: int, y: int)
    requires
        -PRODUCT_LIMIT < x < PRODUCT_LIMIT,
        -PRODUCT_LIMIT < y < PRODUCT_LIMIT,
    ensures
        -PRODUCT_LIMIT * PRODUCT_LIMIT < x * y < PRODUCT_LIMIT * PRODUCT_LIMIT,
{
    assert(-PRODUCT_LIMIT * PRODUCT_LIMIT < x * y < PRODUCT_LIMIT * PRODUCT_LIMIT) by (nonlinear_arith)
        requires
            -PRODUCT_LIMIT < x < PRODUCT_LIMIT,
            -PRODUCT_LIMIT < y < PRODUCT_LIMIT,
    ;
}

/// Operands within `PRODUCT_LIMIT` in every slot can always be multiplied.
pub proof fn lemma_product_fits_within_limit(x: Seq<int>, y: Seq<int>)
    requires
        x.len() == SLOTS,
        y.len() == SLOTS,
        within_product_limit(x),
        within_product_limit(y),
    ensures
        product_fits(x, y),
{
    assert forall|p: int, q: int| 0 <= p < SLOTS && 0 <= q < SLOTS implies -PRODUCT_LIMIT
        * PRODUCT_LIMIT < #[trigger] x[p] * #[trigger] y[q] < PRODUCT_LIMIT * PRODUCT_LIMIT by {
        lemma_term_bound(x[p], y[q]);
    }
}

} // verus!
