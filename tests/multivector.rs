use pga2d::multivector::{
    BiVector, GenericMultiVector, Line, MultiVector, Point, Scalar, TriVector, Vector,
};
use pga2d::value::{Value, Zero, T};

fn prime_operands() -> (MultiVector, MultiVector) {
    (
        MultiVector::new(2, 3, 5, 7, 11, 13, 17, 19),
        MultiVector::new(23, 29, 31, 37, 41, 43, 47, 53),
    )
}

#[test]
fn builds_each_specialization() {
    assert_eq!(Scalar::new(4).components(), [4, 0, 0, 0, 0, 0, 0, 0]);
    assert_eq!(Vector::new(3, -4, 5).components(), [0, 3, -4, 5, 0, 0, 0, 0]);
    assert_eq!(BiVector::new(3, -4, 5).components(), [0, 0, 0, 0, 3, -4, 5, 0]);
    assert_eq!(TriVector::new(-9).components(), [0, 0, 0, 0, 0, 0, 0, -9]);
    assert_eq!(
        MultiVector::new(1, 2, 3, 4, 5, 6, 7, 8).components(),
        [1, 2, 3, 4, 5, 6, 7, 8]
    );
    let line: Line = Vector::new(1, 2, 3);
    let point: Point = BiVector::new(4, 5, 6);
    assert_eq!(line.e2, 3);
    assert_eq!(point.e12, 6);
}

#[test]
fn absent_slot_reads_as_zero() {
    assert_eq!(Zero.get(), 0);
    let v = Vector::new(3, -4, 5);
    assert_eq!(v.s.get(), 0);
    assert_eq!(v.e012.get(), 0);
    assert_eq!(v.e1.get(), -4);
}

#[test]
fn negation_keeps_shape_and_flips_values() {
    let n: Vector = Vector::new(3, -4, 5).neg();
    assert_eq!(n, Vector::new(-3, 4, -5));
    let m = MultiVector::new(1, -2, 3, -4, 5, -6, 7, -8).neg();
    assert_eq!(m.components(), [-1, 2, -3, 4, -5, 6, -7, 8]);
}

#[test]
fn negation_is_an_involution() {
    let (a, _) = prime_operands();
    assert_eq!(a.neg().neg(), a);
    let p = BiVector::new(0, -7, 12);
    assert_eq!(p.neg().neg(), p);
}

#[test]
fn sum_of_vectors_is_a_vector() {
    let r: Vector = Vector::new(1, 2, 3).add(Vector::new(10, -20, 30));
    assert_eq!(r, Vector::new(11, -18, 33));
}

#[test]
fn sum_of_mixed_shapes_is_the_union() {
    let r: GenericMultiVector<Zero, T, T, T, T, T, T, Zero> =
        Vector::new(1, 2, 3).add(BiVector::new(4, 5, 6));
    assert_eq!(r.components(), [0, 1, 2, 3, 4, 5, 6, 0]);
    let s: GenericMultiVector<T, Zero, Zero, Zero, Zero, Zero, Zero, T> =
        Scalar::new(7).add(TriVector::new(8));
    assert_eq!(s.components(), [7, 0, 0, 0, 0, 0, 0, 8]);
}

#[test]
fn sum_is_commutative_and_associative() {
    let (a, b) = prime_operands();
    let c = MultiVector::new(-1, 4, -9, 16, -25, 36, -49, 64);
    assert_eq!(a.add(b), b.add(a));
    assert_eq!(a.add(b).add(c), a.add(b.add(c)));
    let v = Vector::new(1, 2, 3);
    let p = BiVector::new(4, 5, 6);
    assert_eq!(v.add(p), p.add(v));
}

#[test]
fn sum_with_negation_is_zero_of_the_same_shape() {
    let v = Vector::new(3, -4, 5);
    let z: Vector = v.add(v.neg());
    assert_eq!(z, Vector::new(0, 0, 0));
    let (a, _) = prime_operands();
    assert_eq!(a.add(a.neg()).components(), [0; 8]);
}

#[test]
fn difference_is_sum_of_negation() {
    let (a, b) = prime_operands();
    assert_eq!(a.sub(b), a.add(b.neg()));
    assert_eq!(a.sub(b).components(), [-21, -26, -26, -30, -30, -30, -30, -34]);
    let v = Vector::new(1, 2, 3);
    let p = BiVector::new(4, 5, 6);
    assert_eq!(v.sub(p), v.add(p.neg()));
}

#[test]
fn difference_with_an_absent_side() {
    let r: GenericMultiVector<T, T, T, T, Zero, Zero, Zero, Zero> =
        Scalar::new(5).sub(Vector::new(1, -2, 3));
    assert_eq!(r.components(), [5, -1, 2, -3, 0, 0, 0, 0]);
    let q: GenericMultiVector<T, T, T, T, Zero, Zero, Zero, Zero> =
        Vector::new(1, -2, 3).sub(Scalar::new(5));
    assert_eq!(q.components(), [-5, 1, -2, 3, 0, 0, 0, 0]);
}

// The product follows its signed table as written. On these operands the
// table agrees with the algebra's own product (e0 and e1, e2 squaring to
// 0, 1, 1) only in `s` and `e12`; the algebra would give
// [-339, -1351, 477, -57, 1477, -741, 453, 1253]. The table's rows look like
// slips in its derivation and are kept as they stand.
#[test]
fn product_follows_table_on_prime_operands() {
    let (a, b) = prime_operands();
    assert_eq!(
        a.mul(b),
        MultiVector::new(-339, 2237, 1208, 621, 746, -1258, 453, 1271)
    );
}

#[test]
fn vector_product_has_scalar_and_bivector_slots() {
    let r: GenericMultiVector<T, Zero, Zero, Zero, T, T, T, Zero> =
        Vector::new(3, -4, 5).mul(Vector::new(2, 7, -6));
    assert_eq!(r.components(), [-58, 0, 0, 0, 29, -28, -11, 0]);
}

#[test]
fn euclidean_vector_product_is_scalar_and_e12() {
    let r = Vector::new(0, -4, 5).mul(Vector::new(0, 7, -6));
    assert_eq!(r.components(), [-58, 0, 0, 0, 0, 0, -11, 0]);
}

#[test]
fn product_shapes_of_named_pairs() {
    let r: Vector = Scalar::new(2).mul(Vector::new(1, 2, 3));
    assert_eq!(r, Vector::new(2, 4, 6));
    let r: BiVector = Scalar::new(2).mul(BiVector::new(3, -5, 7));
    assert_eq!(r, BiVector::new(6, -10, 14));
    let r: GenericMultiVector<T, Zero, T, T, T, T, Zero, Zero> =
        BiVector::new(3, -5, 7).mul(BiVector::new(2, 11, -13));
    assert_eq!(r.components(), [91, 0, 77, -39, -65, -14, 0, 0]);
    let r: GenericMultiVector<Zero, T, Zero, Zero, Zero, Zero, Zero, Zero> =
        TriVector::new(3).mul(BiVector::new(2, 11, -13));
    assert_eq!(r.components(), [0, -39, 0, 0, 0, 0, 0, 0]);
    let r: GenericMultiVector<Zero, Zero, Zero, Zero, Zero, Zero, Zero, Zero> =
        TriVector::new(3).mul(TriVector::new(4));
    assert_eq!(r.components(), [0; 8]);
}

// Suspected slip: the e1 row sums e12 times both e2 and e02.
#[test]
fn e1_row_pairs_e12_with_e2_and_e02() {
    let g = BiVector::new(0, 0, 3);
    let with_e2 = g.mul(MultiVector::new(0, 0, 0, 5, 0, 0, 0, 0));
    assert_eq!(with_e2.e1, 15);
    let with_e02 = g.mul(MultiVector::new(0, 0, 0, 0, 0, 7, 0, 0));
    assert_eq!(with_e02.e1, 21);
}

// Suspected slip: the e2 row counts e2 times s twice.
#[test]
fn e2_row_counts_e2_times_scalar_twice() {
    let r: Vector = Vector::new(0, 0, 5).mul(Scalar::new(3));
    assert_eq!(r, Vector::new(0, 0, 30));
}

#[test]
fn convert_into_widens_without_changing_values() {
    let v = Vector::new(1, 2, 3);
    let w: MultiVector = v.convert_into();
    assert_eq!(w, MultiVector::new(0, 1, 2, 3, 0, 0, 0, 0));
    let p: GenericMultiVector<Zero, T, T, T, T, T, T, Zero> = BiVector::new(4, 5, 6).convert_into();
    assert_eq!(p.components(), [0, 0, 0, 0, 4, 5, 6, 0]);
    let same: Vector = v.convert_into();
    assert_eq!(same, v);
}

#[test]
fn widened_shapes_compare_slot_by_slot() {
    let v = Vector::new(1, 2, 3);
    let s = Scalar::new(0);
    let a: MultiVector = v.convert_into();
    let b: MultiVector = v.add(s).convert_into();
    assert_eq!(a, b);
    let c: MultiVector = Vector::new(1, 2, 4).convert_into();
    assert_ne!(a, c);
}
