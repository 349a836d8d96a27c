use vstd::prelude::*;

use crate::layout::{
    coupling_block, coupling_index_spec, extracted_rotation, rotation_transform_spec,
    translation_transform_spec,
};
use crate::bilinear::{
    cross_component, cross_terms, evaluate, indices_below, lemma_evaluate_push, run_terms,
    strided_sum, BilinearRow, Term, ROW_CAPACITY,
};

verus! {

/// The dot product of two 6-vectors (the power of a force on a motion).
pub open spec fn dot_spec(a: Seq<int>, b: Seq<int>) -> int {
    strided_sum(a, 0, 1, b, 0, 1, 6)
}

/// Component `row` of the motion vector `v` carried by the spatial transform
/// `x` (row-major, 36 slots): row `row` of `x` times `v`, with the top-right
/// 3×3 block of `x` taken as zero, as it is in every rigid transform.
pub open spec fn motion_transform_spec(x: Seq<int>, v: Seq<int>, row: int) -> int {
    if row < 3 {
        strided_sum(x, row * 6, 1, v, 0, 1, 3)
    } else {
        strided_sum(x, row * 6, 1, v, 0, 1, 6)
    }
}

/// Component `row` of the force vector `f` carried by the spatial transform
/// `x`. Where `x` is `[[E, 0], [B, E']]` in 3×3 blocks, a force goes through
/// `[[E, B], [0, E']]`: the block below the diagonal acts above it.
pub open spec fn force_transform_spec(x: Seq<int>, f: Seq<int>, row: int) -> int {
    if row < 3 {
        strided_sum(x, row * 6, 1, f, 0, 1, 3) + strided_sum(x, (row + 3) * 6, 1, f, 3, 1, 3)
    } else {
        strided_sum(x, row * 6 + 3, 1, f, 3, 1, 3)
    }
}

/// Component `row` of the spatial cross product of motion vectors,
/// `(w, v) × (w', v') = (w × w', w × v' + v × w')`.
pub open spec fn cross_motion_spec(a: Seq<int>, b: Seq<int>, row: int) -> int {
    if row < 3 {
        cross_component(a, 0, b, 0, row)
    } else {
        cross_component(a, 0, b, 3, row - 3) + cross_component(a, 3, b, 0, row - 3)
    }
}

/// Component `row` of the spatial cross product of a motion-like vector with
/// a force, `(w, v) ×* (n, f) = (w × n + v × f, w × f)`.
pub open spec fn cross_force_spec(a: Seq<int>, b: Seq<int>, row: int) -> int {
    if row < 3 {
        cross_component(a, 0, b, 0, row) + cross_component(a, 3, b, 3, row)
    } else {
        cross_component(a, 0, b, 3, row - 3)
    }
}

/// Entry `k` of the product of two row-major `n`×`n` matrices.
pub open spec fn product_spec(a: Seq<int>, b: Seq<int>, n: int, k: int) -> int {
    strided_sum(a, (k / n) * n, 1, b, k % n, n, n as nat)
}

/// The product of two row-major `n`×`n` matrices.
pub open spec fn matrix_product(a: Seq<int>, b: Seq<int>, n: int) -> Seq<int> {
    Seq::new((n * n) as nat, |k: int| product_spec(a, b, n, k))
}

/// The transpose of a row-major 3×3 matrix.
pub open spec fn transpose_spec(a: Seq<int>) -> Seq<int> {
    Seq::new(9, |k: int| a[(k % 3) * 3 + k / 3])
}

/// The 3×3 identity, row-major.
pub open spec fn identity3() -> Seq<int> {
    Seq::new(9, |k: int| if k / 3 == k % 3 { 1 } else { 0 })
}

/// The motion vector `v` carried by the spatial transform `x`.
pub open spec fn motion_transform_vec(x: Seq<int>, v: Seq<int>) -> Seq<int> {
    Seq::new(6, |row: int| motion_transform_spec(x, v, row))
}

/// The force vector `f` carried by the spatial transform `x`.
pub open spec fn force_transform_vec(x: Seq<int>, f: Seq<int>) -> Seq<int> {
    Seq::new(6, |row: int| force_transform_spec(x, f, row))
}

/// The 6×6 identity, row-major.
pub open spec fn identity6() -> Seq<int> {
    Seq::new(36, |k: int| if k / 6 == k % 6 { 1 } else { 0 })
}

/// The translation `-p`.
pub open spec fn negated(p: Seq<int>) -> Seq<int> {
    Seq::new(3, |i: int| -p[i])
}

/// The spatial transform `rot(r) · xlt(p)` that a rotation and a translation
/// compose into (rotate, then translate).
pub open spec fn rigid_transform(r: Seq<int>, p: Seq<int>) -> Seq<int> {
    matrix_product(rotation_transform_spec(r), translation_transform_spec(p), 6)
}

/// The translation recovered from a spatial transform `t = rot(E) · xlt(p)`:
/// the plus-signed coupling entries of `Eᵗ` times the bottom-left block of
/// `t`, where `E` is the top-left block.
pub open spec fn recovered_translation(t: Seq<int>) -> Seq<int> {
    let q = matrix_product(transpose_spec(extracted_rotation(t)), coupling_block(t), 3);
    Seq::new(3, |i: int| q[coupling_index_spec(i)])
}

/// The inverse of the spatial transform `t = rot(E) · xlt(p)` for the
/// reverse frame change: `xlt(-p) · rot(Eᵗ)`, that is `(Eᵗ, -Eᵗ p)` in
/// rotate-then-translate form.
pub open spec fn inverse_transform_spec(t: Seq<int>) -> Seq<int> {
    matrix_product(
        translation_transform_spec(negated(recovered_translation(t))),
        rotation_transform_spec(transpose_spec(extracted_rotation(t))),
        6,
    )
}

/// The top-right 3×3 block of the 6×6 matrix `x` is zero, as in every
/// spatial transform built from rotations and translations.
pub open spec fn upper_right_zero(x: Seq<int>) -> bool {
    forall|row: int, col: int| 0 <= row < 3 && 3 <= col < 6 ==> #[trigger] x[row * 6 + col] == 0
}

/// The two diagonal 3×3 blocks of the 6×6 matrix `x` are equal, as in every
/// spatial transform built from rotations and translations.
pub open spec fn equal_diagonal_blocks(x: Seq<int>) -> bool {
    forall|row: int, col: int|
        0 <= row < 3 && 0 <= col < 3 ==> #[trigger] x[row * 6 + col] == x[(row + 3) * 6 + col + 3]
}

/// The terms of the dot product of two 6-vectors.
pub fn dot_row() -> (r: BilinearRow)
    ensures
        r.wf(),
        r@ == (run_terms(0, 1, 0, 1, 6)),
        r@.len() <= ROW_CAPACITY,
        indices_below(r@, 6, 6),
        forall|a: Seq<int>, b: Seq<int>| #[trigger] evaluate(r@, a, b) == dot_spec(a, b),
{
    let mut r = BilinearRow::empty();
    r.push_run(0, 1, 0, 1, 6);
    assert(r@ =~= (run_terms(0, 1, 0, 1, 6)));
    r
}

/// The terms of component `row` (`row < 6`) of a motion vector carried by a
/// spatial transform; the left operand is the transform, the right one the
/// vector.
pub fn motion_transform_row(row: usize) -> (r: BilinearRow)
    requires
        row < 6,
    ensures
        r.wf(),
        r@ == (run_terms(row * 6, 1, 0, 1, if row < 3 { 3 } else { 6 })),
        r@.len() <= ROW_CAPACITY,
        indices_below(r@, 36, 6),
        forall|x: Seq<int>, v: Seq<int>|
            #[trigger] evaluate(r@, x, v) == motion_transform_spec(x, v, row as int),
{
    let mut r = BilinearRow::empty();
    if row < 3 {
        r.push_run(row * 6, 1, 0, 1, 3);
    } else {
        r.push_run(row * 6, 1, 0, 1, 6);
    }
    assert(r@ =~= (run_terms(row * 6, 1, 0, 1, if row < 3 { 3 } else { 6 })));
    r
}

/// The terms of component `row` (`row < 6`) of a force vector carried by a
/// spatial transform; the left operand is the transform, the right one the
/// vector.
pub fn force_transform_row(row: usize) -> (r: BilinearRow)
    requires
        row < 6,
    ensures
        r.wf(),
        r@ == (if row < 3 {
            run_terms(row * 6, 1, 0, 1, 3) + run_terms((row + 3) * 6, 1, 3, 1, 3)
        } else {
            run_terms(row * 6 + 3, 1, 3, 1, 3)
        }),
        r@.len() <= ROW_CAPACITY,
        indices_below(r@, 36, 6),
        forall|x: Seq<int>, f: Seq<int>|
            #[trigger] evaluate(r@, x, f) == force_transform_spec(x, f, row as int),
{
    let mut r = BilinearRow::empty();
    if row < 3 {
        r.push_run(row * 6, 1, 0, 1, 3);
        r.push_run((row + 3) * 6, 1, 3, 1, 3);
    } else {
        r.push_run(row * 6 + 3, 1, 3, 1, 3);
    }
    assert(r@ =~= (if row < 3 {
            run_terms(row * 6, 1, 0, 1, 3) + run_terms((row + 3) * 6, 1, 3, 1, 3)
        } else {
            run_terms(row * 6 + 3, 1, 3, 1, 3)
        }));
    r
}

/// The terms of component `row` (`row < 6`) of the spatial cross product of
/// two motion vectors.
pub fn cross_motion_row(row: usize) -> (r: BilinearRow)
    requires
        row < 6,
    ensures
        r.wf(),
        r@ == (if row < 3 {
            cross_terms(0, 0, row as int)
        } else {
            cross_terms(0, 3, row as int - 3) + cross_terms(3, 0, row as int - 3)
        }),
        r@.len() <= ROW_CAPACITY,
        indices_below(r@, 6, 6),
        forall|a: Seq<int>, b: Seq<int>|
            #[trigger] evaluate(r@, a, b) == cross_motion_spec(a, b, row as int),
{
    let mut r = BilinearRow::empty();
    if row < 3 {
        r.push_cross(0, 0, row);
    } else {
        r.push_cross(0, 3, row - 3);
        r.push_cross(3, 0, row - 3);
    }
    assert(r@ =~= (if row < 3 {
            cross_terms(0, 0, row as int)
        } else {
            cross_terms(0, 3, row as int - 3) + cross_terms(3, 0, row as int - 3)
        }));
    r
}

/// The terms of component `row` (`row < 6`) of the spatial cross product of
/// a vector with a force.
pub fn cross_force_row(row: usize) -> (r: BilinearRow)
    requires
        row < 6,
    ensures
        r.wf(),
        r@ == (if row < 3 {
            cross_terms(0, 0, row as int) + cross_terms(3, 3, row as int)
        } else {
            cross_terms(0, 3, row as int - 3)
        }),
        r@.len() <= ROW_CAPACITY,
        indices_below(r@, 6, 6),
        forall|a: Seq<int>, b: Seq<int>|
            #[trigger] evaluate(r@, a, b) == cross_force_spec(a, b, row as int),
{
    let mut r = BilinearRow::empty();
    if row < 3 {
        r.push_cross(0, 0, row);
        r.push_cross(3, 3, row);
    } else {
        r.push_cross(0, 3, row - 3);
    }
    assert(r@ =~= (if row < 3 {
            cross_terms(0, 0, row as int) + cross_terms(3, 3, row as int)
        } else {
            cross_terms(0, 3, row as int - 3)
        }));
    r
}

/// The terms of entry `k` (`k < 9`) of the product of two 3×3 matrices.
pub fn rotation_product_row(k: usize) -> (r: BilinearRow)
    requires
        k < 9,
    ensures
        r.wf(),
        r@ == (run_terms((k as int / 3) * 3, 1, k as int % 3, 3, 3)),
        r@.len() <= ROW_CAPACITY,
        indices_below(r@, 9, 9),
        forall|a: Seq<int>, b: Seq<int>|
            #[trigger] evaluate(r@, a, b) == product_spec(a, b, 3, k as int),
{
    let mut r = BilinearRow::empty();
    r.push_run((k / 3) * 3, 1, k % 3, 3, 3);
    assert(r@ =~= (run_terms((k as int / 3) * 3, 1, k as int % 3, 3, 3)));
    r
}

/// The terms of entry `k` (`k < 36`) of the product of two 6×6 matrices.
pub fn transform_product_row(k: usize) -> (r: BilinearRow)
    requires
        k < 36,
    ensures
        r.wf(),
        r@ == (run_terms((k as int / 6) * 6, 1, k as int % 6, 6, 6)),
        r@.len() <= ROW_CAPACITY,
        indices_below(r@, 36, 36),
        forall|a: Seq<int>, b: Seq<int>|
            #[trigger] evaluate(r@, a, b) == product_spec(a, b, 6, k as int),
{
    let mut r = BilinearRow::empty();
    r.push_run((k / 6) * 6, 1, k % 6, 6, 6);
    assert(r@ =~= (run_terms((k as int / 6) * 6, 1, k as int % 6, 6, 6)));
    r
}

/// Position, among the inertia parameters
/// `[mass, i_xx, i_yy, i_zz, i_xy, i_xz, i_yz]`, of entry (`row`, `col`) of
/// the symmetric rotational inertia tensor.
pub open spec fn tensor_param_spec(row: int, col: int) -> int {
    if row == col {
        1 + row
    } else if row + col == 1 {
        4
    } else if row + col == 2 {
        5
    } else {
        6
    }
}

/// The inertia parameter at entry (`row`, `col`) (both below 3) of the
/// rotational inertia tensor.
pub fn tensor_param(row: usize, col: usize) -> (k: usize)
    requires
        row < 3,
        col < 3,
    ensures
        k == tensor_param_spec(row as int, col as int),
        1 <= k < 7,
{
    if row == col {
        1 + row
    } else if row + col == 1 {
        4
    } else if row + col == 2 {
        5
    } else {
        6
    }
}

/// The terms of component `row` (`row < 3`) of the angular momentum of a
/// rigid body: the inertia tensor applied to the angular velocity. The left
/// operand is the inertia parameters, the right one the motion vector.
pub fn inertia_tensor_row(row: usize) -> (r: BilinearRow)
    requires
        row < 3,
    ensures
        r.wf(),
        r@ == Seq::new(
            3,
            |c: int|
                Term { positive: true, left: tensor_param_spec(row as int, c) as usize, right: c as usize },
        ),
        indices_below(r@, 7, 6),
        forall|m: Seq<int>, w: Seq<int>|
            #[trigger] evaluate(r@, m, w) == m[tensor_param_spec(row as int, 0)] * w[0] + m[tensor_param_spec(
                row as int,
                1,
            )] * w[1] + m[tensor_param_spec(row as int, 2)] * w[2],
{
    let mut r = BilinearRow::empty();
    let t0 = Term { positive: true, left: tensor_param(row, 0), right: 0 };
    let t1 = Term { positive: true, left: tensor_param(row, 1), right: 1 };
    let t2 = Term { positive: true, left: tensor_param(row, 2), right: 2 };
    r.push(t0);
    let ghost s1 = r@;
    r.push(t1);
    let ghost s2 = r@;
    r.push(t2);
    assert forall|m: Seq<int>, w: Seq<int>|
        #[trigger] evaluate(r@, m, w) == m[tensor_param_spec(row as int, 0)] * w[0] + m[tensor_param_spec(
            row as int,
            1,
        )] * w[1] + m[tensor_param_spec(row as int, 2)] * w[2] by {
        lemma_evaluate_push(Seq::<Term>::empty(), t0, m, w);
        assert(Seq::<Term>::empty().push(t0) == s1);
        lemma_evaluate_push(s1, t1, m, w);
        lemma_evaluate_push(s2, t2, m, w);
    }
    assert(r@ =~= Seq::new(
        3,
        |c: int|
            Term { positive: true, left: tensor_param_spec(row as int, c) as usize, right: c as usize },
    ));
    r
}

/// The terms of component `i` (`i < 3`) of `w × c`: the angular velocity of
/// a motion vector (left operand) crossed with a center-of-mass offset
/// (right operand, three components).
pub fn offset_cross_row(i: usize) -> (r: BilinearRow)
    requires
        i < 3,
    ensures
        r.wf(),
        r@ == cross_terms(0, 0, i as int),
        indices_below(r@, 3, 3),
        forall|w: Seq<int>, c: Seq<int>|
            #[trigger] evaluate(r@, w, c) == cross_component(w, 0, c, 0, i as int),
{
    let mut r = BilinearRow::empty();
    r.push_cross(0, 0, i);
    assert(r@ =~= cross_terms(0, 0, i as int));
    r
}

} // verus!
