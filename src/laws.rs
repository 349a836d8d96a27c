use vstd::prelude::*;

use crate::algebra::{
    cross_motion_spec, dot_spec, equal_diagonal_blocks, force_transform_spec, force_transform_vec,
    identity3, matrix_product, motion_transform_spec, motion_transform_vec, product_spec,
    transpose_spec, upper_right_zero,
};
use crate::basis::{elementary_matrix, Basis};
use crate::bilinear::strided_sum;
use crate::layout::{rotation_transform_spec, translation_transform_spec};

verus! {

proof fn lemma_strided_sum_swap(a: Seq<int>, lo: int, ls: int, b: Seq<int>, ro: int, rs: int, n: nat)
    ensures
        strided_sum(a, lo, ls, b, ro, rs, n) == strided_sum(b, ro, rs, a, lo, ls, n),
    decreases n,
{
    if n > 0 {
        lemma_strided_sum_swap(a, lo, ls, b, ro, rs, (n - 1) as nat);
        vstd::arithmetic::mul::lemma_mul_is_commutative(
            a[lo + (n - 1) * ls],
            b[ro + (n - 1) * rs],
        );
    }
}

/// The pairing of a force with a motion is symmetric: `f · m == m · f`, so
/// a force dotted with a motion and the motion dotted with the force agree.
pub proof fn lemma_dot_symmetric(f: Seq<int>, m: Seq<int>)
    requires
        f.len() == 6,
        m.len() == 6,
    ensures
        dot_spec(f, m) == dot_spec(m, f),
{
    lemma_strided_sum_swap(f, 0, 1, m, 0, 1, 6);
}

/// The spatial cross product of a motion vector with itself is zero in
/// every component.
pub proof fn lemma_cross_motion_self_zero(m: Seq<int>)
    requires
        m.len() == 6,
    ensures
        forall|row: int| 0 <= row < 6 ==> #[trigger] cross_motion_spec(m, m, row) == 0,
{
    assert forall|row: int| 0 <= row < 6 implies #[trigger] cross_motion_spec(m, m, row) == 0 by {
        let i = if row < 3 { row } else { row - 3 };
        let j = (i + 1) % 3;
        let k = (i + 2) % 3;
        vstd::arithmetic::mul::lemma_mul_is_commutative(m[j], m[k]);
        vstd::arithmetic::mul::lemma_mul_is_commutative(m[j], m[3 + k]);
        vstd::arithmetic::mul::lemma_mul_is_commutative(m[k], m[3 + j]);
    }
}

proof fn lemma_distribute3(p: int, q: int, r: int, w: int)
    ensures
        (p + q + r) * w == p * w + q * w + r * w,
        w * (p + q + r) == w * p + w * q + w * r,
{
    vstd::arithmetic::mul::lemma_mul_is_distributive_add_other_way(w, p + q, r);
    vstd::arithmetic::mul::lemma_mul_is_distributive_add_other_way(w, p, q);
    vstd::arithmetic::mul::lemma_mul_is_distributive_add(w, p + q, r);
    vstd::arithmetic::mul::lemma_mul_is_distributive_add(w, p, q);
}

proof fn lemma_row_column_regroup(a: int, b0: int, b1: int, b2: int, c0: int, c1: int, c2: int)
    ensures
        (a * b0) * c0 + (a * b1) * c1 + (a * b2) * c2 == a * (b0 * c0 + b1 * c1 + b2 * c2),
{
    vstd::arithmetic::mul::lemma_mul_is_associative(a, b0, c0);
    vstd::arithmetic::mul::lemma_mul_is_associative(a, b1, c1);
    vstd::arithmetic::mul::lemma_mul_is_associative(a, b2, c2);
    lemma_distribute3(b0 * c0, b1 * c1, b2 * c2, a);
}

pub(crate) proof fn lemma_triple_product_regroup(
    a0: int, a1: int, a2: int,
    b0: int, b1: int, b2: int, b3: int, b4: int, b5: int, b6: int, b7: int, b8: int,
    c0: int, c1: int, c2: int,
)
    ensures
        (a0 * b0 + a1 * b3 + a2 * b6) * c0 + (a0 * b1 + a1 * b4 + a2 * b7) * c1 + (a0 * b2 + a1
            * b5 + a2 * b8) * c2 == a0 * (b0 * c0 + b1 * c1 + b2 * c2) + a1 * (b3 * c0 + b4 * c1
            + b5 * c2) + a2 * (b6 * c0 + b7 * c1 + b8 * c2),
{
    lemma_distribute3(a0 * b0, a1 * b3, a2 * b6, c0);
    lemma_distribute3(a0 * b1, a1 * b4, a2 * b7, c1);
    lemma_distribute3(a0 * b2, a1 * b5, a2 * b8, c2);
    lemma_row_column_regroup(a0, b0, b1, b2, c0, c1, c2);
    lemma_row_column_regroup(a1, b3, b4, b5, c0, c1, c2);
    lemma_row_column_regroup(a2, b6, b7, b8, c0, c1, c2);
}

/// Entry `k` of the product of two 3×3 matrices, written out.
pub(crate) proof fn lemma_product3_entry(a: Seq<int>, b: Seq<int>, k: int)
    requires
        0 <= k < 9,
    ensures
        product_spec(a, b, 3, k) == a[(k / 3) * 3] * b[k % 3] + a[(k / 3) * 3 + 1] * b[k % 3 + 3]
            + a[(k / 3) * 3 + 2] * b[k % 3 + 6],
{
    reveal_with_fuel(strided_sum, 4);
}

/// The product of 3×3 matrices is associative: `(a b) c == a (b c)`.
pub proof fn lemma_rotation_product_associative(a: Seq<int>, b: Seq<int>, c: Seq<int>)
    requires
        a.len() == 9,
        b.len() == 9,
        c.len() == 9,
    ensures
        matrix_product(matrix_product(a, b, 3), c, 3) == matrix_product(a, matrix_product(b, c, 3), 3),
{
    let ab = matrix_product(a, b, 3);
    let bc = matrix_product(b, c, 3);
    assert forall|k: int| 0 <= k < 9 implies #[trigger] matrix_product(ab, c, 3)[k]
        == matrix_product(a, bc, 3)[k] by {
        let i = k / 3;
        let j = k % 3;
        lemma_product3_entry(ab, c, k);
        lemma_product3_entry(a, bc, k);
        lemma_product3_entry(a, b, i * 3);
        lemma_product3_entry(a, b, i * 3 + 1);
        lemma_product3_entry(a, b, i * 3 + 2);
        lemma_product3_entry(b, c, j);
        lemma_product3_entry(b, c, 3 + j);
        lemma_product3_entry(b, c, 6 + j);
        lemma_triple_product_regroup(
            a[i * 3], a[i * 3 + 1], a[i * 3 + 2],
            b[0], b[1], b[2], b[3], b[4], b[5], b[6], b[7], b[8],
            c[j], c[3 + j], c[6 + j],
        );
    }
    assert(matrix_product(ab, c, 3) =~= matrix_product(a, bc, 3));
}

/// An elementary rotation times its transpose is the identity, for any angle
/// whose cosine `c` and sine `s` satisfy `c² + s² = 1`.
pub proof fn lemma_elementary_rotation_orthonormal(axis: Basis, c: int, s: int)
    requires
        c * c + s * s == 1,
    ensures
        matrix_product(elementary_matrix(axis, c, s), transpose_spec(elementary_matrix(axis, c, s)), 3)
            == identity3(),
{
    let m = elementary_matrix(axis, c, s);
    let t = transpose_spec(m);
    assert forall|k: int| 0 <= k < 9 implies #[trigger] matrix_product(m, t, 3)[k] == identity3()[k] by {
        lemma_product3_entry(m, t, k);
        assert(c * s == s * c) by (nonlinear_arith);
        assert(c * (-s) == -(c * s)) by (nonlinear_arith);
        assert((-s) * c == -(s * c)) by (nonlinear_arith);
        assert((-s) * (-s) == s * s) by (nonlinear_arith);
    }
    assert(matrix_product(m, t, 3) =~= identity3());
}

/// `f(0) + f(1) + ... + f(5)`.
pub(crate) open spec fn sum6(f: spec_fn(int) -> int) -> int {
    f(0) + f(1) + f(2) + f(3) + f(4) + f(5)
}

pub(crate) proof fn lemma_strided_sum6(a: Seq<int>, lo: int, ls: int, b: Seq<int>, ro: int, rs: int)
    ensures
        strided_sum(a, lo, ls, b, ro, rs, 6) == sum6(|c: int| a[lo + c * ls] * b[ro + c * rs]),
{
    reveal_with_fuel(strided_sum, 7);
}

proof fn lemma_scale_sum6(f: spec_fn(int) -> int, w: int)
    ensures
        sum6(f) * w == sum6(|c: int| f(c) * w),
        w * sum6(f) == sum6(|c: int| w * f(c)),
{
    let s3 = f(0) + f(1) + f(2);
    let t3 = f(3) + f(4) + f(5);
    lemma_distribute3(f(0), f(1), f(2), w);
    lemma_distribute3(f(3), f(4), f(5), w);
    vstd::arithmetic::mul::lemma_mul_is_distributive_add_other_way(w, s3, t3);
    vstd::arithmetic::mul::lemma_mul_is_distributive_add(w, s3, t3);
}

/// `sum_k a[k] b[k][c]`: entry `c` of the row `a` times the row-major 6×6
/// matrix `b`.
spec fn row_times_column(a: Seq<int>, b: Seq<int>, c: int) -> int {
    sum6(|k: int| a[k] * b[k * 6 + c])
}

/// `sum_c b[k][c] v[c]`: entry `k` of the row-major 6×6 matrix `b` times
/// the vector `v`.
spec fn matrix_times_vector(b: Seq<int>, v: Seq<int>, k: int) -> int {
    sum6(|c: int| b[k * 6 + c] * v[c])
}

/// `(a b) v == a (b v)` for a row `a` of six entries and a row-major 6×6
/// matrix `b`.
proof fn lemma_row_matrix_vector(a: Seq<int>, b: Seq<int>, v: Seq<int>)
    ensures
        sum6(|c: int| row_times_column(a, b, c) * v[c]) == sum6(
            |k: int| a[k] * matrix_times_vector(b, v, k),
        ),
{
    let term = |k: int, c: int| a[k] * (b[k * 6 + c] * v[c]);
    assert forall|c: int| 0 <= c < 6 implies #[trigger] row_times_column(a, b, c) * v[c] == sum6(
        |k: int| term(k, c),
    ) by {
        lemma_scale_sum6(|k: int| a[k] * b[k * 6 + c], v[c]);
        assert forall|k: int| 0 <= k < 6 implies (a[k] * b[k * 6 + c]) * v[c] == #[trigger] term(k, c) by {
            vstd::arithmetic::mul::lemma_mul_is_associative(a[k], b[k * 6 + c], v[c]);
        }
    }
    assert forall|k: int| 0 <= k < 6 implies a[k] * #[trigger] matrix_times_vector(b, v, k) == sum6(
        |c: int| term(k, c),
    ) by {
        lemma_scale_sum6(|c: int| b[k * 6 + c] * v[c], a[k]);
    }
}

/// A transform with a zero top-right block carries a motion vector as the
/// full matrix-vector product.
proof fn lemma_motion_transform_full(x: Seq<int>, v: Seq<int>, row: int)
    requires
        x.len() == 36,
        upper_right_zero(x),
        0 <= row < 6,
    ensures
        motion_transform_spec(x, v, row) == sum6(|c: int| x[row * 6 + c] * v[c]),
{
    lemma_strided_sum6(x, row * 6, 1, v, 0, 1);
    if row < 3 {
        reveal_with_fuel(strided_sum, 4);
        assert(x[row * 6 + 3] == 0);
        assert(x[row * 6 + 4] == 0);
        assert(x[row * 6 + 5] == 0);
        vstd::arithmetic::mul::lemma_mul_basics(v[3]);
        vstd::arithmetic::mul::lemma_mul_basics(v[4]);
        vstd::arithmetic::mul::lemma_mul_basics(v[5]);
    }
}

/// The product of two transforms with zero top-right blocks has a zero
/// top-right block.
pub proof fn lemma_product_upper_right_zero(x2: Seq<int>, x1: Seq<int>)
    requires
        x2.len() == 36,
        x1.len() == 36,
        upper_right_zero(x2),
        upper_right_zero(x1),
    ensures
        upper_right_zero(matrix_product(x2, x1, 6)),
{
    let p = matrix_product(x2, x1, 6);
    assert forall|row: int, col: int| 0 <= row < 3 && 3 <= col < 6 implies #[trigger] p[row * 6 + col]
        == 0 by {
        let k = row * 6 + col;
        assert(k / 6 == row && k % 6 == col);
        lemma_strided_sum6(x2, row * 6, 1, x1, col, 6);
        assert(x1[0 * 6 + col] == 0);
        assert(x1[1 * 6 + col] == 0);
        assert(x1[2 * 6 + col] == 0);
        assert(x2[row * 6 + 3] == 0 && x2[row * 6 + 4] == 0 && x2[row * 6 + 5] == 0);
        vstd::arithmetic::mul::lemma_mul_basics(x2[row * 6]);
        vstd::arithmetic::mul::lemma_mul_basics(x2[row * 6 + 1]);
        vstd::arithmetic::mul::lemma_mul_basics(x2[row * 6 + 2]);
        vstd::arithmetic::mul::lemma_mul_basics(x1[18 + col]);
        vstd::arithmetic::mul::lemma_mul_basics(x1[24 + col]);
        vstd::arithmetic::mul::lemma_mul_basics(x1[30 + col]);
    }
}

/// Carrying a motion vector by `x1` and then by `x2` is carrying it once by
/// the product `x2 x1`, for transforms whose top-right block is zero.
pub proof fn lemma_motion_transform_composition(x2: Seq<int>, x1: Seq<int>, v: Seq<int>)
    requires
        x2.len() == 36,
        x1.len() == 36,
        v.len() == 6,
        upper_right_zero(x2),
        upper_right_zero(x1),
    ensures
        motion_transform_vec(matrix_product(x2, x1, 6), v) == motion_transform_vec(
            x2,
            motion_transform_vec(x1, v),
        ),
{
    let p = matrix_product(x2, x1, 6);
    let w = motion_transform_vec(x1, v);
    lemma_product_upper_right_zero(x2, x1);
    assert forall|row: int| 0 <= row < 6 implies #[trigger] motion_transform_vec(p, v)[row]
        == motion_transform_vec(x2, w)[row] by {
        let a = Seq::new(6, |k: int| x2[row * 6 + k]);
        lemma_motion_transform_full(p, v, row);
        lemma_motion_transform_full(x2, w, row);
        assert forall|c: int| 0 <= c < 6 implies #[trigger] row_times_column(a, x1, c) == p[row * 6
            + c] by {
            let k = row * 6 + c;
            assert(k / 6 == row && k % 6 == c);
            lemma_strided_sum6(x2, row * 6, 1, x1, c, 6);
        }
        assert forall|k: int| 0 <= k < 6 implies #[trigger] matrix_times_vector(x1, v, k) == w[k] by {
            lemma_motion_transform_full(x1, v, k);
        }
        lemma_row_matrix_vector(a, x1, v);
    }
    assert(motion_transform_vec(p, v) =~= motion_transform_vec(x2, w));
}

/// The 6×6 matrix through which the transform `x` carries a force:
/// `[[E, B], [0, E']]` where `x` is `[[E, 0], [B, E']]`.
spec fn force_matrix(x: Seq<int>) -> Seq<int> {
    Seq::new(
        36,
        |k: int|
            {
                let (row, col) = (k / 6, k % 6);
                if row < 3 && col < 3 {
                    x[k]
                } else if row < 3 {
                    x[(row + 3) * 6 + col - 3]
                } else if col >= 3 {
                    x[k]
                } else {
                    0
                }
            },
    )
}

proof fn lemma_force_transform_full(x: Seq<int>, f: Seq<int>, row: int)
    requires
        x.len() == 36,
        0 <= row < 6,
    ensures
        force_transform_spec(x, f, row) == sum6(|c: int| force_matrix(x)[row * 6 + c] * f[c]),
{
    let g = force_matrix(x);
    reveal_with_fuel(strided_sum, 4);
    assert(g[row * 6 + 0] == if row < 3 { x[row * 6] } else { 0 });
    assert(g[row * 6 + 1] == if row < 3 { x[row * 6 + 1] } else { 0 });
    assert(g[row * 6 + 2] == if row < 3 { x[row * 6 + 2] } else { 0 });
    assert(g[row * 6 + 3] == if row < 3 { x[(row + 3) * 6] } else { x[row * 6 + 3] });
    assert(g[row * 6 + 4] == if row < 3 { x[(row + 3) * 6 + 1] } else { x[row * 6 + 4] });
    assert(g[row * 6 + 5] == if row < 3 { x[(row + 3) * 6 + 2] } else { x[row * 6 + 5] });
    vstd::arithmetic::mul::lemma_mul_basics(f[0]);
    vstd::arithmetic::mul::lemma_mul_basics(f[1]);
    vstd::arithmetic::mul::lemma_mul_basics(f[2]);
}

/// The block entries of `x` that the force matrix of a product needs, at
/// row `r` and column `c` of a block.
proof fn lemma_block_facts(x: Seq<int>, r: int, c: int)
    requires
        upper_right_zero(x),
        equal_diagonal_blocks(x),
        0 <= r < 3,
        0 <= c < 3,
    ensures
        x[r * 6 + c + 3] == 0,
        x[r * 6 + c] == x[(r + 3) * 6 + c + 3],
{
    assert(x[r * 6 + (c + 3)] == 0);
}

/// Entry `k` of the force matrix of the product `x2 x1`, one block at a time.
proof fn lemma_force_matrix_product_entry(x2: Seq<int>, x1: Seq<int>, k: int)
    requires
        x2.len() == 36,
        x1.len() == 36,
        upper_right_zero(x2),
        upper_right_zero(x1),
        equal_diagonal_blocks(x2),
        equal_diagonal_blocks(x1),
        0 <= k < 36,
    ensures
        force_matrix(matrix_product(x2, x1, 6))[k] == matrix_product(
            force_matrix(x2),
            force_matrix(x1),
            6,
        )[k],
{
    let p = matrix_product(x2, x1, 6);
    let g2 = force_matrix(x2);
    let g1 = force_matrix(x1);
    let r = k / 6;
    let c = k % 6;
    let rr = r % 3;
    let cc = c % 3;
    lemma_strided_sum6(g2, r * 6, 1, g1, c, 6);
    lemma_block_facts(x2, rr, 0);
    lemma_block_facts(x2, rr, 1);
    lemma_block_facts(x2, rr, 2);
    lemma_block_facts(x1, 0, cc);
    lemma_block_facts(x1, 1, cc);
    lemma_block_facts(x1, 2, cc);
    if r < 3 && c < 3 {
        lemma_strided_sum6(x2, r * 6, 1, x1, c, 6);
        assert(g1[c + 18] == 0 && g1[c + 24] == 0 && g1[c + 30] == 0);
        assert(g2[r * 6] == x2[r * 6] && g2[r * 6 + 1] == x2[r * 6 + 1] && g2[r * 6 + 2] == x2[r * 6 + 2]);
        assert(g1[c] == x1[c] && g1[c + 6] == x1[c + 6] && g1[c + 12] == x1[c + 12]);
        vstd::arithmetic::mul::lemma_mul_basics(g2[r * 6 + 3]);
        vstd::arithmetic::mul::lemma_mul_basics(g2[r * 6 + 4]);
        vstd::arithmetic::mul::lemma_mul_basics(g2[r * 6 + 5]);
        vstd::arithmetic::mul::lemma_mul_basics(x1[c + 18]);
        vstd::arithmetic::mul::lemma_mul_basics(x1[c + 24]);
        vstd::arithmetic::mul::lemma_mul_basics(x1[c + 30]);
        assert(force_matrix(p)[k] == p[k]);
    } else if r < 3 {
        assert(force_matrix(p)[k] == p[(r + 3) * 6 + cc]);
        lemma_strided_sum6(x2, (r + 3) * 6, 1, x1, cc, 6);
        assert(((r + 3) * 6 + cc) / 6 == r + 3 && ((r + 3) * 6 + cc) % 6 == cc);
        assert(g2[r * 6] == x2[r * 6] && g2[r * 6 + 1] == x2[r * 6 + 1] && g2[r * 6 + 2] == x2[r * 6 + 2]);
        assert(g2[r * 6 + 3] == x2[(r + 3) * 6] && g2[r * 6 + 4] == x2[(r + 3) * 6 + 1] && g2[r * 6 + 5]
            == x2[(r + 3) * 6 + 2]);
        assert(g1[c] == x1[18 + cc] && g1[c + 6] == x1[24 + cc] && g1[c + 12] == x1[30 + cc]);
        assert(g1[c + 18] == x1[c + 18] && g1[c + 24] == x1[c + 24] && g1[c + 30] == x1[c + 30]);
    } else if c >= 3 {
        lemma_strided_sum6(x2, r * 6, 1, x1, c, 6);
        assert(g2[r * 6] == 0 && g2[r * 6 + 1] == 0 && g2[r * 6 + 2] == 0);
        assert(g2[r * 6 + 3] == x2[r * 6 + 3] && g2[r * 6 + 4] == x2[r * 6 + 4] && g2[r * 6 + 5] == x2[r * 6 + 5]);
        assert(g1[c + 18] == x1[c + 18] && g1[c + 24] == x1[c + 24] && g1[c + 30] == x1[c + 30]);
        assert(x1[c] == 0 && x1[c + 6] == 0 && x1[c + 12] == 0);
        vstd::arithmetic::mul::lemma_mul_basics(g1[c]);
        vstd::arithmetic::mul::lemma_mul_basics(g1[c + 6]);
        vstd::arithmetic::mul::lemma_mul_basics(g1[c + 12]);
        vstd::arithmetic::mul::lemma_mul_basics(x2[r * 6]);
        vstd::arithmetic::mul::lemma_mul_basics(x2[r * 6 + 1]);
        vstd::arithmetic::mul::lemma_mul_basics(x2[r * 6 + 2]);
        assert(force_matrix(p)[k] == p[k]);
    } else {
        assert(g2[r * 6] == 0 && g2[r * 6 + 1] == 0 && g2[r * 6 + 2] == 0);
        assert(g1[c + 18] == 0 && g1[c + 24] == 0 && g1[c + 30] == 0);
        vstd::arithmetic::mul::lemma_mul_basics(g1[c]);
        vstd::arithmetic::mul::lemma_mul_basics(g1[c + 6]);
        vstd::arithmetic::mul::lemma_mul_basics(g1[c + 12]);
        vstd::arithmetic::mul::lemma_mul_basics(g2[r * 6 + 3]);
        vstd::arithmetic::mul::lemma_mul_basics(g2[r * 6 + 4]);
        vstd::arithmetic::mul::lemma_mul_basics(g2[r * 6 + 5]);
        assert(force_matrix(p)[k] == 0);
    }
}

proof fn lemma_force_matrix_product(x2: Seq<int>, x1: Seq<int>)
    requires
        x2.len() == 36,
        x1.len() == 36,
        upper_right_zero(x2),
        upper_right_zero(x1),
        equal_diagonal_blocks(x2),
        equal_diagonal_blocks(x1),
    ensures
        force_matrix(matrix_product(x2, x1, 6)) == matrix_product(force_matrix(x2), force_matrix(x1), 6),
{
    assert forall|k: int| 0 <= k < 36 implies #[trigger] force_matrix(matrix_product(x2, x1, 6))[k]
        == matrix_product(force_matrix(x2), force_matrix(x1), 6)[k] by {
        lemma_force_matrix_product_entry(x2, x1, k);
    }
    assert(force_matrix(matrix_product(x2, x1, 6)) =~= matrix_product(
        force_matrix(x2),
        force_matrix(x1),
        6,
    ));
}

/// Carrying a force by `x1` and then by `x2` is carrying it once by the
/// product `x2 x1`, for transforms whose top-right block is zero and whose
/// diagonal blocks are equal.
pub proof fn lemma_force_transform_composition(x2: Seq<int>, x1: Seq<int>, f: Seq<int>)
    requires
        x2.len() == 36,
        x1.len() == 36,
        f.len() == 6,
        upper_right_zero(x2),
        upper_right_zero(x1),
        equal_diagonal_blocks(x2),
        equal_diagonal_blocks(x1),
    ensures
        force_transform_vec(matrix_product(x2, x1, 6), f) == force_transform_vec(
            x2,
            force_transform_vec(x1, f),
        ),
{
    let p = matrix_product(x2, x1, 6);
    let w = force_transform_vec(x1, f);
    let g2 = force_matrix(x2);
    let g1 = force_matrix(x1);
    lemma_force_matrix_product(x2, x1);
    assert forall|row: int| 0 <= row < 6 implies #[trigger] force_transform_vec(p, f)[row]
        == force_transform_vec(x2, w)[row] by {
        let a = Seq::new(6, |k: int| g2[row * 6 + k]);
        lemma_force_transform_full(p, f, row);
        lemma_force_transform_full(x2, w, row);
        assert forall|c: int| 0 <= c < 6 implies #[trigger] row_times_column(a, g1, c) == force_matrix(
            p,
        )[row * 6 + c] by {
            let k = row * 6 + c;
            assert(k / 6 == row && k % 6 == c);
            lemma_strided_sum6(g2, row * 6, 1, g1, c, 6);
        }
        assert forall|k: int| 0 <= k < 6 implies #[trigger] matrix_times_vector(g1, f, k) == w[k] by {
            lemma_force_transform_full(x1, f, k);
        }
        lemma_row_matrix_vector(a, g1, f);
    }
    assert(force_transform_vec(p, f) =~= force_transform_vec(x2, w));
}

/// The spatial transforms of a rotation and of a translation have a zero
/// top-right block and equal diagonal blocks.
pub proof fn lemma_embeddings_are_rigid(r: Seq<int>, p: Seq<int>)
    requires
        r.len() == 9,
        p.len() == 3,
    ensures
        upper_right_zero(rotation_transform_spec(r)),
        equal_diagonal_blocks(rotation_transform_spec(r)),
        upper_right_zero(translation_transform_spec(p)),
        equal_diagonal_blocks(translation_transform_spec(p)),
{
}

/// A product of transforms with a zero top-right block and equal diagonal
/// blocks has both again, so the composition laws apply to any transform
/// built from rotations and translations.
pub proof fn lemma_product_is_rigid(x2: Seq<int>, x1: Seq<int>)
    requires
        x2.len() == 36,
        x1.len() == 36,
        upper_right_zero(x2),
        upper_right_zero(x1),
        equal_diagonal_blocks(x2),
        equal_diagonal_blocks(x1),
    ensures
        upper_right_zero(matrix_product(x2, x1, 6)),
        equal_diagonal_blocks(matrix_product(x2, x1, 6)),
{
    let p = matrix_product(x2, x1, 6);
    lemma_product_upper_right_zero(x2, x1);
    assert forall|row: int, col: int| 0 <= row < 3 && 0 <= col < 3 implies #[trigger] p[row * 6 + col]
        == p[(row + 3) * 6 + col + 3] by {
        let k = row * 6 + col;
        let l = (row + 3) * 6 + col + 3;
        assert(k / 6 == row && k % 6 == col);
        assert(l / 6 == row + 3 && l % 6 == col + 3);
        lemma_strided_sum6(x2, row * 6, 1, x1, col, 6);
        lemma_strided_sum6(x2, (row + 3) * 6, 1, x1, col + 3, 6);
        lemma_block_facts(x2, row, 0);
        lemma_block_facts(x2, row, 1);
        lemma_block_facts(x2, row, 2);
        lemma_block_facts(x1, 0, col);
        lemma_block_facts(x1, 1, col);
        lemma_block_facts(x1, 2, col);
        vstd::arithmetic::mul::lemma_mul_basics(x1[col + 18]);
        vstd::arithmetic::mul::lemma_mul_basics(x1[col + 24]);
        vstd::arithmetic::mul::lemma_mul_basics(x1[col + 30]);
        vstd::arithmetic::mul::lemma_mul_basics(x2[(row + 3) * 6]);
        vstd::arithmetic::mul::lemma_mul_basics(x2[(row + 3) * 6 + 1]);
        vstd::arithmetic::mul::lemma_mul_basics(x2[(row + 3) * 6 + 2]);
        assert(x1[col + 3] == 0 && x1[col + 9] == 0 && x1[col + 15] == 0);
    }
}

} // verus!
