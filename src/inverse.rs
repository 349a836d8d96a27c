use vstd::prelude::*;

use crate::algebra::{
    force_transform_vec, identity3, identity6, inverse_transform_spec,
    matrix_product, motion_transform_vec, negated, recovered_translation, rigid_transform,
    transpose_spec, upper_right_zero,
};
use crate::bilinear::strided_sum;
use crate::laws::{
    lemma_embeddings_are_rigid, lemma_force_transform_composition,
    lemma_motion_transform_composition, lemma_product3_entry, lemma_product_is_rigid,
    lemma_rotation_product_associative, lemma_triple_product_regroup,
};
use crate::layout::{
    coupling_block, coupling_index_spec, coupling_matrix, extracted_rotation,
    rotation_transform_spec, translation_transform_spec,
};

verus! {


/// The rows of a motion and of a force carried by `x`, written out.
proof fn lemma_transform_rows(x: Seq<int>, v: Seq<int>)
    ensures
        motion_transform_vec(x, v) == seq![
            x[0] * v[0] + x[1] * v[1] + x[2] * v[2],
            x[6] * v[0] + x[7] * v[1] + x[8] * v[2],
            x[12] * v[0] + x[13] * v[1] + x[14] * v[2],
            x[18] * v[0] + x[19] * v[1] + x[20] * v[2] + x[21] * v[3] + x[22] * v[4] + x[23] * v[5],
            x[24] * v[0] + x[25] * v[1] + x[26] * v[2] + x[27] * v[3] + x[28] * v[4] + x[29] * v[5],
            x[30] * v[0] + x[31] * v[1] + x[32] * v[2] + x[33] * v[3] + x[34] * v[4] + x[35] * v[5],
        ],
        force_transform_vec(x, v) == seq![
            x[0] * v[0] + x[1] * v[1] + x[2] * v[2] + (x[18] * v[3] + x[19] * v[4] + x[20] * v[5]),
            x[6] * v[0] + x[7] * v[1] + x[8] * v[2] + (x[24] * v[3] + x[25] * v[4] + x[26] * v[5]),
            x[12] * v[0] + x[13] * v[1] + x[14] * v[2] + (x[30] * v[3] + x[31] * v[4] + x[32] * v[5]),
            x[21] * v[3] + x[22] * v[4] + x[23] * v[5],
            x[27] * v[3] + x[28] * v[4] + x[29] * v[5],
            x[33] * v[3] + x[34] * v[4] + x[35] * v[5],
        ],
{
    reveal_with_fuel(strided_sum, 7);
    assert(motion_transform_vec(x, v) =~= seq![
        x[0] * v[0] + x[1] * v[1] + x[2] * v[2],
        x[6] * v[0] + x[7] * v[1] + x[8] * v[2],
        x[12] * v[0] + x[13] * v[1] + x[14] * v[2],
        x[18] * v[0] + x[19] * v[1] + x[20] * v[2] + x[21] * v[3] + x[22] * v[4] + x[23] * v[5],
        x[24] * v[0] + x[25] * v[1] + x[26] * v[2] + x[27] * v[3] + x[28] * v[4] + x[29] * v[5],
        x[30] * v[0] + x[31] * v[1] + x[32] * v[2] + x[33] * v[3] + x[34] * v[4] + x[35] * v[5],
    ]);
    assert(force_transform_vec(x, v) =~= seq![
        x[0] * v[0] + x[1] * v[1] + x[2] * v[2] + (x[18] * v[3] + x[19] * v[4] + x[20] * v[5]),
        x[6] * v[0] + x[7] * v[1] + x[8] * v[2] + (x[24] * v[3] + x[25] * v[4] + x[26] * v[5]),
        x[12] * v[0] + x[13] * v[1] + x[14] * v[2] + (x[30] * v[3] + x[31] * v[4] + x[32] * v[5]),
        x[21] * v[3] + x[22] * v[4] + x[23] * v[5],
        x[27] * v[3] + x[28] * v[4] + x[29] * v[5],
        x[33] * v[3] + x[34] * v[4] + x[35] * v[5],
    ]);
}

/// The spatial transform of a pure translation `p` keeps the rotational part
/// of a motion and adds `w × p` to its translational part; it keeps the
/// translational part of a force and adds `f × p` to its rotational part.
pub proof fn lemma_translation_action(p: Seq<int>, v: Seq<int>)
    requires
        p.len() == 3,
        v.len() == 6,
    ensures
        motion_transform_vec(translation_transform_spec(p), v) == seq![
            v[0],
            v[1],
            v[2],
            v[3] + p[2] * v[1] - p[1] * v[2],
            v[4] + p[0] * v[2] - p[2] * v[0],
            v[5] + p[1] * v[0] - p[0] * v[1],
        ],
        force_transform_vec(translation_transform_spec(p), v) == seq![
            v[0] + p[2] * v[4] - p[1] * v[5],
            v[1] + p[0] * v[5] - p[2] * v[3],
            v[2] + p[1] * v[3] - p[0] * v[4],
            v[3],
            v[4],
            v[5],
        ],
{
    let x = translation_transform_spec(p);
    lemma_transform_rows(x, v);
    assert(x[0] == 1 && x[1] == 0 && x[2] == 0);
    assert(x[6] == 0 && x[7] == 1 && x[8] == 0);
    assert(x[12] == 0 && x[13] == 0 && x[14] == 1);
    assert(x[18] == 0 && x[19] == p[2] && x[20] == -p[1] && x[21] == 1 && x[22] == 0 && x[23] == 0);
    assert(x[24] == -p[2] && x[25] == 0 && x[26] == p[0] && x[27] == 0 && x[28] == 1 && x[29] == 0);
    assert(x[30] == p[1] && x[31] == -p[0] && x[32] == 0 && x[33] == 0 && x[34] == 0 && x[35] == 1);
    broadcast use vstd::arithmetic::mul::group_mul_basics, vstd::arithmetic::mul::lemma_mul_unary_negation;
    assert(motion_transform_vec(x, v) =~= seq![
        v[0],
        v[1],
        v[2],
        v[3] + p[2] * v[1] - p[1] * v[2],
        v[4] + p[0] * v[2] - p[2] * v[0],
        v[5] + p[1] * v[0] - p[0] * v[1],
    ]);
    assert(force_transform_vec(x, v) =~= seq![
        v[0] + p[2] * v[4] - p[1] * v[5],
        v[1] + p[0] * v[5] - p[2] * v[3],
        v[2] + p[1] * v[3] - p[0] * v[4],
        v[3],
        v[4],
        v[5],
    ]);
}

/// Row `i` of the 3×3 matrix `r` times the triple of `v` at `o`.
spec fn rotate_component(r: Seq<int>, v: Seq<int>, o: int, i: int) -> int {
    r[i * 3] * v[o] + r[i * 3 + 1] * v[o + 1] + r[i * 3 + 2] * v[o + 2]
}

/// The spatial transform of a rotation turns both triples of a vector, of
/// either kind.
proof fn lemma_rotation_action(r: Seq<int>, v: Seq<int>)
    requires
        r.len() == 9,
        v.len() == 6,
    ensures
        motion_transform_vec(rotation_transform_spec(r), v) == seq![
            rotate_component(r, v, 0, 0),
            rotate_component(r, v, 0, 1),
            rotate_component(r, v, 0, 2),
            rotate_component(r, v, 3, 0),
            rotate_component(r, v, 3, 1),
            rotate_component(r, v, 3, 2),
        ],
        force_transform_vec(rotation_transform_spec(r), v) == motion_transform_vec(
            rotation_transform_spec(r),
            v,
        ),
{
    let x = rotation_transform_spec(r);
    lemma_transform_rows(x, v);
    assert(x[0] == r[0] && x[1] == r[1] && x[2] == r[2]);
    assert(x[6] == r[3] && x[7] == r[4] && x[8] == r[5]);
    assert(x[12] == r[6] && x[13] == r[7] && x[14] == r[8]);
    assert(x[18] == 0 && x[19] == 0 && x[20] == 0 && x[21] == r[0] && x[22] == r[1] && x[23] == r[2]);
    assert(x[24] == 0 && x[25] == 0 && x[26] == 0 && x[27] == r[3] && x[28] == r[4] && x[29] == r[5]);
    assert(x[30] == 0 && x[31] == 0 && x[32] == 0 && x[33] == r[6] && x[34] == r[7] && x[35] == r[8]);
    broadcast use vstd::arithmetic::mul::group_mul_basics;
    assert(motion_transform_vec(x, v) =~= seq![
        rotate_component(r, v, 0, 0),
        rotate_component(r, v, 0, 1),
        rotate_component(r, v, 0, 2),
        rotate_component(r, v, 3, 0),
        rotate_component(r, v, 3, 1),
        rotate_component(r, v, 3, 2),
    ]);
    assert(force_transform_vec(x, v) =~= motion_transform_vec(x, v));
}

/// `rt (r w) == w` on a triple when `rt r` is the identity.
proof fn lemma_undo_rotation(rt: Seq<int>, r: Seq<int>, v: Seq<int>, o: int, i: int)
    requires
        rt.len() == 9,
        r.len() == 9,
        v.len() == 6,
        o == 0 || o == 3,
        0 <= i < 3,
        matrix_product(rt, r, 3) == identity3(),
    ensures
        rt[i * 3] * rotate_component(r, v, o, 0) + rt[i * 3 + 1] * rotate_component(r, v, o, 1)
            + rt[i * 3 + 2] * rotate_component(r, v, o, 2) == v[o + i],
{
    let k0 = i * 3;
    assert(matrix_product(rt, r, 3)[k0] == identity3()[k0]);
    assert(matrix_product(rt, r, 3)[k0 + 1] == identity3()[k0 + 1]);
    assert(matrix_product(rt, r, 3)[k0 + 2] == identity3()[k0 + 2]);
    lemma_product3_entry(rt, r, k0);
    lemma_product3_entry(rt, r, k0 + 1);
    lemma_product3_entry(rt, r, k0 + 2);
    lemma_triple_product_regroup(
        rt[k0], rt[k0 + 1], rt[k0 + 2],
        r[0], r[1], r[2], r[3], r[4], r[5], r[6], r[7], r[8],
        v[o], v[o + 1], v[o + 2],
    );
    vstd::arithmetic::mul::lemma_mul_basics(v[o]);
    vstd::arithmetic::mul::lemma_mul_basics(v[o + 1]);
    vstd::arithmetic::mul::lemma_mul_basics(v[o + 2]);
    if i == 0 {
        assert(identity3()[0] == 1 && identity3()[1] == 0 && identity3()[2] == 0);
    } else if i == 1 {
        assert(identity3()[3] == 0 && identity3()[4] == 1 && identity3()[5] == 0);
    } else {
        assert(identity3()[6] == 0 && identity3()[7] == 0 && identity3()[8] == 1);
    }
}


/// `xlt(-p)` after `xlt(p)` gives back a vector of either kind.
proof fn lemma_translation_undo(p: Seq<int>, v: Seq<int>)
    requires
        p.len() == 3,
        v.len() == 6,
    ensures
        motion_transform_vec(
            translation_transform_spec(negated(p)),
            motion_transform_vec(translation_transform_spec(p), v),
        ) == v,
        force_transform_vec(
            translation_transform_spec(negated(p)),
            force_transform_vec(translation_transform_spec(p), v),
        ) == v,
{
    let q = negated(p);
    let xq = translation_transform_spec(q);
    let w = motion_transform_vec(translation_transform_spec(p), v);
    let g = force_transform_vec(translation_transform_spec(p), v);
    lemma_translation_action(p, v);
    lemma_translation_action(q, w);
    lemma_translation_action(q, g);
    assert(q[0] == -p[0] && q[1] == -p[1] && q[2] == -p[2]);
    assert(motion_transform_vec(xq, w) =~= v) by {
        vstd::arithmetic::mul::lemma_mul_unary_negation(p[0], v[1]);
        vstd::arithmetic::mul::lemma_mul_unary_negation(p[0], v[2]);
        vstd::arithmetic::mul::lemma_mul_unary_negation(p[1], v[0]);
        vstd::arithmetic::mul::lemma_mul_unary_negation(p[1], v[2]);
        vstd::arithmetic::mul::lemma_mul_unary_negation(p[2], v[0]);
        vstd::arithmetic::mul::lemma_mul_unary_negation(p[2], v[1]);
    }
    assert(force_transform_vec(xq, g) =~= v) by {
        vstd::arithmetic::mul::lemma_mul_unary_negation(p[0], v[4]);
        vstd::arithmetic::mul::lemma_mul_unary_negation(p[0], v[5]);
        vstd::arithmetic::mul::lemma_mul_unary_negation(p[1], v[3]);
        vstd::arithmetic::mul::lemma_mul_unary_negation(p[1], v[5]);
        vstd::arithmetic::mul::lemma_mul_unary_negation(p[2], v[3]);
        vstd::arithmetic::mul::lemma_mul_unary_negation(p[2], v[4]);
    }
}

/// `rot(rt)` after `rot(r)` gives back a vector of either kind when
/// `rt r == 1`.
proof fn lemma_rotation_undo(rt: Seq<int>, r: Seq<int>, v: Seq<int>)
    requires
        rt.len() == 9,
        r.len() == 9,
        v.len() == 6,
        matrix_product(rt, r, 3) == identity3(),
    ensures
        motion_transform_vec(
            rotation_transform_spec(rt),
            motion_transform_vec(rotation_transform_spec(r), v),
        ) == v,
        force_transform_vec(
            rotation_transform_spec(rt),
            force_transform_vec(rotation_transform_spec(r), v),
        ) == v,
{
    let w = motion_transform_vec(rotation_transform_spec(r), v);
    lemma_rotation_action(r, v);
    lemma_rotation_action(rt, w);
    assert(motion_transform_vec(rotation_transform_spec(rt), w) =~= v) by {
        lemma_undo_rotation(rt, r, v, 0, 0);
        lemma_undo_rotation(rt, r, v, 0, 1);
        lemma_undo_rotation(rt, r, v, 0, 2);
        lemma_undo_rotation(rt, r, v, 3, 0);
        lemma_undo_rotation(rt, r, v, 3, 1);
        lemma_undo_rotation(rt, r, v, 3, 2);
    }
}

proof fn lemma_identity3_left(a: Seq<int>)
    requires
        a.len() == 9,
    ensures
        matrix_product(identity3(), a, 3) == a,
{
    let id = identity3();
    assert forall|k: int| 0 <= k < 9 implies #[trigger] matrix_product(id, a, 3)[k] == a[k] by {
        lemma_product3_entry(id, a, k);
        vstd::arithmetic::mul::lemma_mul_basics(a[k % 3]);
        vstd::arithmetic::mul::lemma_mul_basics(a[k % 3 + 3]);
        vstd::arithmetic::mul::lemma_mul_basics(a[k % 3 + 6]);
        if k / 3 == 0 {
            assert(id[0] == 1 && id[1] == 0 && id[2] == 0);
        } else if k / 3 == 1 {
            assert(id[3] == 0 && id[4] == 1 && id[5] == 0);
        } else {
            assert(id[6] == 0 && id[7] == 0 && id[8] == 1);
        }
    }
    assert(matrix_product(id, a, 3) =~= a);
}

/// Entry (`a`, `b`) of the top-left and of the bottom-left block of
/// `rot(r) · xlt(p)`.
proof fn lemma_rigid_entry(r: Seq<int>, p: Seq<int>, a: int, b: int)
    requires
        r.len() == 9,
        p.len() == 3,
        0 <= a < 3,
        0 <= b < 3,
    ensures
        rigid_transform(r, p)[a * 6 + b] == r[a * 3 + b],
        rigid_transform(r, p)[(3 + a) * 6 + b] == matrix_product(r, coupling_matrix(p), 3)[a * 3 + b],
{
    let x = rotation_transform_spec(r);
    let y = translation_transform_spec(p);
    let cm = coupling_matrix(p);
    let k = a * 6 + b;
    let l = (3 + a) * 6 + b;
    assert(k / 6 == a && k % 6 == b);
    assert(l / 6 == 3 + a && l % 6 == b);
    assert(rigid_transform(r, p)[k] == x[a * 6] * y[b] + x[a * 6 + 1] * y[b + 6] + x[a * 6 + 2] * y[b
        + 12] + x[a * 6 + 3] * y[b + 18] + x[a * 6 + 4] * y[b + 24] + x[a * 6 + 5] * y[b + 30]) by {
        reveal_with_fuel(strided_sum, 7);
    }
    assert(rigid_transform(r, p)[l] == x[l - b] * y[b] + x[l - b + 1] * y[b + 6] + x[l - b + 2] * y[b
        + 12] + x[l - b + 3] * y[b + 18] + x[l - b + 4] * y[b + 24] + x[l - b + 5] * y[b + 30]) by {
        reveal_with_fuel(strided_sum, 7);
    }
    assert((a * 6 + 1) / 6 == a && (a * 6 + 1) % 6 == 1);
    assert((a * 6 + 2) / 6 == a && (a * 6 + 2) % 6 == 2);
    assert((a * 6 + 3) / 6 == a && (a * 6 + 4) / 6 == a && (a * 6 + 5) / 6 == a);
    assert((l - b + 1) / 6 == 3 + a && (l - b + 2) / 6 == 3 + a && (l - b + 3) / 6 == 3 + a);
    assert((l - b + 4) / 6 == 3 + a && (l - b + 5) / 6 == 3 + a && (l - b) / 6 == 3 + a);
    assert((b + 6) / 6 == 1 && (b + 12) / 6 == 2 && (b + 18) / 6 == 3);
    assert((b + 24) / 6 == 4 && (b + 30) / 6 == 5 && b / 6 == 0);
    assert(x[a * 6] == r[a * 3] && x[a * 6 + 1] == r[a * 3 + 1] && x[a * 6 + 2] == r[a * 3 + 2]);
    assert(x[a * 6 + 3] == 0 && x[a * 6 + 4] == 0 && x[a * 6 + 5] == 0);
    assert(x[l - b] == 0 && x[l - b + 1] == 0 && x[l - b + 2] == 0);
    assert(x[l - b + 3] == r[a * 3] && x[l - b + 4] == r[a * 3 + 1] && x[l - b + 5] == r[a * 3 + 2]);
    assert(y[b] == (if b == 0 { 1int } else { 0 }));
    assert(y[b + 6] == (if b == 1 { 1int } else { 0 }));
    assert(y[b + 12] == (if b == 2 { 1int } else { 0 }));
    assert(y[b + 18] == cm[b] && y[b + 24] == cm[b + 3] && y[b + 30] == cm[b + 6]);
    lemma_product3_entry(r, cm, a * 3 + b);
    assert((a * 3 + b) / 3 == a && (a * 3 + b) % 3 == b);
    vstd::arithmetic::mul::lemma_mul_basics(r[a * 3]);
    vstd::arithmetic::mul::lemma_mul_basics(r[a * 3 + 1]);
    vstd::arithmetic::mul::lemma_mul_basics(r[a * 3 + 2]);
    vstd::arithmetic::mul::lemma_mul_basics(y[b]);
    vstd::arithmetic::mul::lemma_mul_basics(y[b + 6]);
    vstd::arithmetic::mul::lemma_mul_basics(y[b + 12]);
    vstd::arithmetic::mul::lemma_mul_basics(y[b + 18]);
    vstd::arithmetic::mul::lemma_mul_basics(y[b + 24]);
    vstd::arithmetic::mul::lemma_mul_basics(y[b + 30]);
}

/// The top-left block of `rot(r) · xlt(p)` is `r`, and its bottom-left block
/// is `r` times the coupling matrix of `p`.
proof fn lemma_rigid_blocks(r: Seq<int>, p: Seq<int>)
    requires
        r.len() == 9,
        p.len() == 3,
    ensures
        extracted_rotation(rigid_transform(r, p)) == r,
        coupling_block(rigid_transform(r, p)) == matrix_product(r, coupling_matrix(p), 3),
{
    let t = rigid_transform(r, p);
    let cm = coupling_matrix(p);
    assert forall|i: int| 0 <= i < 9 implies #[trigger] extracted_rotation(t)[i] == r[i] by {
        let a = i / 3;
        let b = i % 3;
        assert(a * 3 + b == i);
        lemma_rigid_entry(r, p, a, b);
        assert(extracted_rotation(t)[i] == t[a * 6 + b]);
    }
    assert forall|i: int| 0 <= i < 9 implies #[trigger] coupling_block(t)[i] == matrix_product(
        r,
        cm,
        3,
    )[i] by {
        let a = i / 3;
        let b = i % 3;
        assert(a * 3 + b == i);
        lemma_rigid_entry(r, p, a, b);
        assert(coupling_block(t)[i] == t[(3 + a) * 6 + b]);
    }
    assert(extracted_rotation(t) =~= r);
    assert(coupling_block(t) =~= matrix_product(r, cm, 3));
}

proof fn lemma_coupling_index_value(p: Seq<int>)
    requires
        p.len() == 3,
    ensures
        coupling_matrix(p)[coupling_index_spec(0)] == p[0],
        coupling_matrix(p)[coupling_index_spec(1)] == p[1],
        coupling_matrix(p)[coupling_index_spec(2)] == p[2],
{
}

/// `rᵗ` times the bottom-left block of `rot(r) · xlt(p)` is the coupling
/// matrix of `p` when `rᵗ r == 1`.
proof fn lemma_unrotated_coupling(r: Seq<int>, p: Seq<int>)
    requires
        r.len() == 9,
        p.len() == 3,
        matrix_product(transpose_spec(r), r, 3) == identity3(),
    ensures
        matrix_product(transpose_spec(r), coupling_block(rigid_transform(r, p)), 3) == coupling_matrix(p),
{
    let rt = transpose_spec(r);
    let cm = coupling_matrix(p);
    lemma_rigid_blocks(r, p);
    lemma_rotation_product_associative(rt, r, cm);
    lemma_identity3_left(cm);
}

/// A transform whose top-left block is `r` and for which `rᵗ` times the
/// bottom-left block is the coupling matrix of `p` gives back `p`.
proof fn lemma_recover_from_blocks(t: Seq<int>, r: Seq<int>, p: Seq<int>)
    requires
        p.len() == 3,
        extracted_rotation(t) == r,
        matrix_product(transpose_spec(r), coupling_block(t), 3) == coupling_matrix(p),
    ensures
        recovered_translation(t) == p,
{
    lemma_coupling_index_value(p);
    assert(recovered_translation(t) =~= p);
}

/// The translation recovered from `rot(r) · xlt(p)` is `p` when
/// `rᵗ r == 1`.
proof fn lemma_recovered_rigid(r: Seq<int>, p: Seq<int>)
    requires
        r.len() == 9,
        p.len() == 3,
        matrix_product(transpose_spec(r), r, 3) == identity3(),
    ensures
        recovered_translation(rigid_transform(r, p)) == p,
{
    lemma_rigid_blocks(r, p);
    lemma_unrotated_coupling(r, p);
    lemma_recover_from_blocks(rigid_transform(r, p), r, p);
}

/// The inverse of `rot(r) · xlt(p)` is `xlt(-p) · rot(rᵗ)` when `rᵗ r == 1`.
proof fn lemma_inverse_of_rigid(r: Seq<int>, p: Seq<int>)
    requires
        r.len() == 9,
        p.len() == 3,
        matrix_product(transpose_spec(r), r, 3) == identity3(),
    ensures
        recovered_translation(rigid_transform(r, p)) == p,
        inverse_transform_spec(rigid_transform(r, p)) == matrix_product(
            translation_transform_spec(negated(p)),
            rotation_transform_spec(transpose_spec(r)),
            6,
        ),
{
    lemma_recovered_rigid(r, p);
    lemma_rigid_blocks(r, p);
}

/// A matrix with a zero top-right block that carries every motion vector to
/// itself is the identity.
proof fn lemma_identity_from_action(m: Seq<int>)
    requires
        m.len() == 36,
        upper_right_zero(m),
        forall|v: Seq<int>| v.len() == 6 ==> #[trigger] motion_transform_vec(m, v) == v,
    ensures
        m == identity6(),
{
    let e0 = seq![1int, 0, 0, 0, 0, 0];
    let e1 = seq![0int, 1, 0, 0, 0, 0];
    let e2 = seq![0int, 0, 1, 0, 0, 0];
    let e3 = seq![0int, 0, 0, 1, 0, 0];
    let e4 = seq![0int, 0, 0, 0, 1, 0];
    let e5 = seq![0int, 0, 0, 0, 0, 1];
    assert(motion_transform_vec(m, e0) == e0);
    assert(motion_transform_vec(m, e1) == e1);
    assert(motion_transform_vec(m, e2) == e2);
    assert(motion_transform_vec(m, e3) == e3);
    assert(motion_transform_vec(m, e4) == e4);
    assert(motion_transform_vec(m, e5) == e5);
    lemma_transform_rows(m, e0);
    lemma_transform_rows(m, e1);
    lemma_transform_rows(m, e2);
    lemma_transform_rows(m, e3);
    lemma_transform_rows(m, e4);
    lemma_transform_rows(m, e5);
    assert(m[0int * 6 + 3] == 0 && m[0int * 6 + 4] == 0 && m[0int * 6 + 5] == 0);
    assert(m[1int * 6 + 3] == 0 && m[1int * 6 + 4] == 0 && m[1int * 6 + 5] == 0);
    assert(m[2int * 6 + 3] == 0 && m[2int * 6 + 4] == 0 && m[2int * 6 + 5] == 0);
    broadcast use vstd::arithmetic::mul::group_mul_basics;
    assert(m =~= identity6());
}

/// The motion round trip through `rot(r) · xlt(p)` and its inverse.
proof fn lemma_rigid_motion_round_trip(r: Seq<int>, p: Seq<int>, v: Seq<int>)
    requires
        r.len() == 9,
        p.len() == 3,
        v.len() == 6,
        matrix_product(transpose_spec(r), r, 3) == identity3(),
    ensures
        motion_transform_vec(
            inverse_transform_spec(rigid_transform(r, p)),
            motion_transform_vec(rigid_transform(r, p), v),
        ) == v,
{
    let rt = transpose_spec(r);
    let q = negated(p);
    let xr = rotation_transform_spec(r);
    let xp = translation_transform_spec(p);
    let xq = translation_transform_spec(q);
    let xrt = rotation_transform_spec(rt);
    lemma_embeddings_are_rigid(r, p);
    lemma_embeddings_are_rigid(rt, q);
    lemma_inverse_of_rigid(r, p);
    let u = motion_transform_vec(xp, v);
    let w = motion_transform_vec(xr, u);
    lemma_motion_transform_composition(xr, xp, v);
    lemma_motion_transform_composition(xq, xrt, w);
    lemma_rotation_undo(rt, r, u);
    lemma_translation_undo(p, v);
}

/// The force round trip through `rot(r) · xlt(p)` and its inverse.
proof fn lemma_rigid_force_round_trip(r: Seq<int>, p: Seq<int>, f: Seq<int>)
    requires
        r.len() == 9,
        p.len() == 3,
        f.len() == 6,
        matrix_product(transpose_spec(r), r, 3) == identity3(),
    ensures
        force_transform_vec(
            inverse_transform_spec(rigid_transform(r, p)),
            force_transform_vec(rigid_transform(r, p), f),
        ) == f,
{
    let rt = transpose_spec(r);
    let q = negated(p);
    let xr = rotation_transform_spec(r);
    let xp = translation_transform_spec(p);
    let xq = translation_transform_spec(q);
    let xrt = rotation_transform_spec(rt);
    lemma_embeddings_are_rigid(r, p);
    lemma_embeddings_are_rigid(rt, q);
    lemma_inverse_of_rigid(r, p);
    let u = force_transform_vec(xp, f);
    let w = force_transform_vec(xr, u);
    lemma_force_transform_composition(xr, xp, f);
    lemma_force_transform_composition(xq, xrt, w);
    lemma_rotation_undo(rt, r, u);
    lemma_translation_undo(p, f);
}

/// For a transform `t = rot(r) · xlt(p)` built from a rotation `r` with
/// `rᵗ r == 1` and any translation `p`, the inverse `xlt(-p) · rot(rᵗ)`
/// undoes `t`: a motion or a force carried by `t` and then by the inverse
/// comes back unchanged, and the inverse times `t` is the identity.
pub proof fn lemma_rigid_inverse_round_trip(r: Seq<int>, p: Seq<int>, v: Seq<int>)
    requires
        r.len() == 9,
        p.len() == 3,
        v.len() == 6,
        matrix_product(transpose_spec(r), r, 3) == identity3(),
    ensures
        motion_transform_vec(
            inverse_transform_spec(rigid_transform(r, p)),
            motion_transform_vec(rigid_transform(r, p), v),
        ) == v,
        force_transform_vec(
            inverse_transform_spec(rigid_transform(r, p)),
            force_transform_vec(rigid_transform(r, p), v),
        ) == v,
        matrix_product(inverse_transform_spec(rigid_transform(r, p)), rigid_transform(r, p), 6)
            == identity6(),
{
    let t = rigid_transform(r, p);
    let ti = inverse_transform_spec(t);
    let rt = transpose_spec(r);
    lemma_rigid_motion_round_trip(r, p, v);
    lemma_rigid_force_round_trip(r, p, v);
    lemma_embeddings_are_rigid(r, p);
    lemma_embeddings_are_rigid(rt, negated(p));
    lemma_inverse_of_rigid(r, p);
    lemma_product_is_rigid(rotation_transform_spec(r), translation_transform_spec(p));
    lemma_product_is_rigid(translation_transform_spec(negated(p)), rotation_transform_spec(rt));
    lemma_product_is_rigid(ti, t);
    assert forall|u: Seq<int>| u.len() == 6 implies #[trigger] motion_transform_vec(
        matrix_product(ti, t, 6),
        u,
    ) == u by {
        lemma_motion_transform_composition(ti, t, u);
        lemma_rigid_motion_round_trip(r, p, u);
    }
    lemma_identity_from_action(matrix_product(ti, t, 6));
}

/// A motion carried by the inverse of `rot(r) · xlt(p)` and then by the
/// transform itself comes back unchanged when `r rᵗ == 1`.
proof fn lemma_rigid_right_motion(r: Seq<int>, p: Seq<int>, u: Seq<int>)
    requires
        r.len() == 9,
        p.len() == 3,
        u.len() == 6,
        matrix_product(transpose_spec(r), r, 3) == identity3(),
        matrix_product(r, transpose_spec(r), 3) == identity3(),
    ensures
        motion_transform_vec(
            rigid_transform(r, p),
            motion_transform_vec(inverse_transform_spec(rigid_transform(r, p)), u),
        ) == u,
{
    let rt = transpose_spec(r);
    let q = negated(p);
    let xr = rotation_transform_spec(r);
    let xp = translation_transform_spec(p);
    let xq = translation_transform_spec(q);
    let xrt = rotation_transform_spec(rt);
    let a = motion_transform_vec(xrt, u);
    let b = motion_transform_vec(xq, a);
    assert(motion_transform_vec(inverse_transform_spec(rigid_transform(r, p)), u) == b) by {
        lemma_inverse_of_rigid(r, p);
        lemma_embeddings_are_rigid(rt, q);
        lemma_motion_transform_composition(xq, xrt, u);
    }
    assert(motion_transform_vec(rigid_transform(r, p), b) == motion_transform_vec(xr, motion_transform_vec(xp, b))) by {
        lemma_embeddings_are_rigid(r, p);
        lemma_motion_transform_composition(xr, xp, b);
    }
    assert(motion_transform_vec(xp, b) == a) by {
        assert(negated(q) =~= p);
        lemma_translation_undo(q, a);
    }
    assert(motion_transform_vec(xr, a) == u) by {
        lemma_rotation_undo(r, rt, u);
    }
}

/// A force carried by the inverse of `rot(r) · xlt(p)` and then by the
/// transform itself comes back unchanged when `r rᵗ == 1`.
proof fn lemma_rigid_right_force(r: Seq<int>, p: Seq<int>, u: Seq<int>)
    requires
        r.len() == 9,
        p.len() == 3,
        u.len() == 6,
        matrix_product(transpose_spec(r), r, 3) == identity3(),
        matrix_product(r, transpose_spec(r), 3) == identity3(),
    ensures
        force_transform_vec(
            rigid_transform(r, p),
            force_transform_vec(inverse_transform_spec(rigid_transform(r, p)), u),
        ) == u,
{
    let rt = transpose_spec(r);
    let q = negated(p);
    let xr = rotation_transform_spec(r);
    let xp = translation_transform_spec(p);
    let xq = translation_transform_spec(q);
    let xrt = rotation_transform_spec(rt);
    let a = force_transform_vec(xrt, u);
    let b = force_transform_vec(xq, a);
    assert(force_transform_vec(inverse_transform_spec(rigid_transform(r, p)), u) == b) by {
        lemma_inverse_of_rigid(r, p);
        lemma_embeddings_are_rigid(rt, q);
        lemma_force_transform_composition(xq, xrt, u);
    }
    assert(force_transform_vec(rigid_transform(r, p), b) == force_transform_vec(xr, force_transform_vec(xp, b))) by {
        lemma_embeddings_are_rigid(r, p);
        lemma_force_transform_composition(xr, xp, b);
    }
    assert(force_transform_vec(xp, b) == a) by {
        assert(negated(q) =~= p);
        lemma_translation_undo(q, a);
    }
    assert(force_transform_vec(xr, a) == u) by {
        lemma_rotation_undo(r, rt, u);
    }
}

/// For an orthonormal rotation `r` (`rᵗ r == r rᵗ == 1`) and any
/// translation `p`, the transform `t = rot(r) · xlt(p)` times its inverse is
/// the identity, and a vector of either kind carried by the inverse and then
/// by `t` comes back unchanged.
pub proof fn lemma_rigid_inverse_right(r: Seq<int>, p: Seq<int>, v: Seq<int>)
    requires
        r.len() == 9,
        p.len() == 3,
        v.len() == 6,
        matrix_product(transpose_spec(r), r, 3) == identity3(),
        matrix_product(r, transpose_spec(r), 3) == identity3(),
    ensures
        motion_transform_vec(
            rigid_transform(r, p),
            motion_transform_vec(inverse_transform_spec(rigid_transform(r, p)), v),
        ) == v,
        force_transform_vec(
            rigid_transform(r, p),
            force_transform_vec(inverse_transform_spec(rigid_transform(r, p)), v),
        ) == v,
        matrix_product(rigid_transform(r, p), inverse_transform_spec(rigid_transform(r, p)), 6)
            == identity6(),
{
    let t = rigid_transform(r, p);
    let ti = inverse_transform_spec(t);
    let rt = transpose_spec(r);
    lemma_rigid_right_motion(r, p, v);
    lemma_rigid_right_force(r, p, v);
    lemma_embeddings_are_rigid(r, p);
    lemma_embeddings_are_rigid(rt, negated(p));
    lemma_inverse_of_rigid(r, p);
    lemma_product_is_rigid(rotation_transform_spec(r), translation_transform_spec(p));
    lemma_product_is_rigid(translation_transform_spec(negated(p)), rotation_transform_spec(rt));
    lemma_product_is_rigid(t, ti);
    assert forall|u: Seq<int>| u.len() == 6 implies #[trigger] motion_transform_vec(
        matrix_product(t, ti, 6),
        u,
    ) == u by {
        lemma_motion_transform_composition(t, ti, u);
        lemma_rigid_right_motion(r, p, u);
    }
    lemma_identity_from_action(matrix_product(t, ti, 6));
}

} // verus!
