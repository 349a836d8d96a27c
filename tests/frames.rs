use spatial_algebra::algebra::{
    force_transform_row, motion_transform_row, rotation_product_row, transform_product_row,
};
use spatial_algebra::basis::{Basis, ElementaryEntry};
use spatial_algebra::bilinear::BilinearRow;
use spatial_algebra::layout::{
    coupling_index, coupling_slot, rotation_embedding, rotation_slot, translation_embedding,
    translation_slot, transposed_index, TranslationEntry,
};

fn eval_i(row: &BilinearRow, a: &[i64], b: &[i64]) -> i64 {
    let mut acc = 0;
    for t in 0..row.len() {
        let term = row.term(t);
        let p = a[term.left] * b[term.right];
        acc += if term.positive { p } else { -p };
    }
    acc
}

fn rows_i(row_of: fn(usize) -> BilinearRow, n: usize, a: &[i64], b: &[i64]) -> Vec<i64> {
    (0..n).map(|k| eval_i(&row_of(k), a, b)).collect()
}

fn elementary(axis: Basis, c: f64, s: f64) -> Vec<f64> {
    (0..9)
        .map(|k| match axis.elementary_entry(k) {
            ElementaryEntry::Zero => 0.0,
            ElementaryEntry::One => 1.0,
            ElementaryEntry::Cos => c,
            ElementaryEntry::Sin => s,
            ElementaryEntry::NegSin => -s,
        })
        .collect()
}

fn elementary_i(axis: Basis, c: i64, s: i64) -> Vec<i64> {
    elementary(axis, c as f64, s as f64).iter().map(|&x| x as i64).collect()
}

fn rotation_transform(r: &[i64]) -> Vec<i64> {
    (0..36).map(|k| rotation_embedding(k).map_or(0, |i| r[i])).collect()
}

fn translation_transform(p: &[i64]) -> Vec<i64> {
    (0..36)
        .map(|k| match translation_embedding(k) {
            TranslationEntry::Zero => 0,
            TranslationEntry::One => 1,
            TranslationEntry::Plus(i) => p[i],
            TranslationEntry::Minus(i) => -p[i],
        })
        .collect()
}

fn transposed(r: &[i64]) -> Vec<i64> {
    (0..9).map(|i| r[transposed_index(i)]).collect()
}

#[test]
fn elementary_entries_per_axis() {
    let (one, zero, cos, sin, neg_sin) = (
        ElementaryEntry::One,
        ElementaryEntry::Zero,
        ElementaryEntry::Cos,
        ElementaryEntry::Sin,
        ElementaryEntry::NegSin,
    );
    let x: Vec<_> = (0..9).map(|k| Basis::X.elementary_entry(k)).collect();
    let y: Vec<_> = (0..9).map(|k| Basis::Y.elementary_entry(k)).collect();
    let z: Vec<_> = (0..9).map(|k| Basis::Z.elementary_entry(k)).collect();
    assert_eq!(x, vec![one, zero, zero, zero, cos, sin, zero, neg_sin, cos]);
    assert_eq!(y, vec![cos, zero, neg_sin, zero, one, zero, sin, zero, cos]);
    assert_eq!(z, vec![cos, sin, zero, neg_sin, cos, zero, zero, zero, one]);
}

#[test]
fn z_rotation_by_zero_is_identity() {
    let angle: f64 = 0.0;
    let r = elementary(Basis::Z, angle.cos(), angle.sin());
    assert_eq!(r, vec![1.0, 0.0, 0.0, 0.0, 1.0, 0.0, 0.0, 0.0, 1.0]);
}

#[test]
fn z_rotation_by_right_angle_turns_x_axis() {
    let angle = std::f64::consts::FRAC_PI_2;
    let r = elementary(Basis::Z, angle.cos(), angle.sin());
    let image: Vec<f64> = (0..3).map(|i| r[i * 3]).collect();
    assert!(image[0].abs() < 1e-15);
    assert_eq!(image[1], -1.0);
    assert_eq!(image[2], 0.0);
    // with the exact cosine and sine of a right angle the image is exact
    let exact = elementary_i(Basis::Z, 0, 1);
    assert_eq!((0..3).map(|i| exact[i * 3]).collect::<Vec<_>>(), vec![0, -1, 0]);
}

#[test]
fn elementary_rotation_times_transpose_is_identity() {
    let angle: f64 = 0.7;
    for axis in [Basis::X, Basis::Y, Basis::Z] {
        let r = elementary(axis, angle.cos(), angle.sin());
        for i in 0..3 {
            for j in 0..3 {
                let entry: f64 = (0..3).map(|l| r[i * 3 + l] * r[j * 3 + l]).sum();
                let expected = if i == j { 1.0 } else { 0.0 };
                assert!((entry - expected).abs() < 1e-12);
            }
        }
        let ri = elementary_i(axis, 0, 1);
        let id = vec![1, 0, 0, 0, 1, 0, 0, 0, 1];
        assert_eq!(rows_i(rotation_product_row, 9, &ri, &transposed(&ri)), id);
    }
}

#[test]
fn rotation_embedding_is_block_diagonal() {
    let r: Vec<i64> = (1..10).collect();
    let t = rotation_transform(&r);
    assert_eq!(&t[0..6], &[1, 2, 3, 0, 0, 0]);
    assert_eq!(&t[18..24], &[0, 0, 0, 1, 2, 3]);
    assert_eq!(&t[30..36], &[0, 0, 0, 7, 8, 9]);
    assert_eq!(rotation_embedding(3), None);
    assert_eq!(rotation_embedding(35), Some(8));
}

#[test]
fn translation_embedding_layout() {
    let t = translation_transform(&[1, 2, 3]);
    assert_eq!(&t[18..24], &[0, 3, -2, 1, 0, 0]);
    assert_eq!(&t[24..30], &[-3, 0, 1, 0, 1, 0]);
    assert_eq!(&t[30..36], &[2, -1, 0, 0, 0, 1]);
    assert_eq!(&t[0..6], &[1, 0, 0, 0, 0, 0]);
    assert_eq!(translation_embedding(19), TranslationEntry::Plus(2));
    assert_eq!(translation_embedding(31), TranslationEntry::Minus(0));
}

#[test]
fn extraction_slots() {
    assert_eq!((0..3).map(translation_slot).collect::<Vec<_>>(), vec![26, 30, 19]);
    assert_eq!(
        (0..9).map(rotation_slot).collect::<Vec<_>>(),
        vec![0, 1, 2, 6, 7, 8, 12, 13, 14]
    );
    assert_eq!((0..9).map(transposed_index).collect::<Vec<_>>(), vec![0, 3, 6, 1, 4, 7, 2, 5, 8]);
}

#[test]
fn extraction_reads_back_embedding() {
    let p = [5, -6, 7];
    let t = translation_transform(&p);
    assert_eq!((0..3).map(|i| t[translation_slot(i)]).collect::<Vec<_>>(), p.to_vec());
    let r: Vec<i64> = (10..19).collect();
    let t = rotation_transform(&r);
    assert_eq!((0..9).map(|i| t[rotation_slot(i)]).collect::<Vec<_>>(), r);
}

#[test]
fn pure_translation_keeps_rotational_part() {
    let p = [2, -3, 5];
    let x = translation_transform(&p);
    let v = [1, 4, -2, 7, 0, 3];
    let out = rows_i(motion_transform_row, 6, &x, &v);
    assert_eq!(&out[0..3], &v[0..3]);
    // v + w × p
    let w_x_p = [4 * 5 - (-2) * (-3), -2 * 2 - 5, -3 - 4 * 2];
    assert_eq!(&out[3..6], &[7 + w_x_p[0], w_x_p[1], 3 + w_x_p[2]]);
}

#[test]
fn composed_transform_matches_successive_transforms() {
    let t1 = rows_i(
        transform_product_row,
        36,
        &rotation_transform(&elementary_i(Basis::X, 0, 1)),
        &translation_transform(&[1, 2, 3]),
    );
    let t2 = rows_i(
        transform_product_row,
        36,
        &translation_transform(&[-4, 0, 2]),
        &rotation_transform(&elementary_i(Basis::Y, 0, -1)),
    );
    let v = [3, -1, 2, 5, 4, -6];
    let once = rows_i(motion_transform_row, 6, &rows_i(transform_product_row, 36, &t2, &t1), &v);
    let twice = rows_i(motion_transform_row, 6, &t2, &rows_i(motion_transform_row, 6, &t1, &v));
    assert_eq!(once, twice);
}

/// The inverse `xlt(-p) · rot(Eᵗ)`, with `E` the top-left block and `p` read
/// from `Eᵗ` times the bottom-left block.
fn inverse(t: &[i64]) -> Vec<i64> {
    let rot: Vec<i64> = (0..9).map(|i| t[rotation_slot(i)]).collect();
    let rt = transposed(&rot);
    let block: Vec<i64> = (0..9).map(|i| t[coupling_slot(i)]).collect();
    let unrotated = rows_i(rotation_product_row, 9, &rt, &block);
    let minus_p: Vec<i64> = (0..3).map(|i| -unrotated[coupling_index(i)]).collect();
    rows_i(
        transform_product_row,
        36,
        &translation_transform(&minus_p),
        &rotation_transform(&rt),
    )
}

fn identity6() -> Vec<i64> {
    (0..36).map(|k| if k / 6 == k % 6 { 1 } else { 0 }).collect()
}

#[test]
fn inverse_of_pure_translation_round_trip() {
    let t = translation_transform(&[2, -1, 4]);
    let v = [1, -2, 3, 4, 6, -5];
    let there = rows_i(motion_transform_row, 6, &t, &v);
    assert_ne!(there, v.to_vec());
    assert_eq!(rows_i(motion_transform_row, 6, &inverse(&t), &there), v.to_vec());
}

#[test]
fn inverse_of_pure_rotation_round_trip() {
    let t = rotation_transform(&elementary_i(Basis::Y, 0, 1));
    let v = [1, -2, 3, 4, 6, -5];
    let there = rows_i(motion_transform_row, 6, &t, &v);
    assert_ne!(there, v.to_vec());
    assert_eq!(rows_i(motion_transform_row, 6, &inverse(&t), &there), v.to_vec());
}

#[test]
fn composed_transform_matches_successive_force_transforms() {
    let t1 = rows_i(
        transform_product_row,
        36,
        &translation_transform(&[3, -2, 1]),
        &rotation_transform(&elementary_i(Basis::Z, 0, 1)),
    );
    let t2 = rows_i(
        transform_product_row,
        36,
        &rotation_transform(&elementary_i(Basis::X, 0, -1)),
        &translation_transform(&[0, 5, -1]),
    );
    let f = [2, 7, -3, 1, -4, 6];
    let once = rows_i(force_transform_row, 6, &rows_i(transform_product_row, 36, &t2, &t1), &f);
    let twice = rows_i(force_transform_row, 6, &t2, &rows_i(force_transform_row, 6, &t1, &f));
    assert_eq!(once, twice);
}

#[test]
fn pure_translation_moves_force_moment() {
    let p = [2, -3, 5];
    let x = translation_transform(&p);
    let f = [1, 4, -2, 7, 0, 3];
    let out = rows_i(force_transform_row, 6, &x, &f);
    assert_eq!(&out[3..6], &f[3..6]);
    // n + f × p
    let f_x_p = [0 * 5 - 3 * (-3), 3 * 2 - 7 * 5, 7 * (-3) - 0 * 2];
    assert_eq!(&out[0..3], &[1 + f_x_p[0], 4 + f_x_p[1], -2 + f_x_p[2]]);
    let back = rows_i(force_transform_row, 6, &inverse(&x), &out);
    assert_eq!(back, f.to_vec());
}

#[test]
fn coupling_slots_and_indices() {
    assert_eq!((0..9).map(coupling_slot).collect::<Vec<_>>(), vec![18, 19, 20, 24, 25, 26, 30, 31, 32]);
    assert_eq!((0..3).map(coupling_index).collect::<Vec<_>>(), vec![5, 6, 1]);
}

#[test]
fn inverse_of_rotate_then_translate_round_trip() {
    let r = elementary_i(Basis::Z, 0, 1);
    let p = [1, 0, 0];
    let t = rows_i(transform_product_row, 36, &rotation_transform(&r), &translation_transform(&p));
    let ti = inverse(&t);
    let motion = [0, 0, 1, 0, 0, 0];
    let force = [0, 0, 0, 0, 0, 1];
    let there = rows_i(motion_transform_row, 6, &t, &motion);
    assert_eq!(rows_i(motion_transform_row, 6, &ti, &there), motion.to_vec());
    let there = rows_i(force_transform_row, 6, &t, &force);
    assert_eq!(rows_i(force_transform_row, 6, &ti, &there), force.to_vec());
    assert_eq!(rows_i(transform_product_row, 36, &t, &ti), identity6());
    assert_eq!(rows_i(transform_product_row, 36, &ti, &t), identity6());
}

#[test]
fn inverse_of_general_rigid_transform() {
    let r = rows_i(
        rotation_product_row,
        9,
        &elementary_i(Basis::X, 0, 1),
        &elementary_i(Basis::Y, 0, -1),
    );
    let p = [3, -2, 5];
    let t = rows_i(transform_product_row, 36, &rotation_transform(&r), &translation_transform(&p));
    let ti = inverse(&t);
    assert_eq!(rows_i(transform_product_row, 36, &t, &ti), identity6());
    assert_eq!(rows_i(transform_product_row, 36, &ti, &t), identity6());
    let v = [1, -2, 3, 4, 6, -5];
    let there = rows_i(motion_transform_row, 6, &t, &v);
    assert_eq!(rows_i(motion_transform_row, 6, &ti, &there), v.to_vec());
    let there = rows_i(force_transform_row, 6, &t, &v);
    assert_eq!(rows_i(force_transform_row, 6, &ti, &there), v.to_vec());
}
