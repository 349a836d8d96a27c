use spatial_algebra::algebra::{
    cross_force_row, cross_motion_row, dot_row, force_transform_row, inertia_tensor_row,
    motion_transform_row, offset_cross_row, rotation_product_row, transform_product_row,
};
use spatial_algebra::bilinear::{BilinearRow, Term};

fn eval_f(row: &BilinearRow, a: &[f64], b: &[f64]) -> f64 {
    let mut acc = 0.0;
    for t in 0..row.len() {
        let term = row.term(t);
        let p = a[term.left] * b[term.right];
        acc = if t == 0 {
            if term.positive { p } else { -p }
        } else if term.positive {
            acc + p
        } else {
            acc - p
        };
    }
    acc
}

fn eval_i(row: &BilinearRow, a: &[i64], b: &[i64]) -> i64 {
    let mut acc = 0;
    for t in 0..row.len() {
        let term = row.term(t);
        let p = a[term.left] * b[term.right];
        acc += if term.positive { p } else { -p };
    }
    acc
}

fn rows_i(row_of: fn(usize) -> BilinearRow, n: usize, a: &[i64], b: &[i64]) -> Vec<i64> {
    (0..n).map(|k| eval_i(&row_of(k), a, b)).collect()
}

fn terms(row: &BilinearRow) -> Vec<(bool, usize, usize)> {
    (0..row.len())
        .map(|t| {
            let Term { positive, left, right } = row.term(t);
            (positive, left, right)
        })
        .collect()
}

#[test]
fn dot() {
    let force = [1.0, 2.0, 3.0, 4.0, 5.0, 6.0];
    let motion = [1.0, 2.0, 3.0, 4.0, 5.0, 6.0];

    assert_eq!(eval_f(&dot_row(), &force, &motion), 91.0);
}

#[test]
fn dot_is_symmetric_on_values() {
    let f = [1.5, -2.0, 3.25, 0.5, 7.0, -1.0];
    let m = [-4.0, 0.25, 2.0, 9.0, -3.5, 6.0];
    assert_eq!(eval_f(&dot_row(), &f, &m), eval_f(&dot_row(), &m, &f));
    let fi = [3, -1, 4, 1, -5, 9];
    let mi = [2, 7, -1, 8, 2, -8];
    assert_eq!(eval_i(&dot_row(), &fi, &mi), 6 - 7 - 4 + 8 - 10 - 72);
}

#[test]
fn cross_product_terms() {
    assert_eq!(terms(&cross_motion_row(0)), vec![(true, 1, 2), (false, 2, 1)]);
    assert_eq!(
        terms(&cross_motion_row(3)),
        vec![(true, 1, 5), (false, 2, 4), (true, 4, 2), (false, 5, 1)]
    );
    assert_eq!(
        terms(&cross_force_row(1)),
        vec![(true, 2, 0), (false, 0, 2), (true, 5, 3), (false, 3, 5)]
    );
    assert_eq!(terms(&cross_force_row(5)), vec![(true, 0, 4), (false, 1, 3)]);
}

#[test]
fn cross_motion_values() {
    let a = [1, 2, 3, 4, 5, 6];
    let b = [7, 8, 9, 10, 11, 12];
    // (w × w', w × v' + v × w')
    let w_x_w = [2 * 9 - 3 * 8, 3 * 7 - 9, 8 - 2 * 7];
    let w_x_v = [2 * 12 - 3 * 11, 3 * 10 - 12, 11 - 2 * 10];
    let v_x_w = [5 * 9 - 6 * 8, 6 * 7 - 4 * 9, 4 * 8 - 5 * 7];
    let expected = vec![
        w_x_w[0],
        w_x_w[1],
        w_x_w[2],
        w_x_v[0] + v_x_w[0],
        w_x_v[1] + v_x_w[1],
        w_x_v[2] + v_x_w[2],
    ];
    assert_eq!(rows_i(cross_motion_row, 6, &a, &b), expected);
}

#[test]
fn cross_force_values() {
    let a = [1, 2, 3, 4, 5, 6];
    let b = [7, 8, 9, 10, 11, 12];
    // (w × n + v × f, w × f)
    let w_x_n = [2 * 9 - 3 * 8, 3 * 7 - 9, 8 - 2 * 7];
    let v_x_f = [5 * 12 - 6 * 11, 6 * 10 - 4 * 12, 4 * 11 - 5 * 10];
    let w_x_f = [2 * 12 - 3 * 11, 3 * 10 - 12, 11 - 2 * 10];
    let expected = vec![
        w_x_n[0] + v_x_f[0],
        w_x_n[1] + v_x_f[1],
        w_x_n[2] + v_x_f[2],
        w_x_f[0],
        w_x_f[1],
        w_x_f[2],
    ];
    assert_eq!(rows_i(cross_force_row, 6, &a, &b), expected);
}

#[test]
fn cross_motion_with_itself_is_zero() {
    let m = [3, -7, 2, 11, -5, 4];
    assert_eq!(rows_i(cross_motion_row, 6, &m, &m), vec![0; 6]);
    let mf = [0.1, 2.5, -3.75, 1e3, -0.5, 8.0];
    for row in 0..3 {
        assert_eq!(eval_f(&cross_motion_row(row), &mf, &mf), 0.0);
    }
    for row in 3..6 {
        assert!(eval_f(&cross_motion_row(row), &mf, &mf).abs() < 1e-9);
    }
}

#[test]
fn motion_transform_skips_top_right_block() {
    assert_eq!(terms(&motion_transform_row(1)), vec![(true, 6, 0), (true, 7, 1), (true, 8, 2)]);
    assert_eq!(
        terms(&motion_transform_row(4)),
        (0..6).map(|c| (true, 24 + c, c)).collect::<Vec<_>>()
    );
}

#[test]
fn force_transform_moves_coupling_block_up() {
    assert_eq!(
        terms(&force_transform_row(0)),
        vec![(true, 0, 0), (true, 1, 1), (true, 2, 2), (true, 18, 3), (true, 19, 4), (true, 20, 5)]
    );
    assert_eq!(
        terms(&force_transform_row(5)),
        vec![(true, 33, 3), (true, 34, 4), (true, 35, 5)]
    );
}

#[test]
fn rotation_product_values() {
    let a = [1, 2, 3, 4, 5, 6, 7, 8, 9];
    let b = [9, 8, 7, 6, 5, 4, 3, 2, 1];
    assert_eq!(
        rows_i(rotation_product_row, 9, &a, &b),
        vec![30, 24, 18, 84, 69, 54, 138, 114, 90]
    );
}

#[test]
fn rotation_product_is_associative_on_values() {
    let a = [2, -1, 0, 3, 5, 1, -2, 4, 7];
    let b = [1, 0, 6, -3, 2, 2, 4, -1, 1];
    let c = [0, 5, -2, 1, 1, 3, 8, -4, 2];
    let ab = rows_i(rotation_product_row, 9, &a, &b);
    let bc = rows_i(rotation_product_row, 9, &b, &c);
    assert_eq!(
        rows_i(rotation_product_row, 9, &ab, &c),
        rows_i(rotation_product_row, 9, &a, &bc)
    );
}

#[test]
fn transform_product_values() {
    let a: Vec<i64> = (0..36).collect();
    let mut id = vec![0; 36];
    for i in 0..6 {
        id[i * 6 + i] = 1;
    }
    assert_eq!(rows_i(transform_product_row, 36, &a, &id), a);
    assert_eq!(rows_i(transform_product_row, 36, &id, &a), a);
    let k = 2 * 6 + 3;
    let expected: i64 = (0..6).map(|j| a[2 * 6 + j] * a[j * 6 + 3]).sum();
    assert_eq!(eval_i(&transform_product_row(k), &a, &a), expected);
}

#[test]
fn inertia_tensor_terms() {
    assert_eq!(terms(&inertia_tensor_row(0)), vec![(true, 1, 0), (true, 4, 1), (true, 5, 2)]);
    assert_eq!(terms(&inertia_tensor_row(1)), vec![(true, 4, 0), (true, 2, 1), (true, 6, 2)]);
    assert_eq!(terms(&inertia_tensor_row(2)), vec![(true, 5, 0), (true, 6, 1), (true, 3, 2)]);
    // mass, i_xx, i_yy, i_zz, i_xy, i_xz, i_yz
    let params = [2, 10, 20, 30, 1, 2, 3];
    let w = [1, -1, 2, 0, 0, 0];
    assert_eq!(rows_i(inertia_tensor_row, 3, &params, &w), vec![10 - 1 + 4, 1 - 20 + 6, 2 - 3 + 60]);
}

#[test]
fn offset_cross_values() {
    let w = [1, 2, 3, 9, 9, 9];
    let c = [4, 5, 6];
    assert_eq!(rows_i(offset_cross_row, 3, &w, &c), vec![2 * 6 - 3 * 5, 3 * 4 - 6, 5 - 2 * 4]);
}
