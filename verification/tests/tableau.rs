use numerical_integration::{
    bogacki_shampine, coefficient_is_zero, dormand_prince, euler, euler_heun, heun2, heun3,
    midpoint, ralston, rk1, rk2, rk3, rk4, rk_3_8, rk_felberg, row_has_nonzero_from,
    rows_are_equal_length, scan_implicit, table_from_rows, AdaptiveRungeKutta, ButcherTableau,
    RKError, RungeKutta, BOGACKI_SHAMPINE, DORMAND_PRINCE, EULER, EULER_HEUN, HEUN2, HEUN3,
    MIDPOINT, RALSTON, RK1, RK2, RK3, RK4, RK_3_8, RK_FELBERG,
};

fn matrix(rows: &[&[f64]]) -> Vec<Vec<u64>> {
    rows.iter().map(|r| r.iter().map(|x| x.to_bits()).collect()).collect()
}

fn same<const N: usize, const M: usize>(table: &[[u64; M]; N], rows: &[&[f64]]) {
    assert_eq!(rows.len(), N);
    for i in 0..N {
        assert_eq!(rows[i].len(), M);
        for j in 0..M {
            assert_eq!(table[i][j], rows[i][j].to_bits(), "entry {} {}", i, j);
        }
    }
}

#[test]
fn zero_is_either_signed_zero() {
    assert!(coefficient_is_zero(0.0f64.to_bits()));
    assert!(coefficient_is_zero((-0.0f64).to_bits()));
    assert!(!coefficient_is_zero(1.0f64.to_bits()));
    assert!(!coefficient_is_zero((-1.0f64).to_bits()));
    assert!(!coefficient_is_zero(f64::NAN.to_bits()));
    assert!(!coefficient_is_zero(f64::INFINITY.to_bits()));
    assert!(!coefficient_is_zero(f64::MIN_POSITIVE.to_bits()));
    assert!(!coefficient_is_zero(5e-324f64.to_bits()));
    for x in [0.0f64, -0.0, 0.5, -3.25, f64::NAN, f64::NEG_INFINITY, 1e-310] {
        assert_eq!(coefficient_is_zero(x.to_bits()), !(x != 0.0));
    }
}

#[test]
fn empty_matrix_is_rejected() {
    assert_eq!(RungeKutta::from_matrix(vec![]), Err(RKError::EmptyTableau));
    assert_eq!(AdaptiveRungeKutta::from_matrix(vec![]), Err(RKError::EmptyTableau));
    assert_eq!(ButcherTableau::new(vec![]), Err(RKError::EmptyTableau));
}

#[test]
fn rows_without_entries_are_rejected() {
    assert_eq!(RungeKutta::from_matrix(vec![vec![]]), Err(RKError::EmptyTableau));
    assert_eq!(AdaptiveRungeKutta::from_matrix(vec![vec![]]), Err(RKError::EmptyTableau));
    assert_eq!(AdaptiveRungeKutta::from_matrix(vec![vec![], vec![]]), Err(RKError::EmptyTableau));
}

#[test]
fn jagged_matrix_is_rejected() {
    let m = matrix(&[&[0.0, 0.0], &[0.0]]);
    assert_eq!(RungeKutta::from_matrix(m.clone()), Err(RKError::JaggedTableau));
    assert_eq!(AdaptiveRungeKutta::from_matrix(m.clone()), Err(RKError::JaggedTableau));
    assert_eq!(ButcherTableau::new(m), Err(RKError::JaggedTableau));
    let m = matrix(&[&[0.0], &[0.0, 0.0], &[0.0]]);
    assert_eq!(AdaptiveRungeKutta::from_matrix(m), Err(RKError::JaggedTableau));
}

#[test]
fn jagged_is_found_before_too_many_columns() {
    let m = matrix(&[&[0.0, 0.0, 0.0], &[0.0]]);
    assert_eq!(RungeKutta::from_matrix(m.clone()), Err(RKError::JaggedTableau));
    assert_eq!(AdaptiveRungeKutta::from_matrix(m), Err(RKError::JaggedTableau));
    let m = matrix(&[&[], &[1.0]]);
    assert_eq!(RungeKutta::from_matrix(m), Err(RKError::JaggedTableau));
}

#[test]
fn too_many_columns_are_rejected() {
    let m = matrix(&[&[0.0, 0.0, 0.0], &[0.0, 0.0, 0.0]]);
    assert_eq!(RungeKutta::from_matrix(m.clone()), Err(RKError::TooManyColumns(2, 3)));
    assert_eq!(AdaptiveRungeKutta::from_matrix(m.clone()), Err(RKError::TooManyColumns(2, 3)));
    assert_eq!(ButcherTableau::new(m), Err(RKError::TooManyColumns(2, 3)));
    let m = matrix(&[&[1.0, 2.0]]);
    assert_eq!(RungeKutta::from_matrix(m), Err(RKError::TooManyColumns(1, 2)));
}

#[test]
fn square_with_entry_on_diagonal_is_implicit() {
    let m = matrix(&[&[0.0, 0.0], &[0.0, 1.0]]);
    assert_eq!(RungeKutta::from_matrix(m.clone()), Err(RKError::UnsupportedImplicit));
    assert!(matches!(ButcherTableau::new(m), Ok(ButcherTableau::Implicit(_))));
    let m = matrix(&[&[0.5]]);
    assert_eq!(RungeKutta::from_matrix(m), Err(RKError::UnsupportedImplicit));
}

#[test]
fn square_with_entry_right_of_diagonal_is_implicit() {
    let m = matrix(&[&[0.0, 0.0, 0.5], &[0.0, 0.0, 0.0], &[0.0, 0.0, 0.0]]);
    assert_eq!(RungeKutta::from_matrix(m.clone()), Err(RKError::UnsupportedImplicit));
    assert_eq!(AdaptiveRungeKutta::from_matrix(m), Err(RKError::UnsupportedImplicit));
    let m = matrix(&[&[0.0, 0.0, 0.0], &[0.0, 0.0, f64::NAN], &[0.0, 0.0, 0.0]]);
    assert_eq!(RungeKutta::from_matrix(m), Err(RKError::UnsupportedImplicit));
}

#[test]
fn named_matrices_are_implicit_by_the_scan() {
    for t in [
        table_from_rows(&RK1),
        table_from_rows(&RK2),
        table_from_rows(&HEUN2),
        table_from_rows(&RALSTON),
    ] {
        assert_eq!(RungeKutta::from_matrix(t), Err(RKError::UnsupportedImplicit));
    }
    assert_eq!(
        RungeKutta::from_matrix(table_from_rows(&RK4)),
        Err(RKError::UnsupportedImplicit)
    );
    assert_eq!(
        AdaptiveRungeKutta::from_matrix(table_from_rows(&EULER_HEUN)),
        Err(RKError::UnsupportedImplicit)
    );
}

#[test]
fn negative_zero_does_not_make_implicit() {
    let m = matrix(&[&[-0.0, -0.0], &[1.0, -0.0]]);
    let t = RungeKutta::from_matrix(m).unwrap();
    assert_eq!(t.order(), 1);
}

#[test]
fn square_explicit_matrix_is_fixed() {
    let m = matrix(&[&[0.0, 0.0, 0.0], &[1.0, 0.0, 0.0], &[0.0, 1.0, 0.0]]);
    assert!(matches!(ButcherTableau::new(m.clone()), Ok(ButcherTableau::Fixed(_))));
    let t = RungeKutta::from_matrix(m.clone()).unwrap();
    assert_eq!(t.order(), 2);
    assert_eq!(t.order(), m.len() - 1);
    assert_eq!(AdaptiveRungeKutta::from_matrix(m), Err(RKError::TooManyColumns(3, 3)));
    let t = RungeKutta::from_matrix(matrix(&[&[0.0]])).unwrap();
    assert_eq!(t.order(), 0);
}

#[test]
fn one_row_more_is_adaptive() {
    let m = matrix(&[&[0.0, 0.0], &[1.0, 0.0], &[0.0, 1.0]]);
    assert!(matches!(ButcherTableau::new(m.clone()), Ok(ButcherTableau::Adaptive(_))));
    let t = AdaptiveRungeKutta::from_matrix(m.clone()).unwrap();
    assert_eq!(t.order(), 1);
    assert_eq!(t.order(), m[0].len() - 1);
    assert_eq!(m.len(), t.order() + 2);
    assert_eq!(RungeKutta::from_matrix(m), Err(RKError::NonSquareTableau(3, 2)));
    let t = AdaptiveRungeKutta::from_matrix(matrix(&[&[0.0], &[1.0]])).unwrap();
    assert_eq!(t.order(), 0);
}

#[test]
fn one_row_more_and_implicit() {
    let m = matrix(&[&[0.0, 1.0], &[1.0, 0.0], &[0.0, 1.0]]);
    assert!(matches!(ButcherTableau::new(m.clone()), Ok(ButcherTableau::AdaptiveImplicit(_))));
    assert_eq!(AdaptiveRungeKutta::from_matrix(m.clone()), Err(RKError::UnsupportedImplicit));
    assert_eq!(RungeKutta::from_matrix(m), Err(RKError::NonSquareTableau(3, 2)));
}

#[test]
fn rows_below_the_square_are_not_scanned() {
    let m = matrix(&[&[0.0, 0.0], &[1.0, 0.0], &[7.0, 9.0]]);
    assert!(AdaptiveRungeKutta::from_matrix(m).is_ok());
}

#[test]
fn two_rows_more_are_not_square() {
    let m = matrix(&[&[0.0, 0.0], &[1.0, 0.0], &[0.0, 1.0], &[0.0, 1.0]]);
    assert_eq!(ButcherTableau::new(m.clone()), Err(RKError::NonSquareTableau(4, 2)));
    assert_eq!(RungeKutta::from_matrix(m.clone()), Err(RKError::NonSquareTableau(4, 2)));
    assert_eq!(AdaptiveRungeKutta::from_matrix(m), Err(RKError::NonSquareTableau(4, 2)));
}

#[test]
fn validation_keeps_the_matrix() {
    let m = matrix(&[&[0.0, 0.0], &[1.0, 0.0], &[0.0, 1.0]]);
    match ButcherTableau::new(m.clone()) {
        Ok(ButcherTableau::Adaptive(t)) => assert_eq!(t, m),
        other => panic!("{:?}", other),
    }
}

#[test]
fn scanning_helpers() {
    let row: Vec<u64> = [0.0f64, 2.0, 0.0, 0.0].iter().map(|x| x.to_bits()).collect();
    assert!(row_has_nonzero_from(&row, 0));
    assert!(row_has_nonzero_from(&row, 1));
    assert!(!row_has_nonzero_from(&row, 2));
    assert!(!row_has_nonzero_from(&row, 4));
    assert!(!row_has_nonzero_from(&row, 9));
    assert!(rows_are_equal_length(&vec![]));
    assert!(rows_are_equal_length(&matrix(&[&[1.0], &[2.0]])));
    assert!(!rows_are_equal_length(&matrix(&[&[1.0], &[2.0, 3.0]])));
    assert!(scan_implicit(&matrix(&[&[0.0, 0.0], &[0.0, 1.0]])));
    assert!(!scan_implicit(&matrix(&[&[0.0, 0.0], &[1.0, 0.0]])));
    assert!(!scan_implicit(&vec![]));
}

#[test]
fn orders_of_the_named_methods() {
    assert_eq!(euler().order(), 1);
    assert_eq!(rk1().order(), 1);
    assert_eq!(midpoint().order(), 2);
    assert_eq!(rk2().order(), 2);
    assert_eq!(heun2().order(), 2);
    assert_eq!(ralston().order(), 2);
    assert_eq!(rk3().order(), 3);
    assert_eq!(heun3().order(), 3);
    assert_eq!(rk4().order(), 4);
    assert_eq!(rk_3_8().order(), 4);
    assert_eq!(euler_heun().order(), 2);
    assert_eq!(bogacki_shampine().order(), 4);
    assert_eq!(rk_felberg().order(), 6);
    assert_eq!(dormand_prince().order(), 7);
}

#[test]
fn clones_are_equal() {
    let a = rk4();
    assert_eq!(a.clone(), a);
    assert_ne!(a, rk_3_8());
    assert_eq!(euler(), rk1());
    assert_eq!(midpoint(), rk2());
    let b = dormand_prince();
    assert_eq!(b.clone(), b);
    assert_ne!(b, rk_felberg());
}

#[test]
fn coefficients_of_the_fixed_methods() {
    same(&RK1, &[&[0.0, 0.0], &[0.0, 1.0]]);
    same(&EULER, &[&[0.0, 0.0], &[0.0, 1.0]]);
    same(&RK2, &[&[0.0, 0.0, 0.0], &[0.5, 0.5, 0.0], &[0.0, 0.0, 1.0]]);
    same(&MIDPOINT, &[&[0.0, 0.0, 0.0], &[0.5, 0.5, 0.0], &[0.0, 0.0, 1.0]]);
    same(&HEUN2, &[&[0.0, 0.0, 0.0], &[1.0, 1.0, 0.0], &[0.0, 0.5, 0.5]]);
    same(
        &RALSTON,
        &[&[0.0, 0.0, 0.0], &[2.0 / 3.0, 2.0 / 3.0, 0.0], &[0.0, 0.25, 0.75]],
    );
    same(
        &RK3,
        &[
            &[0.0, 0.0, 0.0, 0.0],
            &[0.5, 0.5, 0.0, 0.0],
            &[1.0, -1.0, 2.0, 0.0],
            &[0.0, 1.0 / 6.0, 2.0 / 3.0, 1.0 / 6.0],
        ],
    );
    same(
        &HEUN3,
        &[
            &[0.0, 0.0, 0.0, 0.0],
            &[1.0 / 3.0, 1.0 / 3.0, 0.0, 0.0],
            &[2.0 / 3.0, 0.0, 2.0 / 3.0, 0.0],
            &[0.0, 0.25, 0.0, 0.75],
        ],
    );
    same(
        &RK4,
        &[
            &[0.0, 0.0, 0.0, 0.0, 0.0],
            &[0.5, 0.5, 0.0, 0.0, 0.0],
            &[0.5, 0.0, 0.5, 0.0, 0.0],
            &[1.0, 0.0, 0.0, 1.0, 0.0],
            &[0.0, 1.0 / 6.0, 1.0 / 3.0, 1.0 / 3.0, 1.0 / 6.0],
        ],
    );
    same(
        &RK_3_8,
        &[
            &[0.0, 0.0, 0.0, 0.0, 0.0],
            &[1.0 / 3.0, 1.0 / 3.0, 0.0, 0.0, 0.0],
            &[2.0 / 3.0, -1.0 / 3.0, 1.0, 0.0, 0.0],
            &[1.0, 1.0, -1.0, 1.0, 0.0],
            &[0.0, 0.125, 0.375, 0.375, 0.125],
        ],
    );
}

#[test]
fn coefficients_of_the_embedded_pairs() {
    same(
        &EULER_HEUN,
        &[&[0.0, 0.0, 0.0], &[1.0, 1.0, 0.0], &[0.0, 0.5, 0.5], &[0.0, 1.0, 0.0]],
    );
    same(
        &BOGACKI_SHAMPINE,
        &[
            &[0.0, 0.0, 0.0, 0.0, 0.0],
            &[0.5, 0.5, 0.0, 0.0, 0.0],
            &[0.75, 0.0, 0.75, 0.0, 0.0],
            &[1.0, 2.0 / 9.0, 1.0 / 3.0, 4.0 / 9.0, 0.0],
            &[0.0, 2.0 / 9.0, 1.0 / 3.0, 4.0 / 9.0, 0.0],
            &[0.0, 7.0 / 24.0, 0.25, 1.0 / 3.0, 0.125],
        ],
    );
    same(
        &RK_FELBERG,
        &[
            &[0.0, 0.0, 0.0, 0.0, 0.0, 0.0, 0.0],
            &[0.25, 0.25, 0.0, 0.0, 0.0, 0.0, 0.0],
            &[0.375, 3.0 / 32.0, 9.0 / 32.0, 0.0, 0.0, 0.0, 0.0],
            &[12.0 / 13.0, 1932.0 / 2197.0, -7200.0 / 2197.0, 7296.0 / 2197.0, 0.0, 0.0, 0.0],
            &[1.0, 439.0 / 216.0, -8.0, 3680.0 / 513.0, -845.0 / 4104.0, 0.0, 0.0],
            &[0.5, -8.0 / 27.0, 2.0, -3544.0 / 2565.0, 1859.0 / 4104.0, -11.0 / 40.0, 0.0],
            &[0.0, 16.0 / 135.0, 0.0, 6656.0 / 12825.0, 28561.0 / 56430.0, -9.0 / 50.0, 2.0 / 55.0],
            &[0.0, 25.0 / 216.0, 0.0, 1408.0 / 2565.0, 2197.0 / 4104.0, -1.0 / 5.0, 0.0],
        ],
    );
    same(
        &DORMAND_PRINCE,
        &[
            &[0.0, 0.0, 0.0, 0.0, 0.0, 0.0, 0.0, 0.0],
            &[0.2, 0.2, 0.0, 0.0, 0.0, 0.0, 0.0, 0.0],
            &[0.3, 3.0 / 40.0, 9.0 / 40.0, 0.0, 0.0, 0.0, 0.0, 0.0],
            &[0.4, 44.0 / 45.0, -56.0 / 15.0, 32.0 / 9.0, 0.0, 0.0, 0.0, 0.0],
            &[8.0 / 9.0, 19372.0 / 6561.0, -25360.0 / 2187.0, 64448.0 / 6561.0, -212.0 / 729.0, 0.0, 0.0, 0.0],
            &[1.0, 9017.0 / 3168.0, -355.0 / 33.0, 46732.0 / 5247.0, 49.0 / 176.0, -5103.0 / 18656.0, 0.0, 0.0],
            &[1.0, 35.0 / 384.0, 0.0, 500.0 / 1113.0, 125.0 / 192.0, -2187.0 / 6784.0, 11.0 / 84.0, 0.0],
            &[0.0, 35.0 / 384.0, 0.0, 500.0 / 1113.0, 125.0 / 192.0, -2187.0 / 6784.0, 11.0 / 84.0, 0.0],
            &[0.0, 5179.0 / 57600.0, 0.0, 7571.0 / 16695.0, 393.0 / 640.0, -92097.0 / 339200.0, 187.0 / 2100.0, 1.0 / 4.0],
        ],
    );
}

#[test]
fn table_from_rows_copies_the_array() {
    assert_eq!(table_from_rows(&RK2), matrix(&[&[0.0, 0.0, 0.0], &[0.5, 0.5, 0.0], &[0.0, 0.0, 1.0]]));
    let none: [[u64; 3]; 0] = [];
    assert_eq!(table_from_rows(&none), Vec::<Vec<u64>>::new());
}
