use obj_parser::{
    BasisMatrixAttributes, BasisMatrixAttributesError, Decimal, Degree, Matrix, MatrixElements,
    MatrixError, Step,
};

fn d(v: i64) -> Decimal {
    Decimal::from_int(v)
}

fn coeffs(n: i64) -> Vec<Decimal> {
    (0..n).map(d).collect()
}

#[test]
fn rows_are_contiguous_slices() {
    // A 3x3 matrix (degree 2), coefficients 0..9 in row-major order.
    let m = MatrixElements::new(&coeffs(9));
    assert_eq!(m.get_row(1, 2), Some(vec![d(0), d(1), d(2)]));
    assert_eq!(m.get_row(2, 2), Some(vec![d(3), d(4), d(5)]));
    assert_eq!(m.get_row(3, 2), Some(vec![d(6), d(7), d(8)]));
    // Outside [1, degree + 1] the extraction yields nothing, not an error.
    assert_eq!(m.get_row(0, 2), None);
    assert_eq!(m.get_row(4, 2), None);
    // A stored length that does not match the degree also yields nothing.
    assert_eq!(m.get_row(1, 3), None);
    assert_eq!(MatrixElements::new(&coeffs(8)).get_row(1, 2), None);
}

#[test]
fn columns_are_strided_slices() {
    let m = MatrixElements::new(&coeffs(9));
    assert_eq!(m.get_column(1, 2), Some(vec![d(0), d(3), d(6)]));
    assert_eq!(m.get_column(2, 2), Some(vec![d(1), d(4), d(7)]));
    assert_eq!(m.get_column(3, 2), Some(vec![d(2), d(5), d(8)]));
    assert_eq!(m.get_column(0, 2), None);
    assert_eq!(m.get_column(4, 2), None);
}

#[test]
fn empty_matrix_is_zero_filled() {
    let m = MatrixElements::empty(3);
    assert_eq!(m.len(), 9);
    assert!(m.as_slice().iter().all(|c| *c == Decimal::zero()));
}

#[test]
fn curve_matrix_validates_only_at_matching_size() {
    // For a curve degree d, exactly (d + 1)^2 coefficients validate.
    for degree in 0usize..4 {
        let side = degree + 1;
        let exact = Matrix::new_curve(&coeffs((side * side) as i64));
        assert_eq!(exact.validate_matrix(&Degree::Curve(degree)), Ok(()));

        let short = Matrix::new_curve(&coeffs((side * side - 1) as i64));
        assert_eq!(
            short.validate_matrix(&Degree::Curve(degree)),
            Err(MatrixError::InvalidDegree)
        );

        let long = Matrix::new_curve(&coeffs((side * side + 1) as i64));
        assert_eq!(
            long.validate_matrix(&Degree::Curve(degree)),
            Err(MatrixError::InvalidDegree)
        );
    }
}

#[test]
fn matrix_arity_must_match_degree() {
    let curve = Matrix::new_curve(&coeffs(16));
    assert_eq!(curve.validate_matrix(&Degree::Surface(3, 3)), Err(MatrixError::InvalidDegree));
    assert!(curve.is_curve());
    assert!(!curve.is_surface());

    let surface = Matrix::new_surface(&coeffs(16), &coeffs(16));
    assert_eq!(surface.validate_matrix(&Degree::Curve(3)), Err(MatrixError::InvalidDegree));
    assert_eq!(surface.validate_matrix(&Degree::Surface(3, 3)), Ok(()));
    assert!(surface.is_surface());
}

#[test]
fn replacing_u_preserves_v() {
    // On a surface matrix, replacing U leaves V untouched.
    let mut attributes = BasisMatrixAttributes::new(
        Step::Surface(1, 1),
        Matrix::new_surface(&coeffs(4), &[d(9), d(8), d(7), d(6)]),
    );
    attributes.set_matrix_u(&[d(40), d(41), d(42), d(43)]);
    match &attributes.matrix {
        Matrix::Surface(u, v) => {
            assert_eq!(u.as_slice(), &[d(40), d(41), d(42), d(43)]);
            assert_eq!(v.as_slice(), &[d(9), d(8), d(7), d(6)]);
        },
        _ => panic!("expected a surface matrix"),
    }
}

#[test]
fn replacing_v_on_a_curve_upgrades_it() {
    // On a curve matrix, setting V upgrades to a surface keeping the old U.
    let mut attributes =
        BasisMatrixAttributes::new(Step::Curve(1), Matrix::new_curve(&coeffs(4)));
    attributes.set_matrix_v(&[d(9), d(8), d(7), d(6)]);
    match &attributes.matrix {
        Matrix::Surface(u, v) => {
            assert_eq!(u.as_slice(), &[d(0), d(1), d(2), d(3)]);
            assert_eq!(v.as_slice(), &[d(9), d(8), d(7), d(6)]);
        },
        _ => panic!("expected a surface matrix"),
    }
}

#[test]
fn set_step_arity_rules() {
    let mut attributes = BasisMatrixAttributes::new(Step::Curve(0), Matrix::new_curve(&coeffs(4)));
    assert_eq!(attributes.set_step(&[4]), Ok(()));
    assert_eq!(attributes.step, Step::Curve(4));
    assert_eq!(attributes.set_step(&[4, 5]), Ok(()));
    assert_eq!(attributes.step, Step::Surface(4, 5));
    assert_eq!(
        attributes.set_step(&[]),
        Err(BasisMatrixAttributesError::InvalidBufferSize)
    );
    assert_eq!(
        attributes.set_step(&[1, 2, 3]),
        Err(BasisMatrixAttributesError::InvalidBufferSize)
    );
    // A rejected step leaves the previous one in place.
    assert_eq!(attributes.step, Step::Surface(4, 5));
}

#[test]
fn attributes_validate_taxonomy() {
    // Step and matrix agree, and sizes match: valid.
    let good = BasisMatrixAttributes::new(Step::Curve(2), Matrix::new_curve(&coeffs(16)));
    assert_eq!(good.validate(&Degree::Curve(3)), Ok(()));

    // A size mismatch is reported as such.
    let short = BasisMatrixAttributes::new(Step::Curve(2), Matrix::new_curve(&coeffs(9)));
    assert_eq!(
        short.validate(&Degree::Curve(3)),
        Err(BasisMatrixAttributesError::MatrixSizeMismatch)
    );

    // A matrix/degree arity mismatch is a type mismatch, not a size one.
    let wrong_arity =
        BasisMatrixAttributes::new(Step::Surface(2, 2), Matrix::new_surface(&coeffs(16), &coeffs(16)));
    assert_eq!(
        wrong_arity.validate(&Degree::Curve(3)),
        Err(BasisMatrixAttributesError::FreeFormTypeMismatch)
    );

    // A step/matrix arity mismatch is a type mismatch too.
    let wrong_step = BasisMatrixAttributes::new(Step::Surface(2, 2), Matrix::new_curve(&coeffs(16)));
    assert_eq!(
        wrong_step.validate(&Degree::Curve(3)),
        Err(BasisMatrixAttributesError::FreeFormTypeMismatch)
    );
}

#[test]
fn matrix_rows_pair_up_by_axis() {
    let surface = Matrix::new_surface(&coeffs(4), &[d(9), d(8), d(7), d(6)]);
    let rows = surface.get_row(2, &Degree::Surface(1, 1)).unwrap();
    assert_eq!(rows.len(), 2);
    assert_eq!(rows[0], vec![d(2), d(3)]);
    assert_eq!(rows[1], vec![d(7), d(6)]);

    let columns = surface.get_column(1, &Degree::Surface(1, 1)).unwrap();
    assert_eq!(columns[0], vec![d(0), d(2)]);
    assert_eq!(columns[1], vec![d(9), d(7)]);

    // Row extraction refuses an invalid matrix/degree pairing outright.
    assert_eq!(surface.get_row(1, &Degree::Curve(1)), None);
    assert_eq!(surface.get_row(3, &Degree::Surface(1, 1)), None);
}
