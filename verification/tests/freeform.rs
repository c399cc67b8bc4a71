use std::collections::VecDeque;

use obj_parser::{
    BasisMatrixAttributes, Decimal, Degree, FreeFormDefinition, FreeFormDefinitionError,
    FreeFormObject, FreeFormObjectError, FreeFormType, FreeFormValidationExceptions, Matrix,
    MatrixElements, ObjLine, Step,
};

fn d(v: i64) -> Decimal {
    Decimal::from_int(v)
}

fn line(text: &str) -> ObjLine {
    ObjLine::from(&String::from(text))
}

fn lines(texts: &[&str]) -> Vec<ObjLine> {
    texts.iter().map(|t| line(t)).collect()
}

/// The Bezier-basis coefficient matrix used by the surface tests.
fn bezier_coefficients() -> Vec<Decimal> {
    vec![
        d(1),
        d(-3),
        d(3),
        d(-1),
        d(0),
        d(3),
        d(-6),
        d(3),
        d(0),
        d(0),
        d(3),
        d(-3),
        d(0),
        d(0),
        d(0),
        d(1),
    ]
}

#[test]
fn test_free_form_validation() {
    // Construct a matrix with a degree as a curve, but the matrix step as a surface.
    let rational = false;
    let matrix_uv = bezier_coefficients();
    let matrix_elements = MatrixElements::new(&matrix_uv);
    let bmatrix_matrix = Matrix::Surface(matrix_elements.clone(), matrix_elements);
    let matrix_step = Step::Surface(3, 3);
    let bmatrix_attributes = BasisMatrixAttributes { step: matrix_step, matrix: bmatrix_matrix };
    let form_type = FreeFormType::BasisMatrix(bmatrix_attributes);
    let invalid_degree = Degree::Curve(3);
    let bmatrix_test = FreeFormDefinition::new(form_type.clone(), rational.clone(), invalid_degree.clone());
    assert_eq!(bmatrix_test.validate(), Err(FreeFormValidationExceptions::CurveSurfaceMismatch));

    // Construct a matrix that has a matrix too large for the assigned V degree
    let too_small_of_degree = Degree::Surface(3, 2);
    let bmatrix_with_too_big_of_matrix =
        FreeFormDefinition::new(form_type.clone(), rational.clone(), too_small_of_degree);
    assert_eq!(
        bmatrix_with_too_big_of_matrix.validate(),
        Err(FreeFormValidationExceptions::InvalidMatrixSize)
    );

    // Construct a correct basis matrix
    let correct_degree = Degree::Surface(3, 3);
    let correct_bmatrix_test =
        FreeFormDefinition::new(form_type.clone(), rational.clone(), correct_degree);
    assert_eq!(correct_bmatrix_test.validate(), Ok(()));

    // Cardinal curves always have degree 3
    let invalid_cardinal =
        FreeFormDefinition::new(FreeFormType::Cardinal, false, Degree::Curve(2));
    assert_eq!(
        invalid_cardinal.validate(),
        Err(FreeFormValidationExceptions::CardinalDegreeNotEqualToThree)
    );

    // Correct cardinal curve
    let cardinal = FreeFormDefinition::new(FreeFormType::Cardinal, false, Degree::Curve(3));
    assert_eq!(cardinal.validate(), Ok(()));
}

#[test]
fn test_bmatrix_01_cstype() {
    let rational = false;
    let degree = Degree::Surface(3, 3);

    // Construct basis matrix (u,v) are the same
    let matrix_uv = bezier_coefficients();
    let matrix_elements = MatrixElements::new(&matrix_uv);
    let bmatrix_matrix = Matrix::Surface(matrix_elements.clone(), matrix_elements);

    // Construct matrix step
    let matrix_step = Step::Surface(3, 3);

    // Construct matrix attributes
    let bmatrix_attributes = BasisMatrixAttributes { step: matrix_step, matrix: bmatrix_matrix };

    // Construct matrix free form type
    let form_type = FreeFormType::BasisMatrix(bmatrix_attributes);

    // Contruct freeform object
    let bmatrix_test = FreeFormDefinition::new(form_type, rational, degree);

    let parsed_lines = lines(&[
        "# Bezier surface basis",
        "cstype bmatrix",
        "deg 3 3",
        "step 3 3",
        "bmat u 1.000000 -3.000000 3.000000 -1.000000 \
            0.000000 3.000000 -6.000000 3.000000 \
            0.000000 0.000000 3.000000 -3.000000 \
            0.000000 0.000000 0.000000 1.000000",
        "bmat v 1.000000 -3.000000 3.000000 -1.000000 \
            0.000000 3.000000 -6.000000 3.000000 \
            0.000000 0.000000 3.000000 -3.000000 \
            0.000000 0.000000 0.000000 1.000000",
    ]);

    let bmatrix_parser_test = FreeFormDefinition::parse(&parsed_lines).unwrap();
    assert_eq!(bmatrix_test, bmatrix_parser_test);
}

#[test]
fn test_bmatrix_02_cstype() {
    let rational = false;
    let degree = Degree::Curve(3);

    // Construct basis matrix
    let matrix_u = vec![
        d(1),
        d(0),
        d(-3),
        d(2),
        d(0),
        d(0),
        d(3),
        d(-2),
        d(0),
        d(1),
        d(-2),
        d(1),
        d(0),
        d(0),
        d(-1),
        d(1),
    ];
    let matrix_elements = MatrixElements::new(&matrix_u);
    let bmatrix_matrix = Matrix::Curve(matrix_elements);

    // Construct matrix step
    let matrix_step = Step::Curve(2);

    // Construct matrix attributes
    let bmatrix_attributes = BasisMatrixAttributes { step: matrix_step, matrix: bmatrix_matrix };

    // Construct matrix free form type
    let form_type = FreeFormType::BasisMatrix(bmatrix_attributes);

    // Contruct freeform object
    let bmatrix_test = FreeFormDefinition::new(form_type, rational, degree);

    let parsed_lines = lines(&[
        "cstype bmatrix",
        "deg 3",
        "step 2",
        "bmat u 1.000000 0.000000 -3.000000 2.000000 \
            0.000000 0.000000 3.000000 -2.000000 \
            0.000000 1.000000 -2.000000 1.000000 \
            0.000000 0.000000 -1.000000 1.000000",
    ]);

    let bmatrix_parser_test = FreeFormDefinition::parse(&parsed_lines).unwrap();
    assert_eq!(bmatrix_test, bmatrix_parser_test);
}

#[test]
fn bmatrix_element_reference_test() {
    let parsed_lines = lines(&[
        "cstype bmatrix",
        "deg 3 3",
        "step 3 3",
        "bmat u 1.000000 -3.000000 3.000000 -1.000000 \
            0.000000 3.000000 -6.000000 3.000000 \
            0.000000 0.000000 3.000000 -3.000000 \
            0.000000 0.000000 0.000000 1.000000",
        "bmat v 1.000000 -3.000000 3.000000 -1.000000 \
            0.000000 3.000000 -6.000000 3.000000 \
            0.000000 0.000000 3.000000 -3.000000 \
            0.000000 0.000000 0.000000 1.000000",
    ]);
    let bmatrix = FreeFormDefinition::parse(&parsed_lines).unwrap();

    if let FreeFormType::BasisMatrix(attributes) = bmatrix.form_type {
        let row: Vec<Vec<Decimal>> = attributes.matrix.get_row(2, &bmatrix.degree).unwrap();
        let expectation = vec![d(0), d(3), d(-6), d(3)];

        assert_eq!(row[0], expectation);
        assert_eq!(row[1], expectation);

        let column: Vec<Vec<Decimal>> = attributes.matrix.get_column(2, &bmatrix.degree).unwrap();
        let expectation = vec![d(-3), d(3), d(0), d(0)];

        assert_eq!(column[0], expectation);
        assert_eq!(column[1], expectation);
    } else {
        panic!("expected a basis-matrix type");
    }
}

#[test]
fn test_bspline_definition() {
    let rational = true;
    let degree = Degree::Surface(2, 2);

    // Construct BSpline freeform type
    let form_type = FreeFormType::BSpline;

    // Contruct freeform object
    let bspline_test = FreeFormDefinition::new(form_type, rational, degree);

    let parsed_lines = lines(&["cstype rat bspline", "deg 2 2", "curv 0.0 1.0 1 2 3 4"]);

    let bspline_parser_test = FreeFormDefinition::parse(&parsed_lines).unwrap();
    assert_eq!(bspline_test, bspline_parser_test);
}

#[test]
fn surface_definition_parses_and_validates() {
    // End to end: a complete surface definition parses into a surface
    // matrix with a surface step and then validates.
    let parsed_lines = lines(&[
        "cstype bmatrix",
        "deg 3 3",
        "step 3 3",
        "bmat u 1 -3 3 -1 0 3 -6 3 0 0 3 -3 0 0 0 1",
        "bmat v 1 -3 3 -1 0 3 -6 3 0 0 3 -3 0 0 0 1",
    ]);
    let definition = FreeFormDefinition::parse(&parsed_lines).unwrap();
    if let FreeFormType::BasisMatrix(attributes) = &definition.form_type {
        assert!(attributes.matrix.is_surface());
        assert!(attributes.step.is_surface());
    } else {
        panic!("expected a basis-matrix type");
    }
    assert_eq!(definition.validate(), Ok(()));
}

#[test]
fn surface_definition_with_short_degree_fails_size_check() {
    // The same sequence under degree (3, 2): element counts no longer match.
    let parsed_lines = lines(&[
        "cstype bmatrix",
        "deg 3 2",
        "step 3 3",
        "bmat u 1 -3 3 -1 0 3 -6 3 0 0 3 -3 0 0 0 1",
        "bmat v 1 -3 3 -1 0 3 -6 3 0 0 3 -3 0 0 0 1",
    ]);
    let definition = FreeFormDefinition::parse(&parsed_lines).unwrap();
    assert_eq!(
        definition.validate(),
        Err(FreeFormValidationExceptions::InvalidMatrixSize)
    );
}

#[test]
fn v_axis_upgrades_curve_matrix_to_surface() {
    // A `bmat v` line under a curve degree upgrades the matrix to a surface;
    // validation then reports the arity mismatch.
    let parsed_lines = lines(&[
        "cstype bmatrix",
        "deg 3",
        "step 3",
        "bmat v 1 -3 3 -1 0 3 -6 3 0 0 3 -3 0 0 0 1",
    ]);
    let definition = FreeFormDefinition::parse(&parsed_lines).unwrap();
    if let FreeFormType::BasisMatrix(attributes) = &definition.form_type {
        assert!(attributes.matrix.is_surface());
    } else {
        panic!("expected a basis-matrix type");
    }
    assert_eq!(
        definition.validate(),
        Err(FreeFormValidationExceptions::CurveSurfaceMismatch)
    );
}

#[test]
fn cardinal_surface_degrees() {
    // A cardinal surface validates exactly when both axes are three.
    let good = FreeFormDefinition::new(FreeFormType::Cardinal, false, Degree::Surface(3, 3));
    assert_eq!(good.validate(), Ok(()));
    let bad = FreeFormDefinition::new(FreeFormType::Cardinal, false, Degree::Surface(3, 2));
    assert_eq!(
        bad.validate(),
        Err(FreeFormValidationExceptions::CardinalDegreeNotEqualToThree)
    );
    // The other tag-only types validate under any degree.
    let taylor = FreeFormDefinition::new(FreeFormType::Taylor, false, Degree::Curve(2));
    assert_eq!(taylor.validate(), Ok(()));
    let bezier = FreeFormDefinition::new(FreeFormType::Bezier, true, Degree::Surface(1, 5));
    assert_eq!(bezier.validate(), Ok(()));
}

#[test]
fn rational_flag_defaults_to_false() {
    let plain = FreeFormDefinition::parse(&lines(&["cstype bezier", "deg 2"])).unwrap();
    assert!(!plain.rational);
    assert_eq!(plain.form_type, FreeFormType::Bezier);
    // `rat` may precede or follow the type token.
    let before = FreeFormDefinition::parse(&lines(&["cstype rat taylor", "deg 2"])).unwrap();
    assert!(before.rational);
    assert_eq!(before.form_type, FreeFormType::Taylor);
    let after = FreeFormDefinition::parse(&lines(&["cstype taylor rat", "deg 2"])).unwrap();
    assert!(after.rational);
    assert_eq!(after.form_type, FreeFormType::Taylor);
}

#[test]
fn degree_zero_matrix_round_trip() {
    // Degree zero: a single-coefficient matrix with a single row and column.
    let parsed = FreeFormDefinition::parse(&lines(&[
        "cstype bmatrix",
        "deg 0",
        "step 1",
        "bmat u 2.5",
    ]))
    .unwrap();
    assert_eq!(parsed.validate(), Ok(()));
    if let FreeFormType::BasisMatrix(attributes) = &parsed.form_type {
        let rows = attributes.matrix.get_row(1, &parsed.degree).unwrap();
        assert_eq!(rows, vec![vec![Decimal::parse("2.5").unwrap()]]);
        let columns = attributes.matrix.get_column(1, &parsed.degree).unwrap();
        assert_eq!(columns, vec![vec![Decimal::parse("2.5").unwrap()]]);
    } else {
        panic!("expected a basis-matrix type");
    }
}

#[test]
fn parse_error_taxonomy() {
    // A bmat line before any cstype.
    let r = FreeFormDefinition::parse(&lines(&["bmat u 1 2 3 4", "cstype bmatrix", "deg 1"]));
    assert_eq!(r, Err(FreeFormDefinitionError::InvalidFormType));

    // A step line against a non-matrix type.
    let r = FreeFormDefinition::parse(&lines(&["cstype bezier", "deg 3", "step 3"]));
    assert_eq!(r, Err(FreeFormDefinitionError::InvalidFormType));

    // A bad axis selector.
    let r = FreeFormDefinition::parse(&lines(&["cstype bmatrix", "deg 1", "bmat w 1 2 3 4"]));
    assert_eq!(r, Err(FreeFormDefinitionError::InvalidKeyword));

    // A non-numeric coefficient.
    let r = FreeFormDefinition::parse(&lines(&["cstype bmatrix", "deg 1", "bmat u 1 x 3 4"]));
    assert_eq!(r, Err(FreeFormDefinitionError::InvalidParameters));

    // An unknown cstype token.
    let r = FreeFormDefinition::parse(&lines(&["cstype nurbs", "deg 1"]));
    assert_eq!(r, Err(FreeFormDefinitionError::InvalidParameters));

    // A degree with too many scalars.
    let r = FreeFormDefinition::parse(&lines(&["cstype bezier", "deg 1 2 3"]));
    assert_eq!(r, Err(FreeFormDefinitionError::InvalidBufferSize));

    // A step with too many scalars.
    let r = FreeFormDefinition::parse(&lines(&["cstype bmatrix", "deg 1 1", "step 1 2 3"]));
    assert_eq!(r, Err(FreeFormDefinitionError::InvalidBufferSize));

    // Step lines carry plain scalars, not axis selectors.
    let r = FreeFormDefinition::parse(&lines(&["cstype bmatrix", "deg 3 3", "step u 3 v 3"]));
    assert_eq!(r, Err(FreeFormDefinitionError::InvalidParameters));

    // A sequence that ends without a degree.
    let r = FreeFormDefinition::parse(&lines(&["cstype bezier"]));
    assert_eq!(r, Err(FreeFormDefinitionError::MalformedDefinition));

    // An empty sequence.
    let r = FreeFormDefinition::parse(&Vec::new());
    assert_eq!(r, Err(FreeFormDefinitionError::MalformedDefinition));
}

#[test]
fn parse_stops_at_foreign_keyword() {
    // The fold leaves the first foreign-keyword line and everything after it
    // untouched, so a later `deg` line is never seen.
    let r = FreeFormDefinition::parse(&lines(&["cstype bezier", "curv 0.0 1.0 1 2", "deg 2"]));
    assert_eq!(r, Err(FreeFormDefinitionError::MalformedDefinition));
}

#[test]
fn free_form_object_parses_and_renames_errors() {
    let parsed_lines = lines(&["cstype rat bspline", "deg 2 2"]);
    let object = FreeFormObject::parse(&parsed_lines).unwrap();
    assert_eq!(object.form_type, FreeFormType::BSpline);
    assert!(object.rational);
    assert_eq!(object.degree, Degree::Surface(2, 2));

    let r = FreeFormObject::parse(&lines(&["cstype bezier"]));
    assert!(matches!(r, Err(FreeFormObjectError::MalformedCurveDefinition)));
}

#[test]
fn degree_from_tokens() {
    let mut params: VecDeque<String> = VecDeque::new();
    params.push_back(String::from("3"));
    assert_eq!(Degree::from(&params), Ok(Degree::Curve(3)));

    params.push_back(String::from("3"));
    assert_eq!(Degree::from(&params), Ok(Degree::Surface(3, 3)));
}
