//! The free-form definition: a fold over an ordered sequence of tagged
//! lines (`cstype`, `deg`, `bmat`, `step`) producing a validated
//! `{type, rational, degree}` record.
//!
//! The first line with any other keyword stops the fold and is left for the
//! caller; lines without a keyword are skipped.  A definition is complete
//! only when both a type and a degree have been seen.

use std::collections::VecDeque;
use vstd::prelude::*;

use crate::freeform_geometry::basis_matrix::basis_matrix_attributes::{spec_attrs_validate,
    BasisMatrixAttributesError, BasisMatrixAttributesView};
use crate::freeform_geometry::basis_matrix::matrix::MatrixView;
use crate::freeform_geometry::freeform_types::{spec_from_keyword, FreeFormType, FreeFormTypeView};
use crate::freeform_geometry::uv_pair::{UVPair, UVPairError};
use crate::freeform_geometry::Degree;
use crate::decimal::Decimal;
use crate::parser::{ObjLine, ObjLineView};
use crate::utility::{convert_decimal_vec_from, convert_vec, spec_convert_decimals,
    spec_convert_usizes, str_eq};

verus! {

/// Structural failures while accumulating a definition.
#[derive(Clone, Copy, Debug, PartialEq, Eq, Structural)]
pub enum FreeFormDefinitionError {
    /// A line was missing its keyword where one was required.
    MissingKeyword,
    /// Degree, matrix and step do not agree on curve/surface arity.
    CurveSurfaceMismatch,
    /// A `bmat` axis selector was neither `u` nor `v`.
    InvalidKeyword,
    /// A `bmat` or `step` line arrived before a basis-matrix `cstype`.
    InvalidFormType,
    /// A parameter token failed to convert, or an unknown `cstype` token.
    InvalidParameters,
    /// An unrecognised free-form type token.
    InvalidFreeFormType,
    /// A `deg` or `step` line held no scalar, or more than two.
    InvalidBufferSize,
    /// The line sequence ended without both a type and a degree.
    MalformedDefinition,
    /// A failure that the taxonomy does not cover.
    UnknownError,
}

/// Semantic failures found by the explicit [`FreeFormDefinition::validate`]
/// step, after a complete definition exists.
#[derive(Clone, Copy, Debug, PartialEq, Eq, Structural)]
pub enum FreeFormValidationExceptions {
    /// A cardinal definition with a degree axis other than three.
    CardinalDegreeNotEqualToThree,
    /// Matrix, step and degree do not agree on curve/surface arity.
    CurveSurfaceMismatch,
    /// An axis element count does not match the stated degree.
    InvalidMatrixSize,
    /// A failure that the taxonomy does not cover.
    UnknownException,
}

/// A fully accumulated free-form definition.
#[derive(Debug, Clone, PartialEq)]
pub struct FreeFormDefinition {
    pub form_type: FreeFormType,
    pub rational: bool,
    pub degree: Degree,
}

/// The mathematical content of a [`FreeFormDefinition`].
pub ghost struct FreeFormDefinitionView {
    pub form_type: FreeFormTypeView,
    pub rational: bool,
    pub degree: Degree,
}

impl View for FreeFormDefinition {
    type V = FreeFormDefinitionView;

    open spec fn view(&self) -> FreeFormDefinitionView {
        FreeFormDefinitionView {
            form_type: self.form_type@,
            rational: self.rational,
            degree: self.degree,
        }
    }
}

/// The in-progress state of the fold: which optional fields have been
/// populated so far.
pub ghost struct ParseState {
    pub form_type: Option<FreeFormTypeView>,
    pub degree: Option<UVPair>,
    pub rational: Option<bool>,
}

/// The effect of one line on the fold.
pub ghost enum LineStep {
    /// The line was consumed; the fold continues with this state.
    Continue(ParseState),
    /// The line belongs to someone else; the fold stops before it.
    Stop,
    /// The line was malformed; the fold aborts.
    Fail(FreeFormDefinitionError),
}

/// View of an in-progress exec type value.
pub open spec fn opt_type_view(o: Option<FreeFormType>) -> Option<FreeFormTypeView> {
    match o {
        Some(t) => Some(t@),
        None => None,
    }
}

/// The `cstype` parameter fold: `rat` sets the rational flag, a basis-kind
/// token (re)sets the type, anything else fails.
pub open spec fn spec_cstype_fold(
    ps: Seq<Seq<char>>,
    i: int,
    t: Option<FreeFormTypeView>,
    rt: Option<bool>,
) -> Result<(Option<FreeFormTypeView>, Option<bool>), FreeFormDefinitionError>
    decreases ps.len() - i,
{
    if i < 0 || i >= ps.len() {
        Ok((t, rt))
    } else {
        let tok = ps[i];
        if tok == "rat"@ {
            spec_cstype_fold(ps, i + 1, t, Some(true))
        } else {
            match spec_from_keyword(tok) {
                Ok(t2) => spec_cstype_fold(ps, i + 1, Some(t2), rt),
                Err(_) => Err(FreeFormDefinitionError::InvalidParameters),
            }
        }
    }
}

/// The type and rational flag denoted by a whole `cstype` parameter list.
pub open spec fn spec_cstype(ps: Seq<Seq<char>>) -> Result<
    (Option<FreeFormTypeView>, Option<bool>),
    FreeFormDefinitionError,
> {
    spec_cstype_fold(ps, 0, None, None)
}

/// Replacing the U axis preserves the V axis of a surface.
pub open spec fn spec_set_matrix_u(a: BasisMatrixAttributesView, vals: Seq<Decimal>) -> BasisMatrixAttributesView {
    BasisMatrixAttributesView {
        step: a.step,
        matrix: match a.matrix {
            MatrixView::Curve(_) => MatrixView::Curve(vals),
            MatrixView::Surface(_, v) => MatrixView::Surface(vals, v),
        },
    }
}

/// Replacing the V axis keeps the U axis; a curve matrix is upgraded to a
/// surface.
pub open spec fn spec_set_matrix_v(a: BasisMatrixAttributesView, vals: Seq<Decimal>) -> BasisMatrixAttributesView {
    BasisMatrixAttributesView {
        step: a.step,
        matrix: match a.matrix {
            MatrixView::Curve(u) => MatrixView::Surface(u, vals),
            MatrixView::Surface(u, _) => MatrixView::Surface(u, vals),
        },
    }
}

/// Effect of a `bmat u ...` line on the in-progress type: the coefficient
/// tokens are converted first, then the type must be a basis matrix.
pub open spec fn spec_parse_matrix_u(t: FreeFormTypeView, ps: Seq<Seq<char>>) -> Result<
    FreeFormTypeView,
    FreeFormDefinitionError,
> {
    match spec_convert_decimals(ps) {
        None => Err(FreeFormDefinitionError::InvalidParameters),
        Some(vals) => match t {
            FreeFormTypeView::BasisMatrix(a) => Ok(
                FreeFormTypeView::BasisMatrix(spec_set_matrix_u(a, vals)),
            ),
            _ => Err(FreeFormDefinitionError::InvalidFormType),
        },
    }
}

/// Effect of a `bmat v ...` line: the type is checked first, then the
/// coefficient tokens are converted.
pub open spec fn spec_parse_matrix_v(t: FreeFormTypeView, ps: Seq<Seq<char>>) -> Result<
    FreeFormTypeView,
    FreeFormDefinitionError,
> {
    match t {
        FreeFormTypeView::BasisMatrix(a) => match spec_convert_decimals(ps) {
            None => Err(FreeFormDefinitionError::InvalidParameters),
            Some(vals) => Ok(FreeFormTypeView::BasisMatrix(spec_set_matrix_v(a, vals))),
        },
        _ => Err(FreeFormDefinitionError::InvalidFormType),
    }
}

/// Effect of a `bmat` line: the first parameter selects the axis.
pub open spec fn spec_parse_matrix(t: FreeFormTypeView, ps: Seq<Seq<char>>) -> Result<
    FreeFormTypeView,
    FreeFormDefinitionError,
> {
    if ps.len() == 0 {
        Err(FreeFormDefinitionError::InvalidParameters)
    } else if ps[0] == "u"@ {
        spec_parse_matrix_u(t, ps.drop_first())
    } else if ps[0] == "v"@ {
        spec_parse_matrix_v(t, ps.drop_first())
    } else {
        Err(FreeFormDefinitionError::InvalidKeyword)
    }
}

/// Effect of a `step` line: one scalar makes a curve step, two a surface
/// step.
pub open spec fn spec_parse_step(t: FreeFormTypeView, ps: Seq<Seq<char>>) -> Result<
    FreeFormTypeView,
    FreeFormDefinitionError,
> {
    match t {
        FreeFormTypeView::BasisMatrix(a) => match spec_convert_usizes(ps) {
            None => Err(FreeFormDefinitionError::InvalidParameters),
            Some(vs) => if vs.len() == 1 {
                Ok(
                    FreeFormTypeView::BasisMatrix(
                        BasisMatrixAttributesView {
                            step: UVPair::Curve(vs[0]),
                            matrix: a.matrix,
                        },
                    ),
                )
            } else if vs.len() == 2 {
                Ok(
                    FreeFormTypeView::BasisMatrix(
                        BasisMatrixAttributesView {
                            step: UVPair::Surface(vs[0], vs[1]),
                            matrix: a.matrix,
                        },
                    ),
                )
            } else {
                Err(FreeFormDefinitionError::InvalidBufferSize)
            },
        },
        _ => Err(FreeFormDefinitionError::InvalidFormType),
    }
}

/// The effect of one tagged line on the fold state.
pub open spec fn spec_line_effect(st: ParseState, line: ObjLineView) -> LineStep {
    match line.keyword {
        None => LineStep::Continue(st),
        Some(kw) => if kw == "cstype"@ {
            match spec_cstype(line.parameters) {
                Ok(tr) => LineStep::Continue(
                    ParseState { form_type: tr.0, degree: st.degree, rational: tr.1 },
                ),
                Err(e) => LineStep::Fail(e),
            }
        } else if kw == "deg"@ {
            match UVPair::spec_from(line.parameters) {
                Ok(d) => LineStep::Continue(
                    ParseState { form_type: st.form_type, degree: Some(d), rational: st.rational },
                ),
                Err(UVPairError::InvalidBufferSize) => LineStep::Fail(
                    FreeFormDefinitionError::InvalidBufferSize,
                ),
                Err(UVPairError::InvalidParameters) => LineStep::Fail(
                    FreeFormDefinitionError::InvalidParameters,
                ),
            }
        } else if kw == "bmat"@ {
            match st.form_type {
                None => LineStep::Fail(FreeFormDefinitionError::InvalidFormType),
                Some(t) => match spec_parse_matrix(t, line.parameters) {
                    Ok(t2) => LineStep::Continue(
                        ParseState {
                            form_type: Some(t2),
                            degree: st.degree,
                            rational: st.rational,
                        },
                    ),
                    Err(e) => LineStep::Fail(e),
                },
            }
        } else if kw == "step"@ {
            match st.form_type {
                None => LineStep::Fail(FreeFormDefinitionError::InvalidFormType),
                Some(t) => match spec_parse_step(t, line.parameters) {
                    Ok(t2) => LineStep::Continue(
                        ParseState {
                            form_type: Some(t2),
                            degree: st.degree,
                            rational: st.rational,
                        },
                    ),
                    Err(e) => LineStep::Fail(e),
                },
            }
        } else {
            LineStep::Stop
        },
    }
}

/// The record the fold emits, or the error for an incomplete definition.
pub open spec fn spec_finish(st: ParseState) -> Result<
    FreeFormDefinitionView,
    FreeFormDefinitionError,
> {
    match (st.form_type, st.degree) {
        (Some(t), Some(d)) => Ok(
            FreeFormDefinitionView {
                form_type: t,
                rational: match st.rational {
                    Some(b) => b,
                    None => false,
                },
                degree: d,
            },
        ),
        _ => Err(FreeFormDefinitionError::MalformedDefinition),
    }
}

/// The fold from line `i` on, starting in state `st`.
pub open spec fn spec_parse_lines(lines: Seq<ObjLineView>, i: int, st: ParseState) -> Result<
    FreeFormDefinitionView,
    FreeFormDefinitionError,
>
    decreases lines.len() - i,
{
    if i < 0 || i >= lines.len() {
        spec_finish(st)
    } else {
        match spec_line_effect(st, lines[i]) {
            LineStep::Continue(st2) => spec_parse_lines(lines, i + 1, st2),
            LineStep::Stop => spec_finish(st),
            LineStep::Fail(e) => Err(e),
        }
    }
}

/// The definition denoted by a line sequence.
pub open spec fn spec_parse(lines: Seq<ObjLineView>) -> Result<
    FreeFormDefinitionView,
    FreeFormDefinitionError,
> {
    spec_parse_lines(lines, 0, ParseState { form_type: None, degree: None, rational: None })
}

/// View of an exec parse result.
pub open spec fn spec_def_res_view(r: Result<FreeFormDefinition, FreeFormDefinitionError>) -> Result<
    FreeFormDefinitionView,
    FreeFormDefinitionError,
> {
    match r {
        Ok(d) => Ok(d@),
        Err(e) => Err(e),
    }
}

/// Every axis of the degree is exactly three.
pub open spec fn spec_cardinal_ok(degree: Degree) -> bool {
    match degree {
        UVPair::Curve(u) => u == 3,
        UVPair::Surface(u, v) => u == 3 && v == 3,
    }
}

/// The semantic validation rule for a complete definition.
pub open spec fn spec_def_validate(d: FreeFormDefinitionView) -> Result<
    (),
    FreeFormValidationExceptions,
> {
    if d.form_type is Cardinal && !spec_cardinal_ok(d.degree) {
        Err(FreeFormValidationExceptions::CardinalDegreeNotEqualToThree)
    } else {
        match d.form_type {
            FreeFormTypeView::BasisMatrix(a) => match spec_attrs_validate(a, d.degree) {
                Ok(_) => Ok(()),
                Err(BasisMatrixAttributesError::MatrixSizeMismatch) => Err(
                    FreeFormValidationExceptions::InvalidMatrixSize,
                ),
                Err(BasisMatrixAttributesError::FreeFormTypeMismatch) => Err(
                    FreeFormValidationExceptions::CurveSurfaceMismatch,
                ),
                Err(_) => Err(FreeFormValidationExceptions::UnknownException),
            },
            _ => Ok(()),
        }
    }
}

/// Law: replacing the U axis of a surface matrix preserves its V axis, and
/// replacing the V axis of a curve matrix yields a surface whose U axis is
/// the prior curve's.
pub proof fn lemma_axis_replacement_preserves_other_axis(
    a: BasisMatrixAttributesView,
    vals: Seq<Decimal>,
)
    ensures
        (a.matrix matches MatrixView::Surface(u, v) ==> spec_set_matrix_u(a, vals).matrix
            == MatrixView::Surface(vals, v)),
        (a.matrix matches MatrixView::Curve(u) ==> spec_set_matrix_v(a, vals).matrix
            == MatrixView::Surface(u, vals)),
        spec_set_matrix_u(a, vals).step == a.step,
        spec_set_matrix_v(a, vals).step == a.step,
{
}

/// Law: a cardinal definition validates exactly when every axis of its
/// degree equals three.
pub proof fn lemma_cardinal_validates_iff_degree_three(d: FreeFormDefinitionView)
    requires
        d.form_type is Cardinal,
    ensures
        spec_def_validate(d) is Ok <==> spec_cardinal_ok(d.degree),
        !spec_cardinal_ok(d.degree) ==> spec_def_validate(d) == Err::<
            (),
            FreeFormValidationExceptions,
        >(FreeFormValidationExceptions::CardinalDegreeNotEqualToThree),
{
}

impl FreeFormDefinition {
    /// Assembles a definition record directly.
    pub fn new(form_type: FreeFormType, rational: bool, degree: Degree) -> (r: FreeFormDefinition)
        ensures
            r@.form_type == form_type@,
            r@.rational == rational,
            r@.degree == degree,
    {
        FreeFormDefinition { form_type, rational, degree }
    }

    /// Folds tagged lines into a definition, stopping before the first line
    /// with a foreign keyword; see [`spec_parse`] for the exact transition
    /// table.
    pub fn parse(lines: &Vec<ObjLine>) -> (r: Result<FreeFormDefinition, FreeFormDefinitionError>)
        ensures
            spec_def_res_view(r) == spec_parse(lines.deep_view()),
    {
        let ghost full = lines.deep_view();
        let mut free_form_type: Option<FreeFormType> = None;
        let mut degree: Option<Degree> = None;
        let mut rational: Option<bool> = None;
        let mut i: usize = 0;
        loop
            invariant
                full == lines.deep_view(),
                full.len() == lines@.len(),
                i <= lines@.len(),
                spec_parse_lines(
                    full,
                    i as int,
                    ParseState {
                        form_type: opt_type_view(free_form_type),
                        degree,
                        rational,
                    },
                ) == spec_parse(full),
            ensures
                spec_finish(
                    ParseState {
                        form_type: opt_type_view(free_form_type),
                        degree,
                        rational,
                    },
                ) == spec_parse(full),
            decreases lines@.len() - i,
        {
            if i >= lines.len() {
                break ;
            }
            let line = &lines[i];
            proof {
                assert(full[i as int] == line.deep_view());
            }
            let mut stop = false;
            match &line.keyword {
                None => {},
                Some(kw) => {
                    if str_eq(kw.as_str(), "cstype") {
                        match FreeFormDefinition::parse_curve_surface_type(&line.parameters) {
                            Ok((t, rt)) => {
                                free_form_type = t;
                                rational = rt;
                            },
                            Err(e) => {
                                return Err(e);
                            },
                        }
                    } else if str_eq(kw.as_str(), "deg") {
                        match FreeFormDefinition::parse_degree(&line.parameters) {
                            Ok(d) => {
                                degree = d;
                            },
                            Err(e) => {
                                return Err(e);
                            },
                        }
                    } else if str_eq(kw.as_str(), "bmat") {
                        match free_form_type {
                            Some(form_type) => {
                                match FreeFormDefinition::parse_matrix(
                                    form_type,
                                    &line.parameters,
                                ) {
                                    Ok(t2) => {
                                        free_form_type = Some(t2);
                                    },
                                    Err(e) => {
                                        return Err(e);
                                    },
                                }
                            },
                            None => {
                                return Err(FreeFormDefinitionError::InvalidFormType);
                            },
                        }
                    } else if str_eq(kw.as_str(), "step") {
                        match free_form_type {
                            Some(form_type) => {
                                match FreeFormDefinition::parse_matrix_step(
                                    form_type,
                                    &line.parameters,
                                ) {
                                    Ok(t2) => {
                                        free_form_type = Some(t2);
                                    },
                                    Err(e) => {
                                        return Err(e);
                                    },
                                }
                            },
                            None => {
                                return Err(FreeFormDefinitionError::InvalidFormType);
                            },
                        }
                    } else {
                        stop = true;
                    }
                },
            }
            if stop {
                break ;
            }
            i = i + 1;
        }
        match (free_form_type, degree) {
            (Some(form_type), Some(deg)) => Ok(
                FreeFormDefinition {
                    form_type,
                    rational: match rational {
                        Some(b) => b,
                        None => false,
                    },
                    degree: deg,
                },
            ),
            _ => Err(FreeFormDefinitionError::MalformedDefinition),
        }
    }

    /// Checks the semantic rules: a cardinal degree must be three on every
    /// axis, and basis-matrix attributes must validate against the degree.
    pub fn validate(&self) -> (r: Result<(), FreeFormValidationExceptions>)
        ensures
            r == spec_def_validate(self@),
    {
        if let FreeFormType::Cardinal = &self.form_type {
            let degree_ok = match &self.degree {
                UVPair::Curve(u) => *u == 3,
                UVPair::Surface(u, v) => *u == 3 && *v == 3,
            };
            if !degree_ok {
                return Err(FreeFormValidationExceptions::CardinalDegreeNotEqualToThree);
            }
        }
        if let FreeFormType::BasisMatrix(attributes) = &self.form_type {
            match attributes.validate(&self.degree) {
                Ok(_) => Ok(()),
                Err(BasisMatrixAttributesError::MatrixSizeMismatch) => Err(
                    FreeFormValidationExceptions::InvalidMatrixSize,
                ),
                Err(BasisMatrixAttributesError::FreeFormTypeMismatch) => Err(
                    FreeFormValidationExceptions::CurveSurfaceMismatch,
                ),
                Err(_) => Err(FreeFormValidationExceptions::UnknownException),
            }
        } else {
            Ok(())
        }
    }

    /// Folds the tokens of a `cstype` line into a type and a rational flag.
    fn parse_curve_surface_type(parameters: &VecDeque<String>) -> (r: Result<
        (Option<FreeFormType>, Option<bool>),
        FreeFormDefinitionError,
    >)
        ensures
            match r {
                Ok(tr) => spec_cstype(parameters.deep_view()) == Ok::<
                    (Option<FreeFormTypeView>, Option<bool>),
                    FreeFormDefinitionError,
                >((opt_type_view(tr.0), tr.1)),
                Err(e) => spec_cstype(parameters.deep_view()) == Err::<
                    (Option<FreeFormTypeView>, Option<bool>),
                    FreeFormDefinitionError,
                >(e),
            },
    {
        let ghost full = parameters.deep_view();
        let mut free_form_type: Option<FreeFormType> = None;
        let mut rational: Option<bool> = None;
        let mut i: usize = 0;
        while i < parameters.len()
            invariant
                full == parameters.deep_view(),
                full.len() == parameters@.len(),
                i <= parameters@.len(),
                spec_cstype_fold(full, i as int, opt_type_view(free_form_type), rational)
                    == spec_cstype(full),
            decreases parameters@.len() - i,
        {
            proof {
                assert(full[i as int] == parameters@[i as int]@);
            }
            let parameter = &parameters[i];
            if str_eq(parameter.as_str(), "rat") {
                rational = Some(true);
            } else {
                match FreeFormType::from_str(parameter.as_str()) {
                    Ok(new_free_form_type) => {
                        free_form_type = Some(new_free_form_type);
                    },
                    Err(_) => {
                        return Err(FreeFormDefinitionError::InvalidParameters);
                    },
                }
            }
            i = i + 1;
        }
        Ok((free_form_type, rational))
    }

    /// Parses a `deg` line into a degree pair.
    fn parse_degree(parameters: &VecDeque<String>) -> (r: Result<
        Option<Degree>,
        FreeFormDefinitionError,
    >)
        ensures
            match UVPair::spec_from(parameters.deep_view()) {
                Ok(d) => r == Ok::<Option<Degree>, FreeFormDefinitionError>(Some(d)),
                Err(UVPairError::InvalidBufferSize) => r == Err::<
                    Option<Degree>,
                    FreeFormDefinitionError,
                >(FreeFormDefinitionError::InvalidBufferSize),
                Err(UVPairError::InvalidParameters) => r == Err::<
                    Option<Degree>,
                    FreeFormDefinitionError,
                >(FreeFormDefinitionError::InvalidParameters),
            },
    {
        match Degree::from(parameters) {
            Ok(value) => Ok(Some(value)),
            Err(UVPairError::InvalidBufferSize) => Err(FreeFormDefinitionError::InvalidBufferSize),
            Err(UVPairError::InvalidParameters) => Err(FreeFormDefinitionError::InvalidParameters),
        }
    }

    /// Dispatches a `bmat` line on its axis selector.
    fn parse_matrix(current_type: FreeFormType, parameters: &VecDeque<String>) -> (r: Result<
        FreeFormType,
        FreeFormDefinitionError,
    >)
        ensures
            match r {
                Ok(t2) => spec_parse_matrix(current_type@, parameters.deep_view()) == Ok::<
                    FreeFormTypeView,
                    FreeFormDefinitionError,
                >(t2@),
                Err(e) => spec_parse_matrix(current_type@, parameters.deep_view()) == Err::<
                    FreeFormTypeView,
                    FreeFormDefinitionError,
                >(e),
            },
    {
        let ghost full = parameters.deep_view();
        if parameters.len() == 0 {
            return Err(FreeFormDefinitionError::InvalidParameters);
        }
        proof {
            assert(full[0] == parameters@[0]@);
            assert(full.drop_first() =~= full.skip(1));
        }
        let matrix_axis = &parameters[0];
        if str_eq(matrix_axis.as_str(), "u") {
            FreeFormDefinition::parse_matrix_u(current_type, parameters)
        } else if str_eq(matrix_axis.as_str(), "v") {
            FreeFormDefinition::parse_matrix_v(current_type, parameters)
        } else {
            Err(FreeFormDefinitionError::InvalidKeyword)
        }
    }

    /// Replaces the U axis of the in-progress basis matrix from a
    /// `bmat u ...` line; the coefficient tokens are converted first.
    fn parse_matrix_u(current_type: FreeFormType, parameters: &VecDeque<String>) -> (r: Result<
        FreeFormType,
        FreeFormDefinitionError,
    >)
        requires
            parameters@.len() >= 1,
        ensures
            match r {
                Ok(t2) => spec_parse_matrix_u(
                    current_type@,
                    parameters.deep_view().skip(1),
                ) == Ok::<FreeFormTypeView, FreeFormDefinitionError>(t2@),
                Err(e) => spec_parse_matrix_u(
                    current_type@,
                    parameters.deep_view().skip(1),
                ) == Err::<FreeFormTypeView, FreeFormDefinitionError>(e),
            },
    {
        let converted_parameters = match convert_decimal_vec_from(parameters, 1) {
            Ok(value) => value,
            Err(_) => {
                return Err(FreeFormDefinitionError::InvalidParameters);
            },
        };
        match current_type {
            FreeFormType::BasisMatrix(mut attributes) => {
                attributes.set_matrix_u(converted_parameters.as_slice());
                Ok(FreeFormType::BasisMatrix(attributes))
            },
            _ => Err(FreeFormDefinitionError::InvalidFormType),
        }
    }

    /// Replaces (or, on a curve matrix, attaches) the V axis from a
    /// `bmat v ...` line; the type is checked before conversion.
    fn parse_matrix_v(current_type: FreeFormType, parameters: &VecDeque<String>) -> (r: Result<
        FreeFormType,
        FreeFormDefinitionError,
    >)
        requires
            parameters@.len() >= 1,
        ensures
            match r {
                Ok(t2) => spec_parse_matrix_v(
                    current_type@,
                    parameters.deep_view().skip(1),
                ) == Ok::<FreeFormTypeView, FreeFormDefinitionError>(t2@),
                Err(e) => spec_parse_matrix_v(
                    current_type@,
                    parameters.deep_view().skip(1),
                ) == Err::<FreeFormTypeView, FreeFormDefinitionError>(e),
            },
    {
        let mut attributes = match current_type {
            FreeFormType::BasisMatrix(attributes) => attributes,
            _ => {
                return Err(FreeFormDefinitionError::InvalidFormType);
            },
        };
        let converted_parameters = match convert_decimal_vec_from(parameters, 1) {
            Ok(value) => value,
            Err(_) => {
                return Err(FreeFormDefinitionError::InvalidParameters);
            },
        };
        attributes.set_matrix_v(converted_parameters.as_slice());
        Ok(FreeFormType::BasisMatrix(attributes))
    }

    /// Replaces the step of the in-progress basis matrix from a `step`
    /// line.
    fn parse_matrix_step(current_type: FreeFormType, parameters: &VecDeque<String>) -> (r: Result<
        FreeFormType,
        FreeFormDefinitionError,
    >)
        ensures
            match r {
                Ok(t2) => spec_parse_step(current_type@, parameters.deep_view()) == Ok::<
                    FreeFormTypeView,
                    FreeFormDefinitionError,
                >(t2@),
                Err(e) => spec_parse_step(current_type@, parameters.deep_view()) == Err::<
                    FreeFormTypeView,
                    FreeFormDefinitionError,
                >(e),
            },
    {
        let mut attributes = match current_type {
            FreeFormType::BasisMatrix(attributes) => attributes,
            _ => {
                return Err(FreeFormDefinitionError::InvalidFormType);
            },
        };
        let converted_parameters = match convert_vec(parameters) {
            Ok(value) => value,
            Err(_) => {
                return Err(FreeFormDefinitionError::InvalidParameters);
            },
        };
        match attributes.set_step(converted_parameters.as_slice()) {
            Ok(_) => Ok(FreeFormType::BasisMatrix(attributes)),
            Err(_) => Err(FreeFormDefinitionError::InvalidBufferSize),
        }
    }
}

impl Default for FreeFormDefinition {
    /// A non-rational Bezier curve of degree zero.
    fn default() -> (r: Self)
        ensures
            r@.form_type == FreeFormTypeView::Bezier,
            r@.rational == false,
            r@.degree == UVPair::Curve(0usize),
    {
        FreeFormDefinition {
            form_type: FreeFormType::default(),
            rational: false,
            degree: Degree::default(),
        }
    }
}

} // verus!
