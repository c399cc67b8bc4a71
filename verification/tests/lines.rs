use obj_parser::{
    validate_approximation_techniques, validate_basis_axis, validate_curve,
    validate_display_render_attributes, validate_keyword, ObjLine,
};

fn line(text: &str) -> ObjLine {
    ObjLine::from(&String::from(text))
}

fn params(l: &ObjLine) -> Vec<String> {
    l.parameters.iter().cloned().collect()
}

#[test]
fn line_splits_into_keyword_and_parameters() {
    let l = line("v 1.0 2.0 3.0");
    assert_eq!(l.keyword.as_deref(), Some("v"));
    assert_eq!(params(&l), vec!["1.0", "2.0", "3.0"]);
    assert_eq!(l.comment, None);
}

#[test]
fn line_comment_is_split_off() {
    let l = line("f 1 2 3 # a triangle\n");
    assert_eq!(l.keyword.as_deref(), Some("f"));
    assert_eq!(params(&l), vec!["1", "2", "3"]);
    assert_eq!(l.comment.as_deref(), Some(" a triangle"));
}

#[test]
fn line_with_only_comment_has_no_keyword() {
    let l = line("# header only");
    assert_eq!(l.keyword, None);
    assert!(l.parameters.is_empty());
    assert_eq!(l.comment.as_deref(), Some(" header only"));
}

#[test]
fn line_with_trailing_hash_has_no_comment() {
    let l = line("g group #   \n");
    assert_eq!(l.keyword.as_deref(), Some("g"));
    assert_eq!(params(&l), vec!["group"]);
    assert_eq!(l.comment, None);
}

#[test]
fn blank_line_is_empty() {
    let l = line("   \t  \n");
    assert_eq!(l.keyword, None);
    assert!(l.parameters.is_empty());
    assert_eq!(l.comment, None);
}

#[test]
fn repeated_whitespace_separates_tokens_once() {
    let l = line("deg   3\t3");
    assert_eq!(l.keyword.as_deref(), Some("deg"));
    assert_eq!(params(&l), vec!["3", "3"]);
}

#[test]
fn keyword_tables() {
    assert!(validate_keyword("v"));
    assert!(validate_keyword("cstype"));
    assert!(validate_keyword("bmat"));
    assert!(!validate_keyword("vertex"));
    assert!(!validate_keyword(""));

    assert!(validate_curve("bmatrix"));
    assert!(validate_curve("taylor"));
    assert!(!validate_curve("nurbs"));

    assert!(validate_basis_axis("u"));
    assert!(validate_basis_axis("v"));
    assert!(!validate_basis_axis("w"));

    assert!(validate_approximation_techniques("cparm"));
    assert!(validate_approximation_techniques("curv"));
    assert!(!validate_approximation_techniques("bmat"));

    assert!(validate_display_render_attributes("bevel"));
    assert!(validate_display_render_attributes("usemtl"));
    assert!(!validate_display_render_attributes("deg"));
}
