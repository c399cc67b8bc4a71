//! OBJ file keyword compliance checks, following the format's published
//! keyword tables.

use vstd::prelude::*;

use crate::utility::str_eq;

verus! {

/// `s` is one of the format's recognised line keywords or sub-tokens.
pub open spec fn spec_valid_keyword(s: Seq<char>) -> bool {
    s == "v"@ ||
    s == "vt"@ ||
    s == "vn"@ ||
    s == "vp"@ ||
    s == "cstype"@ ||
    s == "deg"@ ||
    s == "bmat"@ ||
    s == "step"@ ||
    s == "p"@ ||
    s == "l"@ ||
    s == "f"@ ||
    s == "curv"@ ||
    s == "curv2"@ ||
    s == "surf"@ ||
    s == "parm"@ ||
    s == "trim"@ ||
    s == "hole"@ ||
    s == "scrv"@ ||
    s == "sp"@ ||
    s == "end"@ ||
    s == "con"@ ||
    s == "g"@ ||
    s == "s"@ ||
    s == "mg"@ ||
    s == "o"@ ||
    s == "bevel"@ ||
    s == "c_interp"@ ||
    s == "d_interp"@ ||
    s == "lod"@ ||
    s == "usemtl"@ ||
    s == "mtllib"@ ||
    s == "shadow_obj"@ ||
    s == "trace_obj"@ ||
    s == "ctech"@ ||
    s == "stech"@ ||
    s == "cparm"@ ||
    s == "cspace"@ ||
    s == "cparma"@ ||
    s == "cparmb"@ ||
    s == "rat"@ ||
    s == "bmatrix"@ ||
    s == "bezier"@ ||
    s == "bspline"@ ||
    s == "cardinal"@ ||
    s == "taylor"@ ||
    s == "u"@
}

/// `s` names one of the supported free-form curve/surface types.
pub open spec fn spec_valid_curve(s: Seq<char>) -> bool {
    s == "bmatrix"@ ||
    s == "bezier"@ ||
    s == "bspline"@ ||
    s == "cardinal"@ ||
    s == "taylor"@
}

/// `s` selects a basis-matrix axis.
pub open spec fn spec_valid_basis_axis(s: Seq<char>) -> bool {
    s == "u"@ ||
    s == "v"@
}

/// `s` names a free-form approximation technique.
pub open spec fn spec_valid_approximation_technique(s: Seq<char>) -> bool {
    s == "cparm"@ ||
    s == "cspace"@ ||
    s == "curv"@ ||
    s == "cparma"@ ||
    s == "cparmb"@
}

/// `s` names a display or render attribute.
pub open spec fn spec_valid_display_render_attribute(s: Seq<char>) -> bool {
    s == "bevel"@ ||
    s == "c_interp"@ ||
    s == "d_interp"@ ||
    s == "lod"@ ||
    s == "maplib"@ ||
    s == "usemap"@ ||
    s == "usemtl"@ ||
    s == "mtllib"@ ||
    s == "shadow_obj"@ ||
    s == "trace_obj"@ ||
    s == "ctech"@ ||
    s == "stech"@
}

/// Checks `keyword` against the format's full keyword table.
pub fn validate_keyword(keyword: &str) -> (r: bool)
    ensures
        r == spec_valid_keyword(keyword@),
{
    str_eq(keyword, "v")
        || str_eq(keyword, "vt")
        || str_eq(keyword, "vn")
        || str_eq(keyword, "vp")
        || str_eq(keyword, "cstype")
        || str_eq(keyword, "deg")
        || str_eq(keyword, "bmat")
        || str_eq(keyword, "step")
        || str_eq(keyword, "p")
        || str_eq(keyword, "l")
        || str_eq(keyword, "f")
        || str_eq(keyword, "curv")
        || str_eq(keyword, "curv2")
        || str_eq(keyword, "surf")
        || str_eq(keyword, "parm")
        || str_eq(keyword, "trim")
        || str_eq(keyword, "hole")
        || str_eq(keyword, "scrv")
        || str_eq(keyword, "sp")
        || str_eq(keyword, "end")
        || str_eq(keyword, "con")
        || str_eq(keyword, "g")
        || str_eq(keyword, "s")
        || str_eq(keyword, "mg")
        || str_eq(keyword, "o")
        || str_eq(keyword, "bevel")
        || str_eq(keyword, "c_interp")
        || str_eq(keyword, "d_interp")
        || str_eq(keyword, "lod")
        || str_eq(keyword, "usemtl")
        || str_eq(keyword, "mtllib")
        || str_eq(keyword, "shadow_obj")
        || str_eq(keyword, "trace_obj")
        || str_eq(keyword, "ctech")
        || str_eq(keyword, "stech")
        || str_eq(keyword, "cparm")
        || str_eq(keyword, "cspace")
        || str_eq(keyword, "cparma")
        || str_eq(keyword, "cparmb")
        || str_eq(keyword, "rat")
        || str_eq(keyword, "bmatrix")
        || str_eq(keyword, "bezier")
        || str_eq(keyword, "bspline")
        || str_eq(keyword, "cardinal")
        || str_eq(keyword, "taylor")
        || str_eq(keyword, "u")
}

/// Checks `keyword` against the supported curve/surface type tokens.
pub fn validate_curve(keyword: &str) -> (r: bool)
    ensures
        r == spec_valid_curve(keyword@),
{
    str_eq(keyword, "bmatrix")
        || str_eq(keyword, "bezier")
        || str_eq(keyword, "bspline")
        || str_eq(keyword, "cardinal")
        || str_eq(keyword, "taylor")
}

/// Checks `keyword` against the basis-matrix axis selectors.
pub fn validate_basis_axis(keyword: &str) -> (r: bool)
    ensures
        r == spec_valid_basis_axis(keyword@),
{
    str_eq(keyword, "u")
        || str_eq(keyword, "v")
}

/// Checks `keyword` against the free-form approximation techniques.
pub fn validate_approximation_techniques(keyword: &str) -> (r: bool)
    ensures
        r == spec_valid_approximation_technique(keyword@),
{
    str_eq(keyword, "cparm")
        || str_eq(keyword, "cspace")
        || str_eq(keyword, "curv")
        || str_eq(keyword, "cparma")
        || str_eq(keyword, "cparmb")
}

/// Checks `keyword` against the display and render attributes.
pub fn validate_display_render_attributes(keyword: &str) -> (r: bool)
    ensures
        r == spec_valid_display_render_attribute(keyword@),
{
    str_eq(keyword, "bevel")
        || str_eq(keyword, "c_interp")
        || str_eq(keyword, "d_interp")
        || str_eq(keyword, "lod")
        || str_eq(keyword, "maplib")
        || str_eq(keyword, "usemap")
        || str_eq(keyword, "usemtl")
        || str_eq(keyword, "mtllib")
        || str_eq(keyword, "shadow_obj")
        || str_eq(keyword, "trace_obj")
        || str_eq(keyword, "ctech")
        || str_eq(keyword, "stech")
}

} // verus!
