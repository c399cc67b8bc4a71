//! Plain vertex-data records: geometric vertices, parameter-space vertices,
//! normals and texture coordinates, each parsed from a line's parameter
//! tokens.

use std::collections::VecDeque;
use vstd::prelude::*;

use crate::decimal::{spec_from_int, Decimal};
use crate::utility::{convert_decimal_vec, spec_convert_decimals};

verus! {

/// A geometric vertex; `w` defaults to one when only three tokens appear.
#[derive(Debug, Clone, Copy, PartialEq, Eq, Structural)]
pub struct Vertex {
    pub x: Decimal,
    pub y: Decimal,
    pub z: Decimal,
    pub w: Decimal,
}

/// A parameter-space vertex.
#[derive(Debug, Clone, Copy, PartialEq, Eq, Structural)]
pub struct ParameterSpaceVertex {
    pub u: Decimal,
    pub v: Decimal,
    pub w: Decimal,
}

/// A vertex normal.
#[derive(Debug, Clone, Copy, PartialEq, Eq, Structural)]
pub struct VertexNormal {
    pub i: Decimal,
    pub j: Decimal,
    pub k: Decimal,
}

/// A texture coordinate triple.
#[derive(Debug, Clone, Copy, PartialEq, Eq, Structural)]
pub struct TextureCoordinates {
    pub u: Decimal,
    pub v: Decimal,
    pub w: Decimal,
}

/// The vertex denoted by a parameter list: three tokens with an implied
/// weight of one, or four tokens; anything else, or a token that fails to
/// parse, is `None`.
pub open spec fn spec_vertex_from(ps: Seq<Seq<char>>) -> Option<Vertex> {
    match spec_convert_decimals(ps) {
        None => None,
        Some(vs) => if vs.len() == 3 {
            Some(Vertex { x: vs[0], y: vs[1], z: vs[2], w: spec_from_int(1) })
        } else if vs.len() == 4 {
            Some(Vertex { x: vs[0], y: vs[1], z: vs[2], w: vs[3] })
        } else {
            None
        },
    }
}

/// The first three values of a parameter list of at least three tokens, all
/// of which must parse.
pub open spec fn spec_triple_from(ps: Seq<Seq<char>>) -> Option<(Decimal, Decimal, Decimal)> {
    if ps.len() < 3 {
        None
    } else {
        match spec_convert_decimals(ps) {
            None => None,
            Some(vs) => Some((vs[0], vs[1], vs[2])),
        }
    }
}

impl Vertex {
    /// A vertex with every component zero.
    pub fn new() -> (r: Vertex)
        ensures
            r.x == Decimal::spec_zero(),
            r.y == Decimal::spec_zero(),
            r.z == Decimal::spec_zero(),
            r.w == Decimal::spec_zero(),
    {
        Vertex {
            x: Decimal::zero(),
            y: Decimal::zero(),
            z: Decimal::zero(),
            w: Decimal::zero(),
        }
    }

    /// Parses three or four coordinate tokens; with three, the weight
    /// defaults to one.
    pub fn from(elements: &VecDeque<String>) -> (r: Option<Vertex>)
        ensures
            r == spec_vertex_from(elements.deep_view()),
    {
        let converted_elements = match convert_decimal_vec(elements) {
            Ok(value) => value,
            Err(_) => {
                return None;
            },
        };
        if converted_elements.len() == 3 {
            Some(
                Vertex {
                    x: converted_elements[0],
                    y: converted_elements[1],
                    z: converted_elements[2],
                    w: Decimal::from_int(1),
                },
            )
        } else if converted_elements.len() == 4 {
            Some(
                Vertex {
                    x: converted_elements[0],
                    y: converted_elements[1],
                    z: converted_elements[2],
                    w: converted_elements[3],
                },
            )
        } else {
            None
        }
    }
}

impl ParameterSpaceVertex {
    /// A parameter-space vertex with every component zero.
    pub fn new() -> (r: ParameterSpaceVertex)
        ensures
            r.u == Decimal::spec_zero(),
            r.v == Decimal::spec_zero(),
            r.w == Decimal::spec_zero(),
    {
        ParameterSpaceVertex { u: Decimal::zero(), v: Decimal::zero(), w: Decimal::zero() }
    }

    /// Parses at least three coordinate tokens, taking the first three.
    pub fn from(elements: &VecDeque<String>) -> (r: Option<ParameterSpaceVertex>)
        ensures
            match spec_triple_from(elements.deep_view()) {
                Some(t) => r == Some(ParameterSpaceVertex { u: t.0, v: t.1, w: t.2 }),
                None => r is None,
            },
    {
        if elements.len() < 3 {
            return None;
        }
        let converted_elements = match convert_decimal_vec(elements) {
            Ok(value) => value,
            Err(_) => {
                return None;
            },
        };
        Some(
            ParameterSpaceVertex {
                u: converted_elements[0],
                v: converted_elements[1],
                w: converted_elements[2],
            },
        )
    }
}

impl VertexNormal {
    /// A normal with every component zero.
    pub fn new() -> (r: VertexNormal)
        ensures
            r.i == Decimal::spec_zero(),
            r.j == Decimal::spec_zero(),
            r.k == Decimal::spec_zero(),
    {
        VertexNormal { i: Decimal::zero(), j: Decimal::zero(), k: Decimal::zero() }
    }

    /// Parses at least three component tokens, taking the first three.
    pub fn from(elements: &VecDeque<String>) -> (r: Option<VertexNormal>)
        ensures
            match spec_triple_from(elements.deep_view()) {
                Some(t) => r == Some(VertexNormal { i: t.0, j: t.1, k: t.2 }),
                None => r is None,
            },
    {
        if elements.len() < 3 {
            return None;
        }
        let converted_elements = match convert_decimal_vec(elements) {
            Ok(value) => value,
            Err(_) => {
                return None;
            },
        };
        Some(
            VertexNormal {
                i: converted_elements[0],
                j: converted_elements[1],
                k: converted_elements[2],
            },
        )
    }
}

impl TextureCoordinates {
    /// A texture coordinate with every component zero.
    pub fn new() -> (r: TextureCoordinates)
        ensures
            r.u == Decimal::spec_zero(),
            r.v == Decimal::spec_zero(),
            r.w == Decimal::spec_zero(),
    {
        TextureCoordinates { u: Decimal::zero(), v: Decimal::zero(), w: Decimal::zero() }
    }

    /// Parses at least three coordinate tokens, taking the first three.
    pub fn from(elements: &VecDeque<String>) -> (r: Option<TextureCoordinates>)
        ensures
            match spec_triple_from(elements.deep_view()) {
                Some(t) => r == Some(TextureCoordinates { u: t.0, v: t.1, w: t.2 }),
                None => r is None,
            },
    {
        if elements.len() < 3 {
            return None;
        }
        let converted_elements = match convert_decimal_vec(elements) {
            Ok(value) => value,
            Err(_) => {
                return None;
            },
        };
        Some(
            TextureCoordinates {
                u: converted_elements[0],
                v: converted_elements[1],
                w: converted_elements[2],
            },
        )
    }
}

} // verus!
