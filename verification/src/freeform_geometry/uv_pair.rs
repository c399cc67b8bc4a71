//! `UVPair` — used for both polynomial degree and basis-matrix step.
//!
//! A curve carries one scalar (the `u` component); a surface carries two
//! (`u` and `v`).  The arity is fixed at construction and never changes.

use std::collections::VecDeque;
use vstd::prelude::*;

use crate::utility;
use crate::utility::{spec_convert_usizes, UtilityError};

verus! {

/// Failure while building a pair from parameter tokens.
#[derive(Clone, Copy, Debug, PartialEq, Eq, Structural)]
pub enum UVPairError {
    /// A token did not parse as an unsigned integer.
    InvalidParameters,
    /// There was no token, or more than two.
    InvalidBufferSize,
}

/// One scalar for a curve, a `(u, v)` pair for a surface.
#[derive(Clone, Copy, Debug, PartialEq, Eq, Structural)]
pub enum UVPair {
    Curve(usize),
    Surface(usize, usize),
}

impl UVPair {
    /// The `u` component, present in both variants.
    pub open spec fn spec_u(self) -> usize {
        match self {
            UVPair::Curve(value) => value,
            UVPair::Surface(value, _) => value,
        }
    }

    /// The `v` component, present only for surfaces.
    pub open spec fn spec_v(self) -> Option<usize> {
        match self {
            UVPair::Curve(_) => None,
            UVPair::Surface(_, value) => Some(value),
        }
    }

    /// The pair built from a buffer of already-converted scalars: exactly one
    /// scalar makes a curve, exactly two make a surface.
    pub open spec fn spec_new_curve(elements: Seq<usize>) -> Result<UVPair, UVPairError> {
        if elements.len() == 1 {
            Ok(UVPair::Curve(elements[0]))
        } else {
            Err(UVPairError::InvalidBufferSize)
        }
    }

    /// As [`UVPair::spec_new_curve`], for the surface arity.
    pub open spec fn spec_new_surface(elements: Seq<usize>) -> Result<UVPair, UVPairError> {
        if elements.len() == 2 {
            Ok(UVPair::Surface(elements[0], elements[1]))
        } else {
            Err(UVPairError::InvalidBufferSize)
        }
    }

    /// The pair denoted by a buffer of parameter tokens.
    pub open spec fn spec_from(ps: Seq<Seq<char>>) -> Result<UVPair, UVPairError> {
        match spec_convert_usizes(ps) {
            None => Err(UVPairError::InvalidParameters),
            Some(vs) => if vs.len() == 1 {
                Ok(UVPair::Curve(vs[0]))
            } else if vs.len() == 2 {
                Ok(UVPair::Surface(vs[0], vs[1]))
            } else {
                Err(UVPairError::InvalidBufferSize)
            },
        }
    }

    /// Wraps exactly one scalar as a curve pair.
    pub fn new_curve(elements: &[usize]) -> (r: Result<UVPair, UVPairError>)
        ensures
            r == UVPair::spec_new_curve(elements@),
    {
        if elements.len() != 1 {
            return Err(UVPairError::InvalidBufferSize);
        }
        Ok(UVPair::Curve(elements[0]))
    }

    /// Wraps exactly two scalars as a surface pair.
    pub fn new_surface(elements: &[usize]) -> (r: Result<UVPair, UVPairError>)
        ensures
            r == UVPair::spec_new_surface(elements@),
    {
        if elements.len() != 2 {
            return Err(UVPairError::InvalidBufferSize);
        }
        Ok(UVPair::Surface(elements[0], elements[1]))
    }

    /// Parses one or two unsigned integer tokens into a pair.
    pub fn from(parameters: &VecDeque<String>) -> (r: Result<UVPair, UVPairError>)
        ensures
            r == UVPair::spec_from(parameters.deep_view()),
    {
        let converted_parameters = match utility::convert_vec(parameters) {
            Ok(value) => value,
            Err(UtilityError::ConversionError) => {
                return Err(UVPairError::InvalidParameters);
            },
        };
        if converted_parameters.len() == 1 {
            Ok(UVPair::Curve(converted_parameters[0]))
        } else if converted_parameters.len() == 2 {
            Ok(UVPair::Surface(converted_parameters[0], converted_parameters[1]))
        } else {
            Err(UVPairError::InvalidBufferSize)
        }
    }

    /// The `u` component.
    pub fn u(&self) -> (r: &usize)
        ensures
            *r == self.spec_u(),
    {
        match self {
            Self::Curve(value) => value,
            Self::Surface(value, _) => value,
        }
    }

    /// The `v` component, absent for curves.
    pub fn v(&self) -> (r: Option<&usize>)
        ensures
            match r {
                Some(value) => self.spec_v() == Some(*value),
                None => self.spec_v() is None,
            },
    {
        match self {
            Self::Surface(_, value) => Some(value),
            _ => None,
        }
    }

    /// True for the one-scalar variant.
    pub fn is_curve(&self) -> (r: bool)
        ensures
            r == (self is Curve),
    {
        match self {
            Self::Curve(_) => true,
            _ => false,
        }
    }

    /// True for the two-scalar variant.
    pub fn is_surface(&self) -> (r: bool)
        ensures
            r == (self is Surface),
    {
        match self {
            Self::Surface(_, _) => true,
            _ => false,
        }
    }
}

impl Default for UVPair {
    /// A curve of degree (or step) zero.
    fn default() -> (r: Self)
        ensures
            r == UVPair::Curve(0usize),
    {
        UVPair::Curve(0)
    }
}

} // verus!
