//! 1-based buffer indices.
//!
//! OBJ element indices start at 1 instead of 0; negative indices are
//! relative to the end of the buffer and positive indices are absolute.
//! Zero is the one value an index can never hold.

use vstd::prelude::*;

verus! {

/// Rejection of the one invalid index value.
#[derive(Clone, Copy, Debug, PartialEq, Eq, Structural)]
pub enum IndexError {
    /// Negative indices are relative and positive indices are absolute, so
    /// zero denotes nothing.
    IndexIsZero,
}

/// A non-zero, 1-based (or negative, end-relative) buffer index.
#[derive(Clone, Copy, Debug, PartialEq, Eq, Structural)]
pub struct Index(isize);

impl Index {
    /// The raw non-zero value this index was built from.
    pub closed spec fn spec_value(self) -> int {
        self.0 as int
    }

    #[verifier::type_invariant]
    spec fn type_inv(self) -> bool {
        self.0 != 0
    }

    /// Wraps a raw index value; zero is rejected.
    pub fn new(value: isize) -> (r: Result<Index, IndexError>)
        ensures
            value == 0 ==> r == Result::<Index, IndexError>::Err(IndexError::IndexIsZero),
            value != 0 ==> (r matches Ok(ix) && ix.spec_value() == value),
    {
        if value == 0 {
            return Err(IndexError::IndexIsZero);
        }
        Ok(Index(value))
    }

    /// Resolves to an offset: absolute indices become 0-based, negative
    /// indices stay relative to the end of the buffer.
    pub fn as_isize(&self) -> (r: isize)
        ensures
            self.spec_value() != 0,
            r as int == if self.spec_value() > 0 {
                self.spec_value() - 1
            } else {
                self.spec_value()
            },
    {
        proof {
            use_type_invariant(self);
        }
        if self.0 > 0 {
            self.0 - 1
        } else {
            self.0
        }
    }
}

impl Default for Index {
    /// The first absolute index.
    fn default() -> (r: Self)
        ensures
            r.spec_value() == 1,
    {
        Index(1)
    }
}

} // verus!
