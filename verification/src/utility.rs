//! Token conversion helpers: string comparison and parsing whole lists of
//! numeric parameter tokens.

use std::collections::VecDeque;
use vstd::prelude::*;

use crate::decimal::{
    digit_run, digits_val, lemma_digit_run_le_len, scan_digits, spec_parse_decimal, Decimal,
};

verus! {

/// Failure of a whole-buffer numeric conversion.
#[derive(Clone, Copy, Debug, PartialEq, Eq, Structural)]
pub enum UtilityError {
    /// Some token of the buffer does not parse as the requested number type.
    ConversionError,
}

/// Character-wise string equality.
pub fn str_eq(a: &str, b: &str) -> (r: bool)
    ensures
        r == (a@ == b@),
{
    let na = a.unicode_len();
    let nb = b.unicode_len();
    if na != nb {
        return false;
    }
    let mut i: usize = 0;
    while i < na
        invariant
            na == a@.len(),
            nb == b@.len(),
            na == nb,
            i <= na,
            forall|j: int| 0 <= j < i ==> a@[j] == b@[j],
        decreases na - i,
    {
        let ca = a.get_char(i);
        let cb = b.get_char(i);
        if ca != cb {
            return false;
        }
        i = i + 1;
    }
    proof {
        assert(a@ =~= b@);
    }
    true
}

/// The unsigned integer denoted by token `s`: an optional leading `+`, then
/// one or more digits denoting a value that fits in `usize`; anything else is
/// `None`.
pub open spec fn spec_parse_usize(s: Seq<char>) -> Option<usize> {
    let sl: int = if s.len() > 0 && s[0] == '+' {
        1
    } else {
        0
    };
    let k = digit_run(s.skip(sl));
    if k == 0 || sl + k != s.len() {
        None
    } else {
        let v = digits_val(s.subrange(sl, s.len() as int));
        if v > usize::MAX as int {
            None
        } else {
            Some(v as usize)
        }
    }
}

/// Parses an unsigned integer token; `None` exactly when the token does not
/// match the grammar or its value does not fit in `usize`.
pub fn parse_usize(s: &str) -> (r: Option<usize>)
    ensures
        r == spec_parse_usize(s@),
{
    let ghost view = s@;
    let n = s.unicode_len();
    let mut i: usize = 0;
    if 0 < n {
        let c = s.get_char(0);
        if c == '+' {
            i = 1;
        }
    }
    let ghost sl = i as int;
    assert(sl == if view.len() > 0 && view[0] == '+' {
        1int
    } else {
        0int
    });
    let (ip, acc) = scan_digits(s, i, n, 0, Ghost(Seq::<char>::empty()));
    proof {
        lemma_digit_run_le_len(view.skip(sl));
        let run = digit_run(view.skip(sl));
        assert(Seq::<char>::empty() + view.subrange(sl, sl + run) =~= view.subrange(sl, sl + run));
    }
    let v = match acc {
        Some(v) => v,
        None => {
            proof {
                let run = digit_run(view.skip(sl));
                if run != 0 && sl + run == view.len() {
                    assert(view.subrange(sl, sl + run) == view.subrange(sl, view.len() as int));
                    assert(usize::MAX as int <= u64::MAX as int);
                }
            }
            return None;
        },
    };
    if ip == i {
        return None;
    }
    if ip != n {
        return None;
    }
    proof {
        assert(view.subrange(sl, ip as int) == view.subrange(sl, view.len() as int));
    }
    if v > usize::MAX as u64 {
        return None;
    }
    Some(v as usize)
}

/// The values of a whole buffer of unsigned integer tokens, or `None` when
/// any token fails to parse.
pub open spec fn spec_convert_usizes(ps: Seq<Seq<char>>) -> Option<Seq<usize>> {
    if forall|i: int| 0 <= i < ps.len() ==> spec_parse_usize(#[trigger] ps[i]) is Some {
        Some(Seq::new(ps.len(), |i: int| spec_parse_usize(ps[i]).unwrap()))
    } else {
        None
    }
}

/// The values of a whole buffer of decimal tokens, or `None` when any token
/// fails to parse.
pub open spec fn spec_convert_decimals(ps: Seq<Seq<char>>) -> Option<Seq<Decimal>> {
    if forall|i: int| 0 <= i < ps.len() ==> spec_parse_decimal(#[trigger] ps[i]) is Some {
        Some(Seq::new(ps.len(), |i: int| spec_parse_decimal(ps[i]).unwrap()))
    } else {
        None
    }
}

/// Converts every token of `buffer` to an unsigned integer; any token that
/// fails to parse fails the whole conversion.
pub fn convert_vec(buffer: &VecDeque<String>) -> (r: Result<Vec<usize>, UtilityError>)
    ensures
        (r matches Ok(v) ==> spec_convert_usizes(buffer.deep_view()) == Some(v@)),
        r is Err ==> r == Result::<Vec<usize>, UtilityError>::Err(UtilityError::ConversionError)
            && spec_convert_usizes(buffer.deep_view()) is None,
{
    let r = convert_vec_from(buffer, 0);
    proof {
        assert(buffer.deep_view().skip(0) =~= buffer.deep_view());
    }
    r
}

/// As [`convert_vec`], starting at token `start`.
pub(crate) fn convert_vec_from(buffer: &VecDeque<String>, start: usize) -> (r: Result<
    Vec<usize>,
    UtilityError,
>)
    requires
        start <= buffer@.len(),
    ensures
        (r matches Ok(v) ==> spec_convert_usizes(buffer.deep_view().skip(start as int)) == Some(
            v@,
        )),
        r is Err ==> r == Result::<Vec<usize>, UtilityError>::Err(UtilityError::ConversionError)
            && spec_convert_usizes(buffer.deep_view().skip(start as int)) is None,
{
    let ghost full = buffer.deep_view().skip(start as int);
    let mut out: Vec<usize> = Vec::new();
    let mut i: usize = start;
    while i < buffer.len()
        invariant
            full == buffer.deep_view().skip(start as int),
            start <= i <= buffer.len(),
            full.len() == buffer.len() - start,
            out@.len() == i - start,
            forall|j: int|
                0 <= j < i - start ==> spec_parse_usize(#[trigger] full[j]) is Some && out@[j]
                    == spec_parse_usize(full[j]).unwrap(),
        decreases buffer.len() - i,
    {
        proof {
            assert(full[i - start] == buffer@[i as int]@);
        }
        match parse_usize(buffer[i].as_str()) {
            Some(v) => {
                out.push(v);
            },
            None => {
                return Err(UtilityError::ConversionError);
            },
        }
        i = i + 1;
    }
    proof {
        assert(out@ =~= Seq::new(full.len(), |j: int| spec_parse_usize(full[j]).unwrap()));
    }
    Ok(out)
}

/// Converts every token of `buffer` to a decimal; any token that fails to
/// parse fails the whole conversion.
pub fn convert_decimal_vec(buffer: &VecDeque<String>) -> (r: Result<Vec<Decimal>, UtilityError>)
    ensures
        (r matches Ok(v) ==> spec_convert_decimals(buffer.deep_view()) == Some(v@)),
        r is Err ==> r == Result::<Vec<Decimal>, UtilityError>::Err(UtilityError::ConversionError)
            && spec_convert_decimals(buffer.deep_view()) is None,
{
    let r = convert_decimal_vec_from(buffer, 0);
    proof {
        assert(buffer.deep_view().skip(0) =~= buffer.deep_view());
    }
    r
}

/// As [`convert_decimal_vec`], starting at token `start`.
pub(crate) fn convert_decimal_vec_from(buffer: &VecDeque<String>, start: usize) -> (r: Result<
    Vec<Decimal>,
    UtilityError,
>)
    requires
        start <= buffer@.len(),
    ensures
        (r matches Ok(v) ==> spec_convert_decimals(buffer.deep_view().skip(start as int)) == Some(
            v@,
        )),
        r is Err ==> r == Result::<Vec<Decimal>, UtilityError>::Err(
            UtilityError::ConversionError,
        ) && spec_convert_decimals(buffer.deep_view().skip(start as int)) is None,
{
    let ghost full = buffer.deep_view().skip(start as int);
    let mut out: Vec<Decimal> = Vec::new();
    let mut i: usize = start;
    while i < buffer.len()
        invariant
            full == buffer.deep_view().skip(start as int),
            start <= i <= buffer.len(),
            full.len() == buffer.len() - start,
            out@.len() == i - start,
            forall|j: int|
                0 <= j < i - start ==> spec_parse_decimal(#[trigger] full[j]) is Some && out@[j]
                    == spec_parse_decimal(full[j]).unwrap(),
        decreases buffer.len() - i,
    {
        proof {
            assert(full[i - start] == buffer@[i as int]@);
        }
        match Decimal::parse(buffer[i].as_str()) {
            Some(v) => {
                out.push(v);
            },
            None => {
                return Err(UtilityError::ConversionError);
            },
        }
        i = i + 1;
    }
    proof {
        assert(out@ =~= Seq::new(full.len(), |j: int| spec_parse_decimal(full[j]).unwrap()));
    }
    Ok(out)
}

} // verus!
