//! Exact decimal scalars.
//!
//! Matrix coefficients and vertex coordinates in the OBJ text format are
//! written as decimal literals.  The validation rules of this crate never do
//! arithmetic on those values, so they are carried exactly, as a sign, a
//! base-10 mantissa and a base-10 exponent, kept in canonical form: the
//! mantissa of a non-zero value has no trailing zero digit, and zero is
//! always `(neg: false, mantissa: 0, exponent: 0)`.  Two tokens denoting the
//! same number therefore parse to structurally equal values.

use vstd::prelude::*;

verus! {

/// An exact decimal number: `(-1 if neg else 1) * mantissa * 10^exponent`.
///
/// Values produced by [`Decimal::parse`] and [`Decimal::from_int`] are in
/// canonical form, so `==` on them coincides with numeric equality.
#[derive(Clone, Copy, Debug, PartialEq, Eq, Structural)]
pub struct Decimal {
    /// True for strictly negative values.
    pub neg: bool,
    /// Magnitude digits; no trailing zero digit unless the value is zero.
    pub mantissa: u64,
    /// Base-10 exponent applied to the mantissa.
    pub exponent: i32,
}

/// The pieces of a decimal token, before range policy and canonicalisation:
/// sign, mantissa digits (integer and fractional part concatenated), the
/// exponent sign and digits, and the number of fractional digits.
pub ghost struct DecimalParts {
    pub neg: bool,
    pub mantissa: int,
    pub exp_neg: bool,
    pub exp_mag: int,
    pub frac_len: int,
}

/// `c` is an ASCII decimal digit.
pub open spec fn is_digit(c: char) -> bool {
    48 <= c as int && c as int <= 57
}

/// Numeric value of a digit character.
pub open spec fn digit_val(c: char) -> int {
    c as int - 48
}

/// All characters of `s` are ASCII decimal digits.
pub open spec fn all_digits(s: Seq<char>) -> bool {
    forall|i: int| 0 <= i < s.len() ==> is_digit(#[trigger] s[i])
}

/// The number denoted by a sequence of digit characters, most significant
/// first.
pub open spec fn digits_val(s: Seq<char>) -> int
    decreases s.len(),
{
    if s.len() == 0 {
        0
    } else {
        digits_val(s.drop_last()) * 10 + digit_val(s.last())
    }
}

/// Length of the maximal digit prefix of `s`.
pub open spec fn digit_run(s: Seq<char>) -> int
    decreases s.len(),
{
    if s.len() == 0 {
        0
    } else if !is_digit(s[0]) {
        0
    } else {
        1 + digit_run(s.drop_first())
    }
}

/// Grammar of a decimal token: an optional sign, digits with an optional
/// fractional part (at least one digit overall), and an optional exponent
/// part `e`/`E` with an optional sign and at least one digit.  Returns the
/// parts, or `None` when `s` does not match.
pub open spec fn spec_decimal_parts(s: Seq<char>) -> Option<DecimalParts> {
    let sl: int = if s.len() > 0 && (s[0] == '+' || s[0] == '-') {
        1
    } else {
        0
    };
    let neg = s.len() > 0 && s[0] == '-';
    let k1 = digit_run(s.skip(sl));
    let p1 = sl + k1;
    let has_frac = p1 < s.len() && s[p1] == '.';
    let k2: int = if has_frac {
        digit_run(s.skip(p1 + 1))
    } else {
        0
    };
    let p2: int = if has_frac {
        p1 + 1 + k2
    } else {
        p1
    };
    let mant_digits = s.subrange(sl, p1) + (if has_frac {
        s.subrange(p1 + 1, p2)
    } else {
        Seq::<char>::empty()
    });
    if k1 + k2 == 0 {
        None
    } else if p2 == s.len() {
        Some(
            DecimalParts {
                neg,
                mantissa: digits_val(mant_digits),
                exp_neg: false,
                exp_mag: 0,
                frac_len: k2,
            },
        )
    } else if s[p2] == 'e' || s[p2] == 'E' {
        let p3 = p2 + 1;
        let esl: int = if p3 < s.len() && (s[p3] == '+' || s[p3] == '-') {
            1
        } else {
            0
        };
        let eneg = p3 < s.len() && s[p3] == '-';
        let k3 = digit_run(s.skip(p3 + esl));
        if k3 == 0 || p3 + esl + k3 != s.len() {
            None
        } else {
            Some(
                DecimalParts {
                    neg,
                    mantissa: digits_val(mant_digits),
                    exp_neg: eneg,
                    exp_mag: digits_val(s.subrange(p3 + esl, s.len() as int)),
                    frac_len: k2,
                },
            )
        }
    } else {
        None
    }
}

/// Canonical form of `mantissa * 10^exponent`: trailing zero digits are moved
/// into the exponent, and zero is `(0, 0)`.
pub open spec fn spec_normalize(m: int, e: int) -> (int, int)
    decreases m,
{
    if m <= 0 {
        (0int, 0int)
    } else if m % 10 == 0 {
        spec_normalize(m / 10, e + 1)
    } else {
        (m, e)
    }
}

/// The decimal denoted by token `s`, in canonical form, or `None` when `s`
/// does not match the grammar or exceeds the ranges this crate carries: the
/// mantissa digits and the exponent digits must each fit in `u64`, and the
/// canonical exponent must fit in `i32`.
pub open spec fn spec_parse_decimal(s: Seq<char>) -> Option<Decimal> {
    match spec_decimal_parts(s) {
        None => None,
        Some(raw) => if raw.mantissa > u64::MAX as int || raw.exp_mag > u64::MAX as int {
            None
        } else {
            let e0 = (if raw.exp_neg {
                -raw.exp_mag
            } else {
                raw.exp_mag
            }) - raw.frac_len;
            let nm = spec_normalize(raw.mantissa, e0).0;
            let ne = spec_normalize(raw.mantissa, e0).1;
            if ne < i32::MIN as int || ne > i32::MAX as int {
                None
            } else {
                Some(Decimal { neg: raw.neg && nm != 0, mantissa: nm as u64, exponent: ne as i32 })
            }
        },
    }
}

/// The canonical decimal equal to the integer `v`.
pub open spec fn spec_from_int(v: int) -> Decimal {
    let m = if v < 0 {
        -v
    } else {
        v
    };
    let nm = spec_normalize(m, 0).0;
    let ne = spec_normalize(m, 0).1;
    Decimal { neg: v < 0 && nm != 0, mantissa: nm as u64, exponent: ne as i32 }
}

proof fn lemma_digits_val_nonneg(s: Seq<char>)
    requires
        all_digits(s),
    ensures
        digits_val(s) >= 0,
    decreases s.len(),
{
    if s.len() > 0 {
        assert(is_digit(s[s.len() - 1]));
        lemma_digits_val_nonneg(s.drop_last());
    }
}

/// A digit prefix denotes at most what the whole digit sequence denotes.
proof fn lemma_digits_val_prefix_le(s: Seq<char>, k: int)
    requires
        all_digits(s),
        0 <= k <= s.len(),
    ensures
        digits_val(s.take(k)) <= digits_val(s),
    decreases s.len() - k,
{
    if k == s.len() {
        assert(s.take(k) =~= s);
    } else {
        lemma_digits_val_prefix_le(s, k + 1);
        assert(s.take(k + 1).drop_last() =~= s.take(k));
        assert(s.take(k + 1).last() == s[k]);
        assert(is_digit(s[k]));
        lemma_digits_val_nonneg(s.take(k));
    }
}

/// Appending digit characters never decreases the denoted value.
proof fn lemma_digits_val_concat_le(x: Seq<char>, y: Seq<char>)
    requires
        all_digits(x),
        all_digits(y),
    ensures
        digits_val(x + y) >= digits_val(x),
    decreases y.len(),
{
    if y.len() == 0 {
        assert(x + y =~= x);
    } else {
        lemma_digits_val_concat_le(x, y.drop_last());
        assert((x + y).drop_last() =~= x + y.drop_last());
        assert(all_digits(x + y.drop_last())) by {
            assert(forall|i: int|
                0 <= i < x.len() + y.len() - 1 ==> is_digit(
                    #[trigger] (x + y.drop_last())[i],
                ));
        }
        lemma_digits_val_nonneg(x + y.drop_last());
        assert(is_digit((x + y).last()));
    }
}

/// A maximal digit run has exactly the length up to the first non-digit.
proof fn lemma_digit_run_exact(s: Seq<char>, k: int)
    requires
        0 <= k <= s.len(),
        forall|j: int| 0 <= j < k ==> is_digit(#[trigger] s[j]),
        k == s.len() || !is_digit(s[k]),
    ensures
        digit_run(s) == k,
    decreases k,
{
    if k == 0 {
    } else {
        assert(is_digit(s[0]));
        assert(forall|j: int| 0 <= j < k - 1 ==> #[trigger] s.drop_first()[j] == s[j + 1]);
        assert(k - 1 == s.drop_first().len() || !is_digit(s.drop_first()[k - 1]));
        lemma_digit_run_exact(s.drop_first(), k - 1);
    }
}

/// A digit run is no longer than the sequence, and is made of digits.
pub(crate) proof fn lemma_digit_run_le_len(s: Seq<char>)
    ensures
        0 <= digit_run(s) <= s.len(),
        forall|j: int| 0 <= j < digit_run(s) ==> is_digit(#[trigger] s[j]),
    decreases s.len(),
{
    if s.len() > 0 && is_digit(s[0]) {
        lemma_digit_run_le_len(s.drop_first());
        assert forall|j: int| 0 <= j < digit_run(s) implies is_digit(#[trigger] s[j]) by {
            if j > 0 {
                assert(s.drop_first()[j - 1] == s[j]);
                assert(is_digit(s.drop_first()[j - 1]));
            }
        }
    }
}

/// A sequence whose first `k` entries are digits has a run of at least `k`.
proof fn lemma_digit_run_at_least(s: Seq<char>, k: int)
    requires
        0 <= k <= s.len(),
        forall|j: int| 0 <= j < k ==> is_digit(#[trigger] s[j]),
    ensures
        digit_run(s) >= k,
    decreases k,
{
    if k > 0 {
        assert(is_digit(s[0]));
        assert(forall|j: int| 0 <= j < k - 1 ==> #[trigger] s.drop_first()[j] == s[j + 1]);
        lemma_digit_run_at_least(s.drop_first(), k - 1);
        assert(digit_run(s) == 1 + digit_run(s.drop_first()));
    } else {
        lemma_digit_run_le_len(s);
    }
}

/// If the digits scanned so far already denote more than `u64::MAX`, the
/// whole digit run does too.
proof fn lemma_scan_overflow(view: Seq<char>, prefix: Seq<char>, from: int, i: int)
    requires
        all_digits(prefix),
        0 <= from <= i < view.len(),
        forall|j: int| from <= j <= i ==> is_digit(#[trigger] view[j]),
        digits_val(prefix + view.subrange(from, i + 1)) > u64::MAX as int,
    ensures
        digits_val(prefix + view.subrange(from, from + digit_run(view.skip(from)))) > u64::MAX
            as int,
{
    assert(forall|j: int|
        0 <= j < i + 1 - from ==> #[trigger] view.skip(from)[j] == view[j + from] && is_digit(
            view[j + from],
        ));
    lemma_digit_run_at_least(view.skip(from), i + 1 - from);
    lemma_digit_run_le_len(view.skip(from));
    let k = digit_run(view.skip(from));
    let full = prefix + view.subrange(from, from + k);
    assert(all_digits(full)) by {
        assert(forall|j: int| 0 <= j < k ==> #[trigger] view.skip(from)[j] == view[j + from]);
        assert(forall|j: int| 0 <= j < full.len() ==> is_digit(#[trigger] full[j]));
    }
    assert(full.take(prefix.len() + (i + 1 - from)) =~= prefix + view.subrange(from, i + 1));
    lemma_digits_val_prefix_le(full, prefix.len() as int + (i + 1 - from));
}

/// Scans the digit run of `s` starting at `from`, extending the accumulated
/// value `acc` (the value of the ghost digit sequence `prefix`).  Returns the
/// end of the run and the value of `prefix` followed by the run, or `None`
/// if that value exceeds `u64::MAX`.
pub(crate) fn scan_digits(s: &str, from: usize, n: usize, acc: u64, Ghost(prefix): Ghost<Seq<char>>) -> (r: (
    usize,
    Option<u64>,
))
    requires
        n == s@.len(),
        from <= n,
        all_digits(prefix),
        acc as int == digits_val(prefix),
    ensures
        from <= r.0 <= n,
        r.1 is Some ==> r.0 == from + digit_run(s@.skip(from as int)),
        r.1 matches Some(v) ==> v as int == digits_val(
            prefix + s@.subrange(from as int, r.0 as int),
        ),
        r.1 is Some ==> (forall|j: int| from <= j < r.0 ==> is_digit(#[trigger] s@[j])),
        r.1 is None ==> digits_val(
            prefix + s@.subrange(from as int, from + digit_run(s@.skip(from as int))),
        ) > u64::MAX as int,
{
    let ghost view = s@;
    let mut i = from;
    let mut val = acc;
    loop
        invariant
            view == s@,
            n == view.len(),
            from <= i <= n,
            all_digits(prefix),
            forall|j: int| from <= j < i ==> is_digit(#[trigger] view[j]),
            val as int == digits_val(prefix + view.subrange(from as int, i as int)),
        ensures
            from <= i <= n,
            i == n || !is_digit(view[i as int]),
            forall|j: int| from <= j < i ==> is_digit(#[trigger] view[j]),
            val as int == digits_val(prefix + view.subrange(from as int, i as int)),
        decreases n - i,
    {
        if i >= n {
            break ;
        }
        let c = s.get_char(i);
        let cv = c as u32;
        if !(48 <= cv && cv <= 57) {
            proof {
                assert(c == view[i as int]);
                assert(cv as int == c as int);
                assert(!is_digit(view[i as int]));
            }
            break ;
        }
        let d = (cv - 48) as u64;
        proof {
            assert(c == view[i as int]);
            assert(cv as int == c as int);
            assert(is_digit(view[i as int]));
            assert((prefix + view.subrange(from as int, i + 1)).drop_last() =~= prefix
                + view.subrange(from as int, i as int));
            assert((prefix + view.subrange(from as int, i + 1)).last() == view[i as int]);
        }
        let next = match val.checked_mul(10) {
            Some(m10) => m10.checked_add(d),
            None => None,
        };
        match next {
            Some(m) => {
                val = m;
            },
            None => {
                proof {
                    lemma_digits_val_nonneg(prefix + view.subrange(from as int, i as int));
                    lemma_scan_overflow(view, prefix, from as int, i as int);
                }
                return (i, None);
            },
        }
        i = i + 1;
    }
    proof {
        assert(forall|j: int|
            0 <= j < i - from ==> #[trigger] view.skip(from as int)[j] == view[j + from]
                && is_digit(view[j + from]));
        assert(i - from == view.skip(from as int).len() || !is_digit(
            view.skip(from as int)[i - from],
        ));
        lemma_digit_run_exact(view.skip(from as int), i as int - from);
    }
    (i, Some(val))
}

/// Powers of ten, for bounding how far canonicalisation moves the exponent.
pub open spec fn pow10(k: int) -> int
    decreases k,
{
    if k <= 0 {
        1
    } else {
        10 * pow10(k - 1)
    }
}

/// A mantissa below `10^k` loses at most `k` digits to canonicalisation.
proof fn lemma_normalize_pow10(m: int, e: int, k: int)
    requires
        0 < m < pow10(k),
        0 <= k,
    ensures
        spec_normalize(m, e).1 <= e + k,
    decreases m,
{
    if m % 10 == 0 {
        lemma_normalize_pow10(m / 10, e + 1, k - 1);
    }
}

/// Bounds on the canonical form.
proof fn lemma_normalize_bounds(m: int, e: int)
    requires
        0 <= m,
    ensures
        m > 0 ==> spec_normalize(m, e).1 >= e,
        0 <= spec_normalize(m, e).0 <= m,
        m == 0 ==> spec_normalize(m, e) == (0int, 0int),
    decreases m,
{
    if m > 0 && m % 10 == 0 {
        lemma_normalize_bounds(m / 10, e + 1);
    }
}

/// Strips trailing zero digits of `mant0`, adjusting the exponent, so that
/// the result is in canonical form.
fn normalize_parts(mant0: u64, e0: i128) -> (r: (u64, i128))
    requires
        -36893488147419103230 <= e0 <= 36893488147419103230,
    ensures
        r.0 as int == spec_normalize(mant0 as int, e0 as int).0,
        r.1 as int == spec_normalize(mant0 as int, e0 as int).1,
{
    if mant0 == 0 {
        return (0, 0);
    }
    let mut m = mant0;
    let mut e = e0;
    loop
        invariant
            0 < m <= mant0,
            e + m <= e0 + mant0,
            e >= e0,
            -36893488147419103230 <= e0 <= 36893488147419103230,
            spec_normalize(m as int, e as int) == spec_normalize(mant0 as int, e0 as int),
        ensures
            0 < m,
            m % 10 != 0,
            spec_normalize(m as int, e as int) == spec_normalize(mant0 as int, e0 as int),
        decreases m,
    {
        if m % 10 != 0 {
            break ;
        }
        m = m / 10;
        e = e + 1;
    }
    (m, e)
}

impl Decimal {
    /// The canonical zero value.
    pub open spec fn spec_zero() -> Decimal {
        Decimal { neg: false, mantissa: 0, exponent: 0 }
    }

    /// Returns the canonical zero value.
    pub fn zero() -> (r: Decimal)
        ensures
            r == Decimal::spec_zero(),
    {
        Decimal { neg: false, mantissa: 0, exponent: 0 }
    }

    /// Returns the canonical decimal equal to the integer `v`.
    pub fn from_int(v: i64) -> (r: Decimal)
        ensures
            r == spec_from_int(v as int),
    {
        let wide: i128 = v as i128;
        let mag: u64 = if wide < 0 {
            (-wide) as u64
        } else {
            wide as u64
        };
        let (nm, ne) = normalize_parts(mag, 0);
        proof {
            lemma_normalize_bounds(mag as int, 0);
            if mag > 0 {
                assert(pow10(20) == 100000000000000000000) by {
                    reveal_with_fuel(pow10, 21);
                }
                lemma_normalize_pow10(mag as int, 0, 20);
            }
        }
        Decimal { neg: v < 0 && nm != 0, mantissa: nm, exponent: ne as i32 }
    }

    /// Parses a decimal token; `None` exactly when the token does not match
    /// the decimal grammar or exceeds the carried ranges.
    #[verifier::rlimit(100)]
    pub fn parse(s: &str) -> (r: Option<Decimal>)
        ensures
            r == spec_parse_decimal(s@),
    {
        let ghost view = s@;
        let n = s.unicode_len();

        // Sign.
        let mut i: usize = 0;
        let mut neg = false;
        if 0 < n {
            let c = s.get_char(0);
            if c == '+' || c == '-' {
                neg = c == '-';
                i = 1;
            }
        }
        let ghost sl = i as int;
        assert(sl == if view.len() > 0 && (view[0] == '+' || view[0] == '-') {
            1int
        } else {
            0int
        });
        assert(neg == (view.len() > 0 && view[0] == '-'));

        // Integer digits.
        let (ip, int_acc) = scan_digits(s, i, n, 0, Ghost(Seq::<char>::empty()));
        proof {
            lemma_digit_run_le_len(view.skip(sl));
        }
        let mant0 = match int_acc {
            Some(m) => m,
            None => {
                proof {
                    let run = digit_run(view.skip(sl));
                    assert(Seq::<char>::empty() + view.subrange(sl, sl + run) =~= view.subrange(
                        sl,
                        sl + run,
                    ));
                    lemma_reject_big_mantissa(view, sl);
                }
                return None;
            },
        };
        let ghost k1 = ip as int - sl;
        let ghost p1 = sl + k1;
        let ghost ipart = view.subrange(sl, p1);
        proof {
            assert(k1 == digit_run(view.skip(sl)));
            assert(forall|j: int| 0 <= j < k1 ==> #[trigger] view.skip(sl)[j] == view[j + sl]);
            assert(all_digits(ipart)) by {
                assert(forall|j: int| 0 <= j < ipart.len() ==> is_digit(#[trigger] ipart[j]));
            }
            assert(Seq::<char>::empty() + ipart =~= ipart);
        }
        let int_len = ip - i;
        i = ip;

        // Fractional digits.
        let mut frac_len: usize = 0;
        let mut mant: u64 = mant0;
        let ghost has_frac = p1 < view.len() && view[p1] == '.';
        if i < n && s.get_char(i) == '.' {
            let (fp, frac_acc) = scan_digits(s, i + 1, n, mant0, Ghost(ipart));
            proof {
                lemma_digit_run_le_len(view.skip(p1 + 1));
            }
            mant = match frac_acc {
                Some(m) => m,
                None => {
                    proof {
                        lemma_reject_big_mantissa(view, sl);
                    }
                    return None;
                },
            };
            frac_len = fp - (i + 1);
            i = fp;
            proof {
                assert(fp as int - (p1 + 1) == digit_run(view.skip(p1 + 1)));
            }
        }
        let ghost k2 = frac_len as int;
        let ghost p2 = i as int;
        let ghost mant_digits = view.subrange(sl, p1) + (if has_frac {
            view.subrange(p1 + 1, p2)
        } else {
            Seq::<char>::empty()
        });
        proof {
            if !has_frac {
                assert(mant_digits =~= ipart);
            }
            assert(mant as int == digits_val(mant_digits));
            assert(p2 == if has_frac {
                p1 + 1 + k2
            } else {
                p1
            });
        }

        // At least one mantissa digit.
        if int_len == 0 && frac_len == 0 {
            return None;
        }
        assert(k1 + k2 > 0);

        // Exponent part.
        let mut exp_mag: u64 = 0;
        let mut exp_neg = false;
        if i < n {
            let c = s.get_char(i);
            if !(c == 'e' || c == 'E') {
                return None;
            }
            i = i + 1;
            let ghost p3 = i as int;
            if i < n {
                let c2 = s.get_char(i);
                if c2 == '+' || c2 == '-' {
                    exp_neg = c2 == '-';
                    i = i + 1;
                }
            }
            let ghost esl = i as int - p3;
            assert(esl == if p3 < view.len() && (view[p3] == '+' || view[p3] == '-') {
                1int
            } else {
                0int
            });
            assert(exp_neg == (p3 < view.len() && view[p3] == '-'));
            let (ep, exp_acc) = scan_digits(s, i, n, 0, Ghost(Seq::<char>::empty()));
            proof {
                lemma_digit_run_le_len(view.skip(p3 + esl));
                assert(Seq::<char>::empty() + view.subrange(p3 + esl, p3 + esl + digit_run(
                    view.skip(p3 + esl),
                )) =~= view.subrange(p3 + esl, p3 + esl + digit_run(view.skip(p3 + esl))));
            }
            exp_mag = match exp_acc {
                Some(m) => m,
                None => {
                    proof {
                        assert(digits_val(
                            view.subrange(p3 + esl, p3 + esl + digit_run(view.skip(p3 + esl))),
                        ) > u64::MAX as int);
                    }
                    return None;
                },
            };
            proof {
                assert(ep as int - (p3 + esl) == digit_run(view.skip(p3 + esl)));
                assert(Seq::<char>::empty() + view.subrange(p3 + esl, ep as int) =~= view.subrange(
                    p3 + esl,
                    ep as int,
                ));
            }
            if ep == i {
                return None;
            }
            if ep != n {
                return None;
            }
            proof {
                assert(view.subrange(p3 + esl, view.len() as int) == view.subrange(
                    p3 + esl,
                    ep as int,
                ));
            }
        }

        assert(spec_decimal_parts(view) is Some);
        let ghost raw = spec_decimal_parts(view).unwrap();
        assert(raw.neg == neg);
        assert(raw.mantissa == mant as int);
        assert(raw.exp_neg == exp_neg);
        assert(raw.exp_mag == exp_mag as int);
        assert(raw.frac_len == frac_len as int);

        // Canonicalise and range-check the exponent.
        let e0: i128 = (if exp_neg {
            -(exp_mag as i128)
        } else {
            exp_mag as i128
        }) - (frac_len as i128);
        let (nm, ne) = normalize_parts(mant, e0);
        if ne < i32::MIN as i128 || ne > i32::MAX as i128 {
            return None;
        }
        Some(Decimal { neg: neg && nm != 0, mantissa: nm, exponent: ne as i32 })
    }
}

/// The mantissa digits denote more than `u64::MAX`, so the token is rejected
/// whatever follows them.
proof fn lemma_reject_big_mantissa(view: Seq<char>, sl: int)
    requires
        sl == if view.len() > 0 && (view[0] == '+' || view[0] == '-') {
            1int
        } else {
            0int
        },
        ({
            let k1 = digit_run(view.skip(sl));
            let p1 = sl + k1;
            let has_frac = p1 < view.len() && view[p1] == '.';
            let k2: int = if has_frac {
                digit_run(view.skip(p1 + 1))
            } else {
                0
            };
            let p2: int = if has_frac {
                p1 + 1 + k2
            } else {
                p1
            };
            digits_val(
                view.subrange(sl, p1) + (if has_frac {
                    view.subrange(p1 + 1, p2)
                } else {
                    Seq::<char>::empty()
                }),
            ) > u64::MAX as int || digits_val(view.subrange(sl, p1)) > u64::MAX as int
        }),
    ensures
        spec_parse_decimal(view) is None,
{
    let k1 = digit_run(view.skip(sl));
    let p1 = sl + k1;
    lemma_digit_run_le_len(view.skip(sl));
    assert(forall|j: int| 0 <= j < k1 ==> #[trigger] view.skip(sl)[j] == view[j + sl]);
    let ipart = view.subrange(sl, p1);
    assert(all_digits(ipart)) by {
        assert(forall|j: int| 0 <= j < ipart.len() ==> is_digit(#[trigger] ipart[j]));
    }
    let has_frac = p1 < view.len() && view[p1] == '.';
    let k2: int = if has_frac {
        digit_run(view.skip(p1 + 1))
    } else {
        0
    };
    let p2: int = if has_frac {
        p1 + 1 + k2
    } else {
        p1
    };
    let fpart = if has_frac {
        view.subrange(p1 + 1, p2)
    } else {
        Seq::<char>::empty()
    };
    if has_frac {
        lemma_digit_run_le_len(view.skip(p1 + 1));
        assert(forall|j: int| 0 <= j < k2 ==> #[trigger] view.skip(p1 + 1)[j] == view[j + p1 + 1]);
    }
    assert(all_digits(fpart)) by {
        assert(forall|j: int| 0 <= j < fpart.len() ==> is_digit(#[trigger] fpart[j]));
    }
    lemma_digits_val_concat_le(ipart, fpart);
    match spec_decimal_parts(view) {
        None => {},
        Some(raw) => {
            assert(raw.mantissa == digits_val(ipart + fpart));
            assert(raw.mantissa > u64::MAX as int);
        },
    }
}

} // verus!
