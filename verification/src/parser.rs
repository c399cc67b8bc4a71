//! Parsed OBJ line data: a keyword, its parameter tokens, and an optional
//! trailing comment.
//!
//! Reading lines from a file (and joining backslash-continued lines) is left
//! to the caller; this module only takes a physical line apart: trailing
//! whitespace is trimmed, text after the first `#` becomes the comment, and
//! the rest splits on ASCII whitespace into a keyword and its parameters.

use std::collections::VecDeque;
use vstd::prelude::*;

verus! {

/// A single parsed line of an OBJ file.
#[derive(Debug)]
pub struct ObjLine {
    /// The leading token; absent for blank or pure-comment lines.
    pub keyword: Option<String>,
    /// The whitespace-separated tokens after the keyword.
    pub parameters: VecDeque<String>,
    /// Text after a `#` marker, when non-empty.
    pub comment: Option<String>,
}

/// The mathematical content of an [`ObjLine`].
#[verifier::ext_equal]
pub ghost struct ObjLineView {
    pub keyword: Option<Seq<char>>,
    pub parameters: Seq<Seq<char>>,
    pub comment: Option<Seq<char>>,
}

impl View for ObjLine {
    type V = ObjLineView;

    open spec fn view(&self) -> ObjLineView {
        ObjLineView {
            keyword: self.keyword.deep_view(),
            parameters: self.parameters.deep_view(),
            comment: self.comment.deep_view(),
        }
    }
}

impl DeepView for ObjLine {
    type V = ObjLineView;

    open spec fn deep_view(&self) -> ObjLineView {
        self.view()
    }
}

/// `c` is ASCII whitespace: the token separators of the format.
pub open spec fn is_ascii_ws(c: char) -> bool {
    c as int == 0x20 || c as int == 0x9 || c as int == 0xA || c as int == 0xC || c as int == 0xD
}

/// `c` has the Unicode white-space property, as end-of-line trimming uses.
pub open spec fn is_unicode_ws(c: char) -> bool {
    (0x9 <= c as int && c as int <= 0xD) || c as int == 0x20 || c as int == 0x85 || c as int
        == 0xA0 || c as int == 0x1680 || (0x2000 <= c as int && c as int <= 0x200A) || c as int
        == 0x2028 || c as int == 0x2029 || c as int == 0x202F || c as int == 0x205F || c as int
        == 0x3000
}

/// Length of `s` once trailing white space is removed.
pub open spec fn trimmed_len(s: Seq<char>) -> int
    decreases s.len(),
{
    if s.len() == 0 {
        0
    } else if is_unicode_ws(s.last()) {
        trimmed_len(s.drop_last())
    } else {
        s.len() as int
    }
}

/// Position of the first `#` in `s`, if any.
pub open spec fn find_hash(s: Seq<char>) -> Option<int>
    decreases s.len(),
{
    if s.len() == 0 {
        None
    } else if s[0] == '#' {
        Some(0)
    } else {
        match find_hash(s.drop_first()) {
            None => None,
            Some(i) => Some(i + 1),
        }
    }
}

/// End of the non-whitespace run of `s` that starts at `i`.
pub open spec fn run_end(s: Seq<char>, i: int) -> int
    decreases s.len() - i,
{
    if i < 0 || i >= s.len() {
        s.len() as int
    } else if is_ascii_ws(s[i]) {
        i
    } else {
        run_end(s, i + 1)
    }
}

/// A run end lies between its start and the end of the sequence.
proof fn lemma_run_end_bounds(s: Seq<char>, i: int)
    requires
        0 <= i <= s.len(),
    ensures
        i <= run_end(s, i) <= s.len(),
        i < s.len() && !is_ascii_ws(s[i]) ==> i < run_end(s, i),
    decreases s.len() - i,
{
    if i < s.len() && !is_ascii_ws(s[i]) {
        lemma_run_end_bounds(s, i + 1);
    }
}

/// The ASCII-whitespace-separated tokens of `s`, from position `i` on.
pub open spec fn tokens_from(s: Seq<char>, i: int) -> Seq<Seq<char>>
    decreases s.len() - i,
    when i >= 0
    via tokens_from_decreases
{
    if i >= s.len() {
        Seq::empty()
    } else if is_ascii_ws(s[i]) {
        tokens_from(s, i + 1)
    } else {
        let j = run_end(s, i);
        seq![s.subrange(i, j)] + tokens_from(s, j)
    }
}

#[via_fn]
proof fn tokens_from_decreases(s: Seq<char>, i: int) {
    if 0 <= i < s.len() && !is_ascii_ws(s[i]) {
        lemma_run_end_bounds(s, i);
    }
}

/// The tokens of the whole of `s`.
pub open spec fn tokens_of(s: Seq<char>) -> Seq<Seq<char>> {
    tokens_from(s, 0)
}

/// How one physical line takes apart: trailing whitespace is trimmed; if the
/// trimmed line holds a `#`, what precedes it is tokenized and what follows
/// it (when non-empty) is the comment; a line without `#` is tokenized
/// untrimmed.  The first token is the keyword, the rest are parameters.
pub open spec fn spec_line_of(s: Seq<char>) -> ObjLineView {
    let t = s.take(trimmed_len(s));
    match find_hash(t) {
        Some(h) => {
            let toks = tokens_of(t.take(h));
            let com = t.skip(h + 1);
            ObjLineView {
                keyword: if toks.len() == 0 {
                    None
                } else {
                    Some(toks[0])
                },
                parameters: if toks.len() == 0 {
                    Seq::empty()
                } else {
                    toks.drop_first()
                },
                comment: if com.len() == 0 {
                    None
                } else {
                    Some(com)
                },
            }
        },
        None => {
            let toks = tokens_of(s);
            ObjLineView {
                keyword: if toks.len() == 0 {
                    None
                } else {
                    Some(toks[0])
                },
                parameters: if toks.len() == 0 {
                    Seq::empty()
                } else {
                    toks.drop_first()
                },
                comment: None,
            }
        },
    }
}

/// Decides [`is_ascii_ws`].
fn char_is_ascii_ws(c: char) -> (r: bool)
    ensures
        r == is_ascii_ws(c),
{
    let v = c as u32;
    v == 0x20 || v == 0x9 || v == 0xA || v == 0xC || v == 0xD
}

/// Decides [`is_unicode_ws`].
fn char_is_unicode_ws(c: char) -> (r: bool)
    ensures
        r == is_unicode_ws(c),
{
    let v = c as u32;
    (0x9 <= v && v <= 0xD) || v == 0x20 || v == 0x85 || v == 0xA0 || v == 0x1680 || (0x2000 <= v
        && v <= 0x200A) || v == 0x2028 || v == 0x2029 || v == 0x202F || v == 0x205F || v == 0x3000
}

/// If no `#` stands before `h` and one stands at `h` (or nowhere), the first
/// `#` of `t` is at `h` (or absent).
proof fn lemma_find_hash(t: Seq<char>, h: int)
    requires
        0 <= h <= t.len(),
        forall|j: int| 0 <= j < h ==> t[j] != '#',
        h == t.len() || t[h] == '#',
    ensures
        find_hash(t) == if h == t.len() {
            None::<int>
        } else {
            Some(h)
        },
    decreases h,
{
    if t.len() > 0 {
        if h == 0 {
        } else {
            assert(t[0] != '#');
            assert(forall|j: int| 0 <= j < h - 1 ==> #[trigger] t.drop_first()[j] == t[j + 1]);
            assert(h - 1 == t.drop_first().len() || t.drop_first()[h - 1] == t[h]);
            lemma_find_hash(t.drop_first(), h - 1);
        }
    }
}

/// A run of non-whitespace characters delimited on the right ends exactly
/// there.
proof fn lemma_run_end_exact(s: Seq<char>, i: int, j: int)
    requires
        0 <= i <= j <= s.len(),
        forall|k: int| i <= k < j ==> !is_ascii_ws(#[trigger] s[k]),
        j == s.len() || is_ascii_ws(s[j]),
    ensures
        run_end(s, i) == j,
    decreases j - i,
{
    if i < j {
        assert(!is_ascii_ws(s[i]));
        lemma_run_end_exact(s, i + 1, j);
    }
}

/// Splits `s[from .. to]` into its ASCII-whitespace-separated tokens.
fn tokenize(s: &str, from: usize, to: usize) -> (r: VecDeque<String>)
    requires
        from <= to <= s@.len(),
    ensures
        r.deep_view() == tokens_of(s@.subrange(from as int, to as int)),
{
    let ghost data = s@.subrange(from as int, to as int);
    let mut out: VecDeque<String> = VecDeque::new();
    let mut i = from;
    while i < to
        invariant
            data == s@.subrange(from as int, to as int),
            from <= i <= to <= s@.len(),
            tokens_of(data) == out.deep_view() + tokens_from(data, i - from),
        decreases to - i,
    {
        let c = s.get_char(i);
        proof {
            assert(data[i - from] == s@[i as int]);
        }
        if char_is_ascii_ws(c) {
            i = i + 1;
        } else {
            let start = i;
            let mut j = i + 1;
            while j < to
                invariant
                    data == s@.subrange(from as int, to as int),
                    from <= start < j <= to <= s@.len(),
                    forall|k: int| start <= k < j ==> !is_ascii_ws(#[trigger] s@[k]),
                ensures
                    start < j <= to,
                    forall|k: int| start <= k < j ==> !is_ascii_ws(#[trigger] s@[k]),
                    j == to || is_ascii_ws(s@[j as int]),
                decreases to - j,
            {
                let c2 = s.get_char(j);
                if char_is_ascii_ws(c2) {
                    break ;
                }
                j = j + 1;
            }
            let token = s.substring_char(start, j).to_owned();
            proof {
                assert(forall|k: int|
                    start - from <= k < j - from ==> #[trigger] data[k] == s@[k + from]);
                lemma_run_end_exact(data, start as int - from, j as int - from);
                assert(token@ =~= data.subrange(start - from, j - from));
            }
            let ghost old_out = out.deep_view();
            out.push_back(token);
            proof {
                assert(out.deep_view() =~= old_out.push(token@));
                assert(out.deep_view() + tokens_from(data, j - from) =~= old_out + (seq![
                    data.subrange(start - from, j - from),
                ] + tokens_from(data, j - from)));
            }
            i = j;
        }
    }
    proof {
        assert(tokens_of(data) =~= out.deep_view());
    }
    out
}

impl ObjLine {
    /// Takes one physical line apart into keyword, parameters and comment;
    /// see [`spec_line_of`] for the exact rule.
    pub fn from(line: &String) -> (r: ObjLine)
        ensures
            r@ == spec_line_of(line@),
    {
        let ghost view = line@;
        let s = line.as_str();
        let n = s.unicode_len();

        // Trim trailing white space.
        proof {
            assert(view.take(n as int) =~= view);
        }
        let mut t_end: usize = n;
        loop
            invariant
                n == view.len(),
                view == s@,
                t_end <= n,
                trimmed_len(view.take(t_end as int)) == trimmed_len(view),
            ensures
                t_end <= n,
                trimmed_len(view.take(t_end as int)) == trimmed_len(view),
                t_end == 0 || !is_unicode_ws(view[t_end - 1]),
            decreases t_end,
        {
            if t_end == 0 {
                break ;
            }
            let c = s.get_char(t_end - 1);
            if !char_is_unicode_ws(c) {
                break ;
            }
            proof {
                assert(view.take(t_end as int).last() == view[t_end - 1]);
                assert(view.take(t_end as int).drop_last() =~= view.take(t_end - 1));
            }
            t_end = t_end - 1;
        }
        proof {
            if t_end > 0 {
                assert(view.take(t_end as int).last() == view[t_end - 1]);
            }
            assert(trimmed_len(view) == t_end as int);
        }
        let ghost t = view.take(t_end as int);

        // Find the first comment marker in the trimmed line; `t_end` itself
        // stands for "none".
        let mut hash: usize = t_end;
        let mut i: usize = 0;
        loop
            invariant_except_break
                hash == t_end,
            invariant
                n == view.len(),
                view == s@,
                t == view.take(t_end as int),
                t_end <= n,
                i <= t_end,
                forall|j: int| 0 <= j < i ==> t[j] != '#',
            ensures
                hash <= t_end,
                (hash < t_end ==> t[hash as int] == '#' && (forall|j: int|
                    0 <= j < hash ==> t[j] != '#')),
                (hash == t_end ==> (forall|j: int| 0 <= j < t_end ==> t[j] != '#')),
            decreases t_end - i,
        {
            if i >= t_end {
                break ;
            }
            let c = s.get_char(i);
            proof {
                assert(t[i as int] == view[i as int]);
            }
            if c == '#' {
                hash = i;
                break ;
            }
            i = i + 1;
        }

        if hash < t_end {
            proof {
                lemma_find_hash(t, hash as int);
            }
            let parameters_end = hash;
            let mut tokens = tokenize(s, 0, parameters_end);
            proof {
                assert(view.subrange(0, parameters_end as int) =~= t.take(hash as int));
            }
            let ghost toks = tokens.deep_view();
            let keyword = tokens.pop_front();
            proof {
                lemma_pop_front_views(toks, tokens.deep_view(), keyword.deep_view());
            }
            let comment: Option<String> = if hash + 1 == t_end {
                proof {
                    assert(t.skip(hash + 1).len() == 0);
                }
                None
            } else {
                let comment_text = s.substring_char(hash + 1, t_end).to_owned();
                proof {
                    assert(comment_text@ =~= t.skip(hash + 1));
                    assert(t.skip(hash + 1).len() > 0);
                }
                Some(comment_text)
            };
            let r = ObjLine { keyword, parameters: tokens, comment };
            proof {
                assert(r@ =~= spec_line_of(view));
            }
            r
        } else {
            proof {
                lemma_find_hash(t, t_end as int);
            }
            let mut tokens = tokenize(s, 0, n);
            proof {
                assert(view.subrange(0, n as int) =~= view);
            }
            let ghost toks = tokens.deep_view();
            let keyword = tokens.pop_front();
            proof {
                lemma_pop_front_views(toks, tokens.deep_view(), keyword.deep_view());
            }
            let r = ObjLine { keyword, parameters: tokens, comment: None };
            proof {
                assert(r@ =~= spec_line_of(view));
            }
            r
        }
    }
}

/// What popping the front token leaves, in terms of the token sequences.
proof fn lemma_pop_front_views(
    before: Seq<Seq<char>>,
    after: Seq<Seq<char>>,
    popped: Option<Seq<char>>,
)
    requires
        before.len() == 0 ==> popped is None && after == before,
        before.len() > 0 ==> popped == Some(before[0]) && after =~= before.drop_first(),
    ensures
        popped == if before.len() == 0 {
            None::<Seq<char>>
        } else {
            Some(before[0])
        },
        after =~= if before.len() == 0 {
            Seq::<Seq<char>>::empty()
        } else {
            before.drop_first()
        },
{
    if before.len() == 0 {
        assert(after =~= Seq::<Seq<char>>::empty());
    }
}

} // verus!
