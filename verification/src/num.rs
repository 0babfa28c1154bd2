//! Parsing of numeric literals.
//!
//! A literal containing `.`, `e` or `E` is a floating-point literal and
//! parsed as such; any other literal is parsed as a machine-size signed
//! integer.  On failure a zero of the corresponding kind is produced and
//! a diagnostic recorded.
use vstd::prelude::*;
use crate::ast::Span;
use crate::diag::{Diag, DiagKind};
use crate::ir::Filter;

verus! {

/// Whether the literal is in floating-point form.
pub open spec fn has_float_mark(s: Seq<char>) -> bool {
    exists|i: int| 0 <= i < s.len() && (s[i] == '.' || s[i] == 'e' || s[i] == 'E')
}

pub open spec fn is_digit(c: char) -> bool {
    48 <= c as int && c as int <= 57
}

pub open spec fn digit_val(c: char) -> int {
    c as int - 48
}

pub open spec fn all_digits(s: Seq<char>) -> bool {
    forall|i: int| 0 <= i < s.len() ==> is_digit(s[i])
}

/// The value of a digit string, most significant digit first.
pub open spec fn digits_val(s: Seq<char>) -> int
    decreases s.len(),
{
    if s.len() == 0 {
        0
    } else {
        digits_val(s.drop_last()) * 10 + digit_val(s.last())
    }
}

/// The mathematical value of an integer literal: an optional sign
/// followed by at least one digit, and nothing else.
pub open spec fn int_of(s: Seq<char>) -> Option<int> {
    let body = if s.len() > 0 && (s[0] == '+' || s[0] == '-') {
        s.skip(1)
    } else {
        s
    };
    if body.len() == 0 || !all_digits(body) {
        None
    } else if s[0] == '-' {
        Some(-digits_val(body))
    } else {
        Some(digits_val(body))
    }
}

/// The integer literal as a machine-size integer, when it fits.
pub open spec fn parsed_int(s: Seq<char>) -> Option<isize> {
    match int_of(s) {
        Some(v) => if isize::MIN <= v && v <= isize::MAX {
            Some(v as isize)
        } else {
            None
        },
        None => None,
    }
}

proof fn lemma_digits_nonneg(s: Seq<char>)
    requires
        all_digits(s),
    ensures
        digits_val(s) >= 0,
    decreases s.len(),
{
    if s.len() > 0 {
        assert(all_digits(s.drop_last()));
        lemma_digits_nonneg(s.drop_last());
    }
}

/// Whether the literal is in floating-point form.
fn contains_float_mark(s: &String) -> (r: bool)
    ensures
        r == has_float_mark(s@),
{
    let st = s.as_str();
    let n = st.unicode_len();
    let mut j: usize = 0;
    while j < n
        invariant
            j <= n,
            n == st@.len(),
            st@ == s@,
            forall|i: int| 0 <= i < j ==> !(s@[i] == '.' || s@[i] == 'e' || s@[i] == 'E'),
        decreases n - j,
    {
        let c = st.get_char(j);
        if c == '.' || c == 'e' || c == 'E' {
            return true;
        }
        j += 1;
    }
    false
}

/// Parse a machine-size signed integer, as `str::parse::<isize>` does:
/// an optional sign, then one or more decimal digits, and the value in range.
#[verifier::loop_isolation(false)]
pub fn parse_int(s: &String) -> (r: Option<isize>)
    ensures
        r == parsed_int(s@),
{
    let st = s.as_str();
    let n = st.unicode_len();
    if n == 0 {
        return None;
    }
    let c0 = st.get_char(0);
    let signed = c0 == '+' || c0 == '-';
    let neg = c0 == '-';
    let start: usize = if signed {
        1
    } else {
        0
    };
    let ghost body = if signed {
        s@.skip(1)
    } else {
        s@
    };
    proof {
        assert(body.len() == n - start);
    }
    if start >= n {
        return None;
    }
    let bound: i128 = isize::MAX as i128 + 1;
    let mut j = start;
    let mut acc: i128 = 0;
    let mut big = false;
    while j < n
        invariant
            start <= j <= n,
            all_digits(body.take(j - start)),
            !big ==> acc == digits_val(body.take(j - start)),
            !big ==> 0 <= acc <= 10 * bound + 9,
            big ==> digits_val(body.take(j - start)) > bound,
        decreases n - j,
    {
        let c = st.get_char(j);
        let d = c as u32;
        if d < 48 || d > 57 {
            proof {
                assert(body[j - start] == s@[j as int]);
                assert(!is_digit(body[j - start]));
                assert(!all_digits(body));
            }
            return None;
        }
        proof {
            let j2 = j + 1 - start;
            assert(body.take(j2).drop_last() =~= body.take(j2 - 1));
            assert(body.take(j2).last() == body[j2 - 1]);
            assert(body[j2 - 1] == s@[j as int]);
            assert(digits_val(body.take(j2)) == digits_val(body.take(j2 - 1)) * 10 + digit_val(
                body[j2 - 1],
            ));
            assert(all_digits(body.take(j2)));
        }
        if big || acc > bound {
            proof {
                if !big {
                    assert(digits_val(body.take(j + 1 - start)) > bound);
                }
            }
            big = true;
        } else {
            acc = acc * 10 + (d - 48) as i128;
        }
        j += 1;
    }
    proof {
        assert(body.take(n - start) =~= body);
        assert(isize::MIN == -isize::MAX - 1);
    }
    if big {
        proof {
            lemma_digits_nonneg(body);
        }
        return None;
    }
    if neg {
        if acc <= bound {
            Some((-acc) as isize)
        } else {
            None
        }
    } else {
        if acc <= bound - 1 {
            Some(acc as isize)
        } else {
            None
        }
    }
}

/// Compile a numeric literal, recording a diagnostic and yielding the
/// corresponding zero when it cannot be interpreted.  `fb` is the
/// host-supplied floating-point value of the text, as bits (see the
/// `Num` variant of the tree).
pub open spec fn s_num(n: String, fb: Option<u64>, span: Span) -> (Filter, Seq<Diag>) {
    if has_float_mark(n@) {
        match fb {
            Some(b) => (Filter::Float(b), Seq::<Diag>::empty()),
            None => (Filter::Float(0), seq![Diag { span, kind: DiagKind::BadFloat }]),
        }
    } else {
        match parsed_int(n@) {
            Some(v) => (Filter::Int(v), Seq::<Diag>::empty()),
            None => (Filter::Int(0), seq![Diag { span, kind: DiagKind::BadInt }]),
        }
    }
}

/// Compile a numeric literal.
pub fn num_filter(n: &String, fb: Option<u64>, span: Span, errs: &mut Vec<Diag>) -> (r: Filter)
    ensures
        r == s_num(*n, fb, span).0,
        final(errs)@ == old(errs)@ + s_num(*n, fb, span).1,
{
    let r: Filter;
    if contains_float_mark(n) {
        match fb {
            Some(b) => {
                r = Filter::Float(b);
            },
            None => {
                errs.push(Diag { span, kind: DiagKind::BadFloat });
                r = Filter::Float(0);
            },
        }
    } else {
        match parse_int(n) {
            Some(v) => {
                r = Filter::Int(v);
            },
            None => {
                errs.push(Diag { span, kind: DiagKind::BadInt });
                r = Filter::Int(0);
            },
        }
    }
    proof {
        assert(errs@ =~= old(errs)@ + s_num(*n, fb, span).1);
    }
    r
}

} // verus!
