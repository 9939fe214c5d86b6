//! The expression resolver: a closed, three-variant expression language
//! — capture reference, numeric literal, string literal — resolved
//! against the captures of one extraction.

use vstd::prelude::*;

use crate::error::Error;
use crate::number::{is_float_literal, Number};
use crate::text::{
    all_digits, chars_of, digits_to_usize, digits_val, is_digit, is_digit_char, trim_str, trimmed,
};
use vstd::string::StringExecFns;

verus! {

/// The digits of a capture reference: what stands after `$`, less an
/// optional leading `+`.
pub open spec fn ref_digits(t: Seq<char>) -> Seq<char> {
    let d = t.drop_first();
    if d.len() > 0 && d[0] == '+' {
        d.drop_first()
    } else {
        d
    }
}

/// `t` is a capture reference: `$` followed by a non-negative integer
/// that fits in `usize`.
pub open spec fn is_capture_ref(t: Seq<char>) -> bool {
    t.len() >= 2 && t[0] == '$' && all_digits(ref_digits(t)) && digits_val(ref_digits(t))
        <= usize::MAX
}

/// The index a capture reference denotes.
pub open spec fn capture_ref_val(t: Seq<char>) -> int {
    digits_val(ref_digits(t))
}

/// The specification-level shape of a parsed expression.
pub enum SpecExpr {
    /// A reference to the capture group at this index.
    Ref(int),
    /// A numeric literal, held as its text.
    Value(Seq<char>),
    /// A string literal.
    Str(Seq<char>),
}

/// What parsing an expression string yields: a capture reference where
/// the trimmed text is `$N`, else a numeric literal where it matches the
/// float grammar, else the trimmed text itself as a string literal.
pub open spec fn spec_parse_expr(s: Seq<char>) -> SpecExpr {
    let t = trimmed(s);
    if is_capture_ref(t) {
        SpecExpr::Ref(capture_ref_val(t))
    } else if is_float_literal(t) {
        SpecExpr::Value(t)
    } else {
        SpecExpr::Str(t)
    }
}

/// What evaluation yields: literals pass through untouched; a reference
/// resolves to the capture at its index — numeric-first, string-fallback
/// — and fails (`None`) where the index is out of range.
pub open spec fn spec_eval(e: SpecExpr, caps: Seq<Seq<char>>) -> Option<SpecExpr> {
    match e {
        SpecExpr::Ref(i) => if 0 <= i < caps.len() {
            if is_float_literal(caps[i]) {
                Some(SpecExpr::Value(caps[i]))
            } else {
                Some(SpecExpr::Str(caps[i]))
            }
        } else {
            None
        },
        _ => Some(e),
    }
}

/// Evaluating a capture reference fails exactly where the extraction has
/// no group at its index; where it has one, the reference resolves to
/// that capture — as a numeric value where the capture's text reads as a
/// number, as a string otherwise.
pub proof fn lemma_ref_eval(i: int, caps: Seq<Seq<char>>)
    ensures
        !(0 <= i < caps.len()) ==> spec_eval(SpecExpr::Ref(i), caps) is None,
        0 <= i < caps.len() && is_float_literal(caps[i]) ==> spec_eval(SpecExpr::Ref(i), caps)
            == Some(SpecExpr::Value(caps[i])),
        0 <= i < caps.len() && !is_float_literal(caps[i]) ==> spec_eval(SpecExpr::Ref(i), caps)
            == Some(SpecExpr::Str(caps[i])),
{
}

/// A numeric literal is parsed to a value and passes through evaluation
/// unchanged, whatever the extraction holds.
pub proof fn lemma_literal_eval(s: Seq<char>, caps: Seq<Seq<char>>)
    requires
        !is_capture_ref(trimmed(s)),
        is_float_literal(trimmed(s)),
    ensures
        spec_parse_expr(s) == SpecExpr::Value(trimmed(s)),
        spec_eval(spec_parse_expr(s), caps) == Some(SpecExpr::Value(trimmed(s))),
{
}

/// A parsed expression: a capture reference, a numeric literal, or a
/// string literal.
#[derive(Debug)]
pub enum Expr {
    /// A reference to a capture group by index.
    Ref(usize),
    /// A numeric value.
    Value(Number),
    /// A string value.
    Str(String),
}

impl View for Expr {
    type V = SpecExpr;

    open spec fn view(&self) -> SpecExpr {
        match self {
            Expr::Ref(i) => SpecExpr::Ref(*i as int),
            Expr::Value(n) => SpecExpr::Value(n@),
            Expr::Str(s) => SpecExpr::Str(s@),
        }
    }
}

/// Parse a capture reference such as `$1` or `$5`: `None` where `s` is
/// not `$` followed by a non-negative integer fitting in `usize`.
pub fn parse_capture_reference(s: &str) -> (r: Option<usize>)
    ensures
        match r {
            Some(i) => is_capture_ref(s@) && i == capture_ref_val(s@),
            None => !is_capture_ref(s@),
        },
{
    let v = chars_of(s);
    if v.len() < 2 || v[0] != '$' {
        return None;
    }
    let start: usize = if v[1] == '+' {
        2
    } else {
        1
    };
    proof {
        assert(ref_digits(s@) =~= v@.subrange(start as int, v@.len() as int));
    }
    if start == v.len() {
        return None;
    }
    let n = v.len();
    let mut i = start;
    while i < n
        invariant
            start <= i <= n,
            n == v@.len(),
            v@ == s@,
            ref_digits(s@) == v@.subrange(start as int, n as int),
            forall|k: int| start <= k < i ==> is_digit(v@[k]),
        decreases n - i,
    {
        if !is_digit_char(v[i]) {
            proof {
                let d = ref_digits(s@);
                crate::text::lemma_digit_prefix_len(d, i - start);
            }
            return None;
        }
        i = i + 1;
    }
    proof {
        let d = ref_digits(s@);
        crate::text::lemma_digit_prefix_len(d, n - start);
    }
    digits_to_usize(&v, start)
}

/// Fetch the capture at `index`, or a parse error where the extraction
/// has no such group.
pub fn get_capture_value(captures: &Vec<String>, index: usize) -> (r: Result<String, Error>)
    ensures
        index < captures@.len() ==> (r matches Ok(s) && s@ == captures@[index as int]@),
        index >= captures@.len() ==> (r matches Err(e) && e is ParseError),
{
    if index < captures.len() {
        Ok(captures[index].clone())
    } else {
        Err(Error::ParseError(String::from_str("Capture group not found")))
    }
}

impl Expr {
    /// Parse an expression string. Total: text that is neither a capture
    /// reference nor a numeric literal is a string literal.
    pub fn new(expr_str: &str) -> (r: Self)
        ensures
            r@ == spec_parse_expr(expr_str@),
    {
        let t = trim_str(expr_str);
        if let Some(idx) = parse_capture_reference(t) {
            return Expr::Ref(idx);
        }
        match Number::from_text(t.to_owned()) {
            Some(n) => Expr::Value(n),
            None => Expr::Str(t.to_owned()),
        }
    }

    /// Resolve this expression against an extraction. Literals pass
    /// through unchanged; a reference is replaced by its capture,
    /// numeric-first with string fallback, and fails with a parse error
    /// where the extraction has no group at its index.
    pub fn eval(self, extraction: &crate::parser::extraction::ExtractionResult) -> (r: Result<
        Self,
        Error,
    >)
        ensures
            match spec_eval(self@, extraction@) {
                Some(e) => r matches Ok(x) && x@ == e,
                None => r matches Err(e) && e is ParseError,
            },
    {
        match self {
            Expr::Ref(idx) => {
                let cap = match get_capture_value(&extraction.captures, idx) {
                    Ok(c) => c,
                    Err(e) => {
                        return Err(e);
                    },
                };
                proof {
                    assert(cap@ == extraction@[idx as int]);
                }
                match Number::from_text(cap.clone()) {
                    Some(n) => Ok(Expr::Value(n)),
                    None => Ok(Expr::Str(cap)),
                }
            },
            other => Ok(other),
        }
    }

    /// This expression as a number: a numeric literal directly, a string
    /// literal by re-reading it as a number, a reference not at all —
    /// references must be evaluated first.
    pub fn to_number(&self) -> (r: Result<Number, Error>)
        ensures
            match self@ {
                SpecExpr::Value(t) => r matches Ok(n) && n@ == t,
                SpecExpr::Str(t) => if is_float_literal(t) {
                    r matches Ok(n) && n@ == t
                } else {
                    r matches Err(e) && e is ParseError
                },
                SpecExpr::Ref(_) => r matches Err(e) && e is ParseError,
            },
    {
        match self {
            Expr::Value(n) => Ok(n.clone()),
            Expr::Str(s) => match Number::from_text(s.clone()) {
                Some(n) => Ok(n),
                None => Err(
                    Error::ParseError(
                        String::from_str("Cannot convert '").concat(s.as_str()).concat(
                            "' to a number",
                        ),
                    ),
                ),
            },
            Expr::Ref(_) => Err(
                Error::ParseError(
                    String::from_str("Cannot convert reference to a number directly"),
                ),
            ),
        }
    }

    /// This expression as text: literals render verbatim, a reference
    /// not at all — references must be evaluated first.
    ///
    /// A numeric literal keeps the exact text it was parsed or captured
    /// from: `25.50` renders as `25.50`, not re-formatted through
    /// machine floating point to `25.5`. Formatting a number canonically
    /// is floating-point work and is left to the consumer, as
    /// [`crate::number`] explains.
    pub fn to_text(&self) -> (r: Result<String, Error>)
        ensures
            match self@ {
                SpecExpr::Value(t) => r matches Ok(s) && s@ == t,
                SpecExpr::Str(t) => r matches Ok(s) && s@ == t,
                SpecExpr::Ref(_) => r matches Err(e) && e is ParseError,
            },
    {
        match self {
            Expr::Value(n) => Ok(n.as_text().to_owned()),
            Expr::Str(s) => Ok(s.clone()),
            Expr::Ref(_) => Err(
                Error::ParseError(
                    String::from_str("Cannot convert reference to a string directly"),
                ),
            ),
        }
    }
}

impl Clone for Expr {
    fn clone(&self) -> (r: Self)
        ensures
            r@ == self@,
    {
        match self {
            Expr::Ref(i) => Expr::Ref(*i),
            Expr::Value(n) => Expr::Value(n.clone()),
            Expr::Str(s) => Expr::Str(s.clone()),
        }
    }
}

} // verus!
