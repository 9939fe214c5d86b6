//! Numeric values carried by data points.
//!
//! The expression language never computes with numbers — it only decides
//! whether a piece of text denotes one, and passes the text through. A
//! [`Number`] therefore holds the literal verbatim, with the invariant
//! that it matches the floating-point literal grammar below; rendering it
//! back yields the text unchanged, and conversion to machine floating
//! point is left to the consumer outside this crate.
//!
//! The grammar is the one Rust documents for parsing `f64` text:
//!
//! ```text
//! Float  ::= Sign? ( 'inf' | 'infinity' | 'nan' | Number )
//! Number ::= Digit+ '.'? Digit* Exp?
//!          | '.' Digit+ Exp?
//! Exp    ::= ('e' | 'E') Sign? Digit+
//! Sign   ::= '+' | '-'
//! ```
//!
//! with `inf`, `infinity` and `nan` matched case-insensitively.

use vstd::prelude::*;

use crate::text::{digit_prefix_len, is_digit, is_digit_char, lemma_digit_prefix_len};

verus! {

/// `s` without its leading sign, if any.
pub open spec fn skip_sign(s: Seq<char>) -> Seq<char> {
    if s.len() > 0 && (s[0] == '+' || s[0] == '-') {
        s.drop_first()
    } else {
        s
    }
}

/// Case-insensitive match of a single ASCII letter.
pub open spec fn is_letter_ci(c: char, lower: char, upper: char) -> bool {
    c == lower || c == upper
}

/// `s` is `inf`, case-insensitively.
pub open spec fn is_inf(s: Seq<char>) -> bool {
    s.len() == 3 && is_letter_ci(s[0], 'i', 'I') && is_letter_ci(s[1], 'n', 'N')
        && is_letter_ci(s[2], 'f', 'F')
}

/// `s` is `infinity`, case-insensitively.
pub open spec fn is_infinity(s: Seq<char>) -> bool {
    s.len() == 8 && is_letter_ci(s[0], 'i', 'I') && is_letter_ci(s[1], 'n', 'N')
        && is_letter_ci(s[2], 'f', 'F') && is_letter_ci(s[3], 'i', 'I')
        && is_letter_ci(s[4], 'n', 'N') && is_letter_ci(s[5], 'i', 'I')
        && is_letter_ci(s[6], 't', 'T') && is_letter_ci(s[7], 'y', 'Y')
}

/// `s` is `nan`, case-insensitively.
pub open spec fn is_nan(s: Seq<char>) -> bool {
    s.len() == 3 && is_letter_ci(s[0], 'n', 'N') && is_letter_ci(s[1], 'a', 'A')
        && is_letter_ci(s[2], 'n', 'N')
}

/// The position of the first `e` or `E` in `s`, or its length.
pub open spec fn e_split(s: Seq<char>) -> int
    decreases s.len(),
{
    if s.len() == 0 {
        0
    } else if s[0] == 'e' || s[0] == 'E' {
        0
    } else {
        1 + e_split(s.drop_first())
    }
}

/// `m` is a mantissa: digits with an optional point, at least one digit
/// in total.
pub open spec fn is_mantissa(m: Seq<char>) -> bool {
    let k = digit_prefix_len(m);
    if k == m.len() {
        k >= 1
    } else if m[k] == '.' {
        let frac = m.subrange(k + 1, m.len() as int);
        digit_prefix_len(frac) == frac.len() && (k >= 1 || frac.len() >= 1)
    } else {
        false
    }
}

/// `x` is an exponent body: an optional sign followed by one or more
/// digits.
pub open spec fn is_exponent(x: Seq<char>) -> bool {
    let y = skip_sign(x);
    y.len() >= 1 && digit_prefix_len(y) == y.len()
}

/// `b` is a mantissa, optionally followed by `e`/`E` and an exponent.
pub open spec fn is_decimal_body(b: Seq<char>) -> bool {
    let i = e_split(b);
    is_mantissa(b.subrange(0, i)) && (i == b.len() || is_exponent(
        b.subrange(i + 1, b.len() as int),
    ))
}

/// `s` matches the floating-point literal grammar.
pub open spec fn is_float_literal(s: Seq<char>) -> bool {
    let b = skip_sign(s);
    is_inf(b) || is_infinity(b) || is_nan(b) || is_decimal_body(b)
}

/// `e_split` is the position of the first `e` or `E`.
proof fn lemma_e_split(s: Seq<char>, k: int)
    requires
        0 <= k <= s.len(),
        forall|j: int| 0 <= j < k ==> s[j] != 'e' && s[j] != 'E',
        k == s.len() || s[k] == 'e' || s[k] == 'E',
    ensures
        e_split(s) == k,
    decreases s.len(),
{
    if s.len() == 0 {
    } else if k == 0 {
    } else {
        lemma_e_split(s.drop_first(), k - 1);
    }
}

/// The number of leading digits of `v` at or after `from`, found by
/// scanning.
fn scan_digits(v: &Vec<char>, from: usize) -> (r: usize)
    requires
        from <= v@.len(),
    ensures
        from <= r <= v@.len(),
        digit_prefix_len(v@.subrange(from as int, v@.len() as int)) == r - from,
{
    let n = v.len();
    let mut i = from;
    while i < n && is_digit_char(v[i])
        invariant
            from <= i <= n,
            n == v@.len(),
            forall|k: int| from <= k < i ==> is_digit(v@[k]),
        decreases n - i,
    {
        i = i + 1;
    }
    proof {
        let sub = v@.subrange(from as int, n as int);
        lemma_digit_prefix_len(sub, i - from);
    }
    i
}

/// Whether the characters of `v` from `from` onward form a mantissa.
fn check_mantissa(v: &Vec<char>, from: usize) -> (r: bool)
    requires
        from <= v@.len(),
    ensures
        r == is_mantissa(v@.subrange(from as int, v@.len() as int)),
{
    let ghost m = v@.subrange(from as int, v@.len() as int);
    let n = v.len();
    let d = scan_digits(v, from);
    if d == n {
        d > from
    } else if v[d] == '.' {
        proof {
            assert(m[d - from] == '.');
        }
        let f = scan_digits(v, d + 1);
        proof {
            let frac = m.subrange(d - from + 1, m.len() as int);
            assert(frac =~= v@.subrange(d + 1, n as int));
        }
        f == n && (d > from || f > d + 1)
    } else {
        proof {
            assert(m[digit_prefix_len(m)] != '.');
        }
        false
    }
}

/// Whether the characters of `v` from `from` onward form an exponent
/// body.
fn check_exponent(v: &Vec<char>, from: usize) -> (r: bool)
    requires
        from <= v@.len(),
    ensures
        r == is_exponent(v@.subrange(from as int, v@.len() as int)),
{
    let ghost x = v@.subrange(from as int, v@.len() as int);
    let n = v.len();
    let start = if from < n && (v[from] == '+' || v[from] == '-') {
        from + 1
    } else {
        from
    };
    proof {
        assert(skip_sign(x) =~= v@.subrange(start as int, n as int));
    }
    let d = scan_digits(v, start);
    start < n && d == n
}

/// Case-insensitive check of a single character.
fn eq_ci(c: char, lower: char, upper: char) -> (r: bool)
    ensures
        r == is_letter_ci(c, lower, upper),
{
    c == lower || c == upper
}

/// Whether the characters of `v` from `from` onward are `inf`,
/// `infinity` or `nan`, case-insensitively.
fn check_special(v: &Vec<char>, from: usize) -> (r: bool)
    requires
        from <= v@.len(),
    ensures
        ({
            let b = v@.subrange(from as int, v@.len() as int);
            r == (is_inf(b) || is_infinity(b) || is_nan(b))
        }),
{
    let n = v.len();
    let len = n - from;
    if len == 3 {
        (eq_ci(v[from], 'i', 'I') && eq_ci(v[from + 1], 'n', 'N') && eq_ci(v[from + 2], 'f', 'F'))
            || (eq_ci(v[from], 'n', 'N') && eq_ci(v[from + 1], 'a', 'A') && eq_ci(
            v[from + 2],
            'n',
            'N',
        ))
    } else if len == 8 {
        eq_ci(v[from], 'i', 'I') && eq_ci(v[from + 1], 'n', 'N') && eq_ci(v[from + 2], 'f', 'F')
            && eq_ci(v[from + 3], 'i', 'I') && eq_ci(v[from + 4], 'n', 'N') && eq_ci(
            v[from + 5],
            'i',
            'I',
        ) && eq_ci(v[from + 6], 't', 'T') && eq_ci(v[from + 7], 'y', 'Y')
    } else {
        false
    }
}

/// Whether `v` matches the floating-point literal grammar.
fn is_float_chars(v: &Vec<char>) -> (r: bool)
    ensures
        r == is_float_literal(v@),
{
    let n = v.len();
    let body = if n > 0 && (v[0] == '+' || v[0] == '-') {
        1
    } else {
        0
    };
    let ghost b = skip_sign(v@);
    proof {
        assert(b =~= v@.subrange(body as int, n as int));
    }
    if check_special(v, body) {
        return true;
    }
    // Find the first `e`/`E` at or after `body`.
    let mut i: usize = body;
    while i < n && !(v[i] == 'e' || v[i] == 'E')
        invariant
            body <= i <= n,
            n == v@.len(),
            forall|k: int| body <= k < i ==> v@[k] != 'e' && v@[k] != 'E',
        decreases n - i,
    {
        i = i + 1;
    }
    proof {
        lemma_e_split(b, i - body);
    }
    let ghost mant = b.subrange(0, e_split(b));
    proof {
        assert(mant =~= v@.subrange(body as int, i as int));
    }
    // The mantissa check must stop at `i`, so hand it only that prefix.
    let mut head: Vec<char> = Vec::new();
    let mut j: usize = body;
    while j < i
        invariant
            body <= j <= i <= n,
            n == v@.len(),
            head@ == v@.subrange(body as int, j as int),
        decreases i - j,
    {
        head.push(v[j]);
        assert(head@ =~= v@.subrange(body as int, j + 1 as int));
        j = j + 1;
    }
    proof {
        assert(head@.subrange(0, head@.len() as int) =~= head@);
    }
    if !check_mantissa(&head, 0) {
        return false;
    }
    if i == n {
        proof {
            assert(e_split(b) == b.len());
        }
        return true;
    }
    proof {
        assert(b.subrange(e_split(b) + 1, b.len() as int) =~= v@.subrange(i + 1, n as int));
    }
    check_exponent(v, i + 1)
}

/// A numeric value: the text of a floating-point literal, kept verbatim.
#[derive(Debug)]
pub struct Number {
    text: String,
}

impl View for Number {
    type V = Seq<char>;

    closed spec fn view(&self) -> Seq<char> {
        self.text@
    }
}

impl Number {
    /// Every `Number` holds text that matches the literal grammar.
    pub open spec fn wf(&self) -> bool {
        is_float_literal(self@)
    }

    /// Wrap `text` if it matches the floating-point literal grammar.
    pub fn from_text(text: String) -> (r: Option<Number>)
        ensures
            match r {
                Some(n) => is_float_literal(text@) && n@ == text@ && n.wf(),
                None => !is_float_literal(text@),
            },
    {
        let v = crate::text::chars_of(text.as_str());
        if is_float_chars(&v) {
            Some(Number { text })
        } else {
            None
        }
    }

    /// The literal text of the number, unchanged from construction.
    pub fn as_text(&self) -> (r: &str)
        ensures
            r@ == self@,
    {
        self.text.as_str()
    }
}

impl Clone for Number {
    fn clone(&self) -> (r: Self)
        ensures
            r@ == self@,
            r == *self,
    {
        Number { text: self.text.clone() }
    }
}

} // verus!
