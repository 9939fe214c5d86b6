//! The parsing pipeline: pattern extraction composed with expression
//! resolution, yielding one [`Point`](crate::data::Point) per matching
//! line.

pub mod expression;
pub mod extraction;

use vstd::prelude::*;

use crate::data::{Message, Point};
use crate::error::Error;
use crate::number::{is_float_literal, Number};
use crate::text::trimmed;
use expression::{spec_eval, spec_parse_expr, Expr, SpecExpr};
use extraction::{extract, regex_caps, regex_ok};

verus! {

/// The numeric text a resolved value-expression yields, or `None` where
/// it cannot be read as a number.
pub open spec fn spec_value_text(e: SpecExpr) -> Option<Seq<char>> {
    match e {
        SpecExpr::Value(t) => Some(t),
        SpecExpr::Str(t) => if is_float_literal(t) {
            Some(t)
        } else {
            None
        },
        SpecExpr::Ref(_) => None,
    }
}

/// The text a resolved expression renders to, or `None` for an
/// unresolved reference.
pub open spec fn spec_plain_text(e: SpecExpr) -> Option<Seq<char>> {
    match e {
        SpecExpr::Ref(_) => None,
        SpecExpr::Value(t) => Some(t),
        SpecExpr::Str(t) => Some(t),
    }
}

/// The numeric text the value-expression produces against the given
/// captures, or `None` where resolution or conversion fails.
pub open spec fn spec_point_value(value_expr: Seq<char>, caps: Seq<Seq<char>>) -> Option<
    Seq<char>,
> {
    match spec_eval(spec_parse_expr(value_expr), caps) {
        Some(e) => spec_value_text(e),
        None => None,
    }
}

/// The label the label-expression produces against the given captures:
/// `None` for failure, `Some(None)` for the empty expression (which is
/// never evaluated), `Some(Some(text))` otherwise.
pub open spec fn spec_point_label(label_expr: Seq<char>, caps: Seq<Seq<char>>) -> Option<
    Option<Seq<char>>,
> {
    if label_expr.len() == 0 {
        Some(None)
    } else {
        match spec_eval(spec_parse_expr(label_expr), caps) {
            Some(e) => match spec_plain_text(e) {
                Some(t) => Some(Some(t)),
                None => None,
            },
            None => None,
        }
    }
}

/// An empty label-expression is a sentinel for "no label": it is never
/// resolved against the captures, and the produced point is unlabeled,
/// whatever the captures hold.
pub proof fn lemma_empty_label_expr_never_resolves(caps: Seq<Seq<char>>)
    ensures
        spec_point_label(Seq::<char>::empty(), caps) == Some(Option::<Seq<char>>::None),
{
}

/// Pattern-based line parser: a capture pattern, a label-expression and a
/// value-expression, each replaceable at any time.
pub struct Parser {
    pub pattern_str: String,
    pub label_expr_str: String,
    pub value_expr_str: String,
}

impl Parser {
    pub fn new(pattern: String, name_expr: String, value_expr: String) -> (r: Self)
        ensures
            r.pattern_str@ == pattern@,
            r.label_expr_str@ == name_expr@,
            r.value_expr_str@ == value_expr@,
    {
        Parser { pattern_str: pattern, label_expr_str: name_expr, value_expr_str: value_expr }
    }

    /// Parse one message: extract captures from its text, resolve the
    /// value-expression to a number, and, for a non-empty
    /// label-expression, resolve that to the point's label. Extraction
    /// and resolution failures propagate unchanged; nothing is
    /// substituted.
    pub fn parse(&self, message: &Message) -> (r: Result<Point, Error>)
        ensures
            !regex_ok(self.pattern_str@) ==> r matches Err(Error::ParseError(_)),
            regex_ok(self.pattern_str@) ==> match regex_caps(self.pattern_str@, message.text@) {
                None => r matches Err(Error::ParseError(_)),
                Some(cs) => match (
                    spec_point_value(self.value_expr_str@, cs),
                    spec_point_label(self.label_expr_str@, cs),
                ) {
                    (Some(v), Some(lab)) => r matches Ok(p) && p.timestamp == message.timestamp
                        && p.value@ == v && (match (p.label, lab) {
                        (Some(a), Some(b)) => a@ == b,
                        (None, None) => true,
                        _ => false,
                    }),
                    _ => r matches Err(Error::ParseError(_)),
                },
            },
    {
        let extraction = match extract(self.pattern_str.as_str(), message.text.as_str()) {
            Ok(e) => e,
            Err(e) => {
                return Err(e);
            },
        };
        let value_expr = match Expr::new(self.value_expr_str.as_str()).eval(&extraction) {
            Ok(e) => e,
            Err(e) => {
                return Err(e);
            },
        };
        let value = match value_expr.to_number() {
            Ok(n) => n,
            Err(e) => {
                return Err(e);
            },
        };
        let point = Point::new(message.timestamp, value);
        if !self.label_expr_str.as_str().is_empty() {
            let label_expr = match Expr::new(self.label_expr_str.as_str()).eval(&extraction) {
                Ok(e) => e,
                Err(e) => {
                    return Err(e);
                },
            };
            let label = match label_expr.to_text() {
                Ok(s) => s,
                Err(e) => {
                    return Err(e);
                },
            };
            Ok(point.with_label(label))
        } else {
            Ok(point)
        }
    }

    /// Whether a line, once trimmed of whitespace, holds anything: the
    /// test a line-framer uses to decide that a read buffer is one
    /// logical record.
    pub fn is_complete(&self, line: &str) -> (r: bool)
        ensures
            r == (trimmed(line@).len() != 0),
    {
        !crate::text::trim_str(line).is_empty()
    }

    pub fn pattern(&self) -> (r: &str)
        ensures
            r@ == self.pattern_str@,
    {
        self.pattern_str.as_str()
    }

    pub fn label_expr(&self) -> (r: &str)
        ensures
            r@ == self.label_expr_str@,
    {
        self.label_expr_str.as_str()
    }

    pub fn value_expr(&self) -> (r: &str)
        ensures
            r@ == self.value_expr_str@,
    {
        self.value_expr_str.as_str()
    }

    pub fn set_pattern(&mut self, pattern: String)
        ensures
            final(self).pattern_str@ == pattern@,
            final(self).label_expr_str == old(self).label_expr_str,
            final(self).value_expr_str == old(self).value_expr_str,
    {
        self.pattern_str = pattern;
    }

    pub fn set_label_expr(&mut self, label_expr: String)
        ensures
            final(self).label_expr_str@ == label_expr@,
            final(self).pattern_str == old(self).pattern_str,
            final(self).value_expr_str == old(self).value_expr_str,
    {
        self.label_expr_str = label_expr;
    }

    pub fn set_value_expr(&mut self, value_expr: String)
        ensures
            final(self).value_expr_str@ == value_expr@,
            final(self).pattern_str == old(self).pattern_str,
            final(self).label_expr_str == old(self).label_expr_str,
    {
        self.value_expr_str = value_expr;
    }
}

} // verus!
