//! The extraction engine: matching a capture pattern against a line and
//! collecting the captured substrings.
//!
//! Matching itself is done by the `regex` crate. What it computes is a
//! function of the pattern and the input alone, so its results are given
//! names here — [`regex_ok`], [`regex_caps`], [`regex_caps_len`] — and
//! everything downstream is specified and verified against those names.

use vstd::prelude::*;

use crate::error::Error;
use vstd::string::StringExecFns;

verus! {

/// Whether `pattern` is a valid pattern, i.e. whether `regex::Regex::new`
/// accepts it.
pub uninterp spec fn regex_ok(pattern: Seq<char>) -> bool;

/// The number of capture groups of a valid pattern, counting the implicit
/// group for the whole match: what `regex::Regex::captures_len` returns.
pub uninterp spec fn regex_caps_len(pattern: Seq<char>) -> nat;

/// The captured substrings of the first match of `pattern` in `input`,
/// or `None` where the pattern matches nowhere. Index 0 is the whole
/// matched span; a group that did not participate in the match appears
/// as the empty string.
pub uninterp spec fn regex_caps(pattern: Seq<char>, input: Seq<char>) -> Option<Seq<Seq<char>>>;

/// Relies on `regex::Regex::new` and `regex::Regex::captures`: whether a
/// pattern compiles depends on the pattern alone; a successful match
/// yields one sub-match per capture group of the pattern (index 0 the
/// whole match, first match only), and both the presence of a match and
/// the matched text depend on the pattern and the haystack alone. The
/// group count, `regex::Regex::captures_len`, counts the implicit whole-
/// match group and so is at least 1.
///
/// Compilation and matching share this one body because what `captures`
/// returns can only be named as a function of the pattern's text, never
/// of the compiled value, which stays opaque here.
#[verifier::external_body]
fn regex_captures(pattern: &str, input: &str) -> (r: Result<Option<Vec<String>>, String>)
    ensures
        r is Ok <==> regex_ok(pattern@),
        r matches Ok(c) ==> (c is Some <==> regex_caps(pattern@, input@) is Some),
        r matches Ok(c) && c matches Some(v) ==> v@.map_values(|s: String| s@) == regex_caps(
            pattern@,
            input@,
        ).unwrap() && v@.len() == regex_caps_len(pattern@) && v@.len() >= 1,
{
    match regex::Regex::new(pattern) {
        Err(e) => Err(e.to_string()),
        Ok(re) => Ok(re.captures(input).map(|caps| {
            caps.iter().map(|m| match m {
                Some(sub) => sub.as_str().to_string(),
                None => String::new(),
            }).collect()
        })),
    }
}

/// The result of one extraction: the captured substrings, index 0 the
/// whole match. Ephemeral; produced per parse call.
#[derive(Debug)]
pub struct ExtractionResult {
    /// Captured groups of the match, dense and index-addressable.
    pub captures: Vec<String>,
}

impl View for ExtractionResult {
    type V = Seq<Seq<char>>;

    open spec fn view(&self) -> Seq<Seq<char>> {
        self.captures@.map_values(|s: String| s@)
    }
}

impl Clone for ExtractionResult {
    fn clone(&self) -> (r: Self)
        ensures
            r@ == self@,
    {
        let captures = self.captures.clone();
        proof {
            assert forall|i: int| 0 <= i < self.captures@.len() implies captures@[i]
                == self.captures@[i] by {
                assert(vstd::pervasive::cloned::<String>(self.captures@[i], captures@[i]));
            }
            assert(captures@ =~= self.captures@);
        }
        ExtractionResult { captures }
    }
}

/// Extract captures from `input` using the pattern `pattern`.
///
/// Fails with a parse error if the pattern is invalid or if it matches
/// nowhere in `input`; there is no partial result. On success the
/// captures list has exactly one entry per group of the pattern plus the
/// whole match at index 0.
pub fn extract(pattern: &str, input: &str) -> (r: Result<ExtractionResult, Error>)
    ensures
        r is Ok <==> regex_ok(pattern@) && regex_caps(pattern@, input@) is Some,
        r matches Err(e) ==> e is ParseError,
        r matches Ok(ex) ==> regex_caps(pattern@, input@) matches Some(cs) && ex@ == cs
            && ex@.len() == regex_caps_len(pattern@) && ex@.len() >= 1,
{
    match regex_captures(pattern, input) {
        Err(e) => Err(
            Error::ParseError(String::from_str("Invalid regex pattern: ").concat(e.as_str())),
        ),
        Ok(None) => Err(Error::ParseError(String::from_str("No match found"))),
        Ok(Some(captures)) => Ok(ExtractionResult { captures }),
    }
}

} // verus!
