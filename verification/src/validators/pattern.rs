//! Pattern validator: `must_not_match` / `must_match` regular expressions
//! searched for in the run's output.

use vstd::prelude::*;
use vstd::utf8::encode_utf8;
use crate::text::{decimal, push_decimal};
use super::{failed_view, passed_view, ResultView, RunContext, ValidationResult};

verus! {

#[verifier::external_type_specification]
#[verifier::external_body]
pub struct ExRegex(regex::Regex);

/// What `regex::Regex::new` reports for `pattern`: `None` when the pattern
/// compiles, else the message of the error it returns.
pub uninterp spec fn regex_compile_error(pattern: Seq<char>) -> Option<Seq<char>>;

/// The match `regex::Regex::find` reports for the regex compiled from
/// `pattern` in `haystack`: the byte offset at which the leftmost-first
/// match starts and the text it matched, or `None` when nothing matches.
pub uninterp spec fn regex_first_match(pattern: Seq<char>, haystack: Seq<char>) -> Option<
    (usize, Seq<char>),
>;

/// A compiled regular expression together with the pattern it was
/// compiled from.
struct CompiledPattern {
    source: String,
    regex: regex::Regex,
}

impl CompiledPattern {
    closed spec fn source_view(self) -> Seq<char> {
        self.source@
    }
}

/// Compiles `pattern` with `regex::Regex::new`.
///
/// Trusted: the result is `Ok` exactly when `Regex::new` accepts the pattern
/// (`regex_compile_error` is `None`), and the error carries the message of
/// the `regex::Error` it returns otherwise.
#[verifier::external_body]
fn compile(pattern: &str) -> (r: Result<CompiledPattern, String>)
    ensures
        match r {
            Ok(p) => regex_compile_error(pattern@) is None && p.source_view() == pattern@,
            Err(e) => regex_compile_error(pattern@) == Some(e@),
        },
{
    match regex::Regex::new(pattern) {
        Ok(regex) => Ok(CompiledPattern { source: pattern.to_string(), regex }),
        Err(e) => Err(e.to_string()),
    }
}

/// The first match of `p` in `haystack`, by `regex::Regex::find`, as the
/// byte offset where it starts and the text it matched.
///
/// Trusted: the result is `regex_first_match` of the pattern and the
/// haystack; as `Match::start` and `Match::as_str` document, the matched
/// text is the haystack's bytes from the start offset on.
#[verifier::external_body]
fn find_first(p: &CompiledPattern, haystack: &str) -> (r: Option<(usize, String)>)
    ensures
        match r {
            Some((start, m)) => {
                &&& regex_first_match(p.source_view(), haystack@) == Some((start, m@))
                &&& start + encode_utf8(m@).len() <= encode_utf8(haystack@).len()
                &&& encode_utf8(haystack@).subrange(
                    start as int,
                    start + encode_utf8(m@).len(),
                ) == encode_utf8(m@)
            },
            None => regex_first_match(p.source_view(), haystack@) is None,
        },
{
    match p.regex.find(haystack) {
        Some(m) => Some((m.start(), m.as_str().to_string())),
        None => None,
    }
}

/// Whether `p` matches anywhere in `haystack`, by `regex::Regex::is_match`.
///
/// Trusted: as its documentation states, it is true exactly when there is a
/// match, that is when `find` reports one.
#[verifier::external_body]
fn matches_anywhere(p: &CompiledPattern, haystack: &str) -> (r: bool)
    ensures
        r == regex_first_match(p.source_view(), haystack@) is Some,
{
    p.regex.is_match(haystack)
}

/// `description`, or `fallback` where the description is empty.
pub open spec fn described(description: Seq<char>, fallback: Seq<char>) -> Seq<char> {
    if description.len() == 0 {
        fallback
    } else {
        description
    }
}

/// The first `n` characters of `s`, or all of it when it is shorter.
pub open spec fn first_chars(s: Seq<char>, n: nat) -> Seq<char> {
    if s.len() <= n {
        s
    } else {
        s.take(n as int)
    }
}

/// The view of an optional text.
pub open spec fn opt_view(o: Option<&str>) -> Option<Seq<char>> {
    match o {
        Some(s) => Some(s@),
        None => None,
    }
}

/// Whether a forbidden pattern, if given, compiles and matches nowhere in
/// `output`.
pub open spec fn forbidden_absent(output: Seq<char>, must_not_match: Option<Seq<char>>) -> bool {
    match must_not_match {
        None => true,
        Some(p) => regex_compile_error(p) is None && regex_first_match(p, output) is None,
    }
}

/// Whether a required pattern, if given, compiles and matches somewhere in
/// `output`.
pub open spec fn required_present(output: Seq<char>, must_match: Option<Seq<char>>) -> bool {
    match must_match {
        None => true,
        Some(p) => regex_compile_error(p) is None && regex_first_match(p, output) is Some,
    }
}

/// The result once the forbidden pattern, if any, has not fired: the
/// required pattern, if any, must match somewhere in `output`.
pub open spec fn required_result(
    output: Seq<char>,
    name: Seq<char>,
    must_match: Option<Seq<char>>,
    description: Seq<char>,
) -> ResultView {
    match must_match {
        None => passed_view(name, described(description, name), "assert"@),
        Some(p) => match regex_compile_error(p) {
            Some(e) => failed_view(name, description, "assert"@, "Invalid regex: "@ + e),
            None => if regex_first_match(p, output) is Some {
                passed_view(name, described(description, name), "assert"@)
            } else {
                failed_view(
                    name,
                    described(description, "must_match: "@ + p),
                    "assert"@,
                    "Required pattern not found in output."@,
                )
            },
        },
    }
}

/// The result of checking `output` against a forbidden and a required
/// pattern: the forbidden one is tried first and fails the check on its
/// first match; an invalid pattern fails the check with the compiler's
/// message.
pub open spec fn spec_validate(
    output: Seq<char>,
    name: Seq<char>,
    must_not_match: Option<Seq<char>>,
    must_match: Option<Seq<char>>,
    description: Seq<char>,
) -> ResultView {
    match must_not_match {
        None => required_result(output, name, must_match, description),
        Some(p) => match regex_compile_error(p) {
            Some(e) => failed_view(name, description, "assert"@, "Invalid regex: "@ + e),
            None => match regex_first_match(p, output) {
                Some((start, m)) => failed_view(
                    name,
                    described(description, "must_not_match: "@ + p),
                    "assert"@,
                    "Forbidden pattern found at position "@ + decimal(start as nat) + ": '"@
                        + first_chars(m, 50) + "'"@,
                ),
                None => required_result(output, name, must_match, description),
            },
        },
    }
}

/// The failed result for a pattern the regex compiler rejected with
/// `message`.
pub fn invalid_regex(name: &str, description: &str, message: &str) -> (r: ValidationResult)
    ensures
        r@ == failed_view(name@, description@, "assert"@, "Invalid regex: "@ + message@),
{
    let mut details = String::from_str("Invalid regex: ");
    details.append(message);
    ValidationResult::fail(name, description, "assert", details.as_str())
}

/// The failed result for a match of the forbidden `pattern` that starts at
/// byte `start` of the output and matched `matched`: the details quote at
/// most its first 50 characters.
pub fn forbidden_found(
    name: &str,
    pattern: &str,
    description: &str,
    start: usize,
    matched: &str,
) -> (r: ValidationResult)
    ensures
        r@ == failed_view(
            name@,
            described(description@, "must_not_match: "@ + pattern@),
            "assert"@,
            "Forbidden pattern found at position "@ + decimal(start as nat) + ": '"@ + first_chars(
                matched@,
                50,
            ) + "'"@,
        ),
{
    let total = matched.unicode_len();
    let take = if total < 50 {
        total
    } else {
        50
    };
    let snippet = matched.substring_char(0, take);
    let mut details = String::from_str("Forbidden pattern found at position ");
    push_decimal(&mut details, start as u64);
    details.append(": '");
    details.append(snippet);
    details.append("'");
    proof {
        assert(snippet@ == first_chars(matched@, 50));
    }
    if description.is_empty() {
        let mut text = String::from_str("must_not_match: ");
        text.append(pattern);
        ValidationResult::fail(name, text.as_str(), "assert", details.as_str())
    } else {
        ValidationResult::fail(name, description, "assert", details.as_str())
    }
}

/// The failed result when the required `pattern` matches nowhere in the
/// output.
pub fn required_missing(name: &str, pattern: &str, description: &str) -> (r: ValidationResult)
    ensures
        r@ == failed_view(
            name@,
            described(description@, "must_match: "@ + pattern@),
            "assert"@,
            "Required pattern not found in output."@,
        ),
{
    if description.is_empty() {
        let mut text = String::from_str("must_match: ");
        text.append(pattern);
        ValidationResult::fail(name, text.as_str(), "assert", "Required pattern not found in output.")
    } else {
        ValidationResult::fail(name, description, "assert", "Required pattern not found in output.")
    }
}

fn check_required(
    output: &str,
    name: &str,
    must_match: Option<&str>,
    description: &str,
) -> (r: ValidationResult)
    ensures
        r@ == required_result(output@, name@, opt_view(must_match), description@),
{
    if let Some(pattern) = must_match {
        match compile(pattern) {
            Ok(re) => {
                if !matches_anywhere(&re, output) {
                    return required_missing(name, pattern, description);
                }
            },
            Err(e) => {
                return invalid_regex(name, description, e.as_str());
            },
        }
    }
    let text = if description.is_empty() {
        name
    } else {
        description
    };
    ValidationResult::pass(name, text, "assert")
}

/// Checks the run's output against a forbidden pattern (`must_not_match`)
/// and a required one (`must_match`), in that order.
pub fn validate(
    ctx: &RunContext,
    name: &str,
    must_not_match: Option<&str>,
    must_match: Option<&str>,
    description: &str,
) -> (r: ValidationResult)
    ensures
        r@ == spec_validate(
            ctx.output@,
            name@,
            opt_view(must_not_match),
            opt_view(must_match),
            description@,
        ),
        r.passed == (forbidden_absent(ctx.output@, opt_view(must_not_match)) && required_present(
            ctx.output@,
            opt_view(must_match),
        )),
        r.clause_name@ == name@,
        r.clause_type@ == "assert"@,
{
    proof {
        crate::laws::pattern_verdict(
            ctx.output@,
            name@,
            opt_view(must_not_match),
            opt_view(must_match),
            description@,
        );
    }
    let output = ctx.output.as_str();
    if let Some(pattern) = must_not_match {
        match compile(pattern) {
            Ok(re) => {
                if let Some((start, matched)) = find_first(&re, output) {
                    return forbidden_found(name, pattern, description, start, matched.as_str());
                }
            },
            Err(e) => {
                return invalid_regex(name, description, e.as_str());
            },
        }
    }
    check_required(output, name, must_match, description)
}

} // verus!
