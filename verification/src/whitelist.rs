//! The error whitelist: classifying an engine error message as a known,
//! acceptable limitation or a genuine unexpected failure.
//!
//! Patterns are exact substrings (case-sensitive) or regular
//! expressions; a regular expression that does not compile counts as
//! never matching, so a malformed pattern surfaces errors rather than
//! hiding them.

use vstd::prelude::*;

use crate::numfmt::spec_str_views;

verus! {

/// Error pattern matching strategies.
#[derive(Debug, Clone)]
pub enum ErrorPattern {
    /// The error message contains this exact substring.
    Contains(&'static str),
    /// The error message matches this regular expression.
    RegexMatch(&'static str),
}

/// The mathematical model of a pattern.
pub ghost enum ErrorPatternModel {
    Contains(Seq<char>),
    RegexMatch(Seq<char>),
}

impl View for ErrorPattern {
    type V = ErrorPatternModel;

    open spec fn view(&self) -> ErrorPatternModel {
        match self {
            ErrorPattern::Contains(s) => ErrorPatternModel::Contains(s@),
            ErrorPattern::RegexMatch(s) => ErrorPatternModel::RegexMatch(s@),
        }
    }
}

/// Whether `needle` occurs as a contiguous run inside `hay`.
pub open spec fn spec_contains_sub(hay: Seq<char>, needle: Seq<char>) -> bool {
    exists|i: int|
        0 <= i <= hay.len() - needle.len() && #[trigger] hay.subrange(i, i + needle.len() as int)
            == needle
}

/// Relies on `str::contains`: whether the pattern string occurs as a
/// substring (a UTF-8 match always falls on character boundaries).
#[verifier::external_body]
fn str_contains(hay: &str, needle: &str) -> (r: bool)
    ensures
        r == spec_contains_sub(hay@, needle@),
{
    hay.contains(needle)
}

/// Whether `regex::Regex::new` accepts the pattern.
pub uninterp spec fn regex_ok(pattern: Seq<char>) -> bool;

/// Whether the compiled regular expression for `pattern` matches
/// somewhere inside `text`: the result of `regex::Regex::is_match`,
/// which depends on the pattern and the text alone.
pub uninterp spec fn regex_match(pattern: Seq<char>, text: Seq<char>) -> bool;

#[verifier::external_type_specification]
#[verifier::external_body]
pub struct ExRegex(regex::Regex);

/// A compiled regular expression remembering its pattern.
pub struct CompiledRegex {
    inner: regex::Regex,
    pattern: Ghost<Seq<char>>,
}

impl CompiledRegex {
    /// The pattern this expression was compiled from.
    pub closed spec fn pattern(&self) -> Seq<char> {
        self.pattern@
    }
}

/// Relies on `regex::Regex::new`: compiles exactly the patterns that
/// `regex_ok` names; the compiled form remembers its pattern.
#[verifier::external_body]
fn compile_regex(pattern: &str) -> (r: Option<CompiledRegex>)
    ensures
        r is Some <==> regex_ok(pattern@),
        r is Some ==> r.unwrap().pattern() == pattern@,
{
    match regex::Regex::new(pattern) {
        Ok(inner) => Some(CompiledRegex { inner, pattern: Ghost(pattern@) }),
        Err(_) => None,
    }
}

/// Relies on `regex::Regex::is_match`: the match result named by
/// `regex_match`, a function of the pattern and the text.
#[verifier::external_body]
fn compiled_regex_is_match(re: &CompiledRegex, text: &str) -> (r: bool)
    ensures
        r == regex_match(re.pattern(), text@),
{
    re.inner.is_match(text)
}

/// The whitelist, in order: known false positives (divide by zero,
/// uncoercible arithmetic, unsigned cast range errors, timestamp
/// arithmetic) and known engine issues (non-unique projection names).
pub open spec fn spec_error_patterns() -> Seq<ErrorPatternModel> {
    seq![
        ErrorPatternModel::Contains("Arrow error: Divide by zero error"@),
        ErrorPatternModel::RegexMatch(
            "Error during planning: Cannot coerce arithmetic expression (.+) to valid types"@,
        ),
        ErrorPatternModel::RegexMatch(
            "(?i)Query execution failed: Arrow error: Cast error: value of (.+) is out of range uint(.+)"@,
        ),
        ErrorPatternModel::Contains("Invalid timestamp arithmetic operation"@),
        ErrorPatternModel::Contains("Projections require unique expression names"@),
    ]
}

/// The whitelist patterns, in order.
pub fn error_patterns() -> (r: Vec<ErrorPattern>)
    ensures
        r@.map_values(|p: ErrorPattern| p@) == spec_error_patterns(),
{
    let mut v: Vec<ErrorPattern> = Vec::new();
    v.push(ErrorPattern::Contains("Arrow error: Divide by zero error"));
    v.push(
        ErrorPattern::RegexMatch(
            "Error during planning: Cannot coerce arithmetic expression (.+) to valid types",
        ),
    );
    v.push(
        ErrorPattern::RegexMatch(
            "(?i)Query execution failed: Arrow error: Cast error: value of (.+) is out of range uint(.+)",
        ),
    );
    v.push(ErrorPattern::Contains("Invalid timestamp arithmetic operation"));
    v.push(ErrorPattern::Contains("Projections require unique expression names"));
    assert(v@.map_values(|p: ErrorPattern| p@) =~= spec_error_patterns());
    v
}

/// Whether one pattern accepts the message: substring containment for
/// exact patterns; for regex patterns, a successful compile and a
/// match (a pattern that does not compile never matches).
pub open spec fn spec_pattern_matches(p: ErrorPatternModel, msg: Seq<char>) -> bool {
    match p {
        ErrorPatternModel::Contains(s) => spec_contains_sub(msg, s),
        ErrorPatternModel::RegexMatch(s) => regex_ok(s) && regex_match(s, msg),
    }
}

/// Whether any whitelist pattern accepts the message.
pub open spec fn spec_is_whitelisted(msg: Seq<char>) -> bool {
    exists|i: int|
        0 <= i < spec_error_patterns().len() && spec_pattern_matches(
            #[trigger] spec_error_patterns()[i],
            msg,
        )
}

fn pattern_matches(p: &ErrorPattern, msg: &str) -> (r: bool)
    ensures
        r == spec_pattern_matches(p@, msg@),
{
    match p {
        ErrorPattern::Contains(s) => str_contains(msg, s),
        ErrorPattern::RegexMatch(s) => {
            match compile_regex(s) {
                Some(re) => compiled_regex_is_match(&re, msg),
                None => false,
            }
        },
    }
}

/// Check if an error message matches any pattern in the whitelist.
pub fn is_error_whitelisted(error_msg: &str) -> (r: bool)
    ensures
        r == spec_is_whitelisted(error_msg@),
{
    let patterns = error_patterns();
    let ghost models = patterns@.map_values(|p: ErrorPattern| p@);
    let mut i: usize = 0;
    while i < patterns.len()
        invariant
            i <= patterns@.len(),
            models == patterns@.map_values(|p: ErrorPattern| p@),
            models == spec_error_patterns(),
            forall|j: int| 0 <= j < i ==> !spec_pattern_matches(#[trigger] models[j], error_msg@),
        decreases patterns@.len() - i,
    {
        if pattern_matches(&patterns[i], error_msg) {
            assert(spec_pattern_matches(spec_error_patterns()[i as int], error_msg@));
            return true;
        }
        i += 1;
    }
    false
}

/// The text form of one configured pattern.
pub open spec fn spec_pattern_text(p: ErrorPatternModel) -> Seq<char> {
    match p {
        ErrorPatternModel::Contains(s) => "Exact: "@ + s,
        ErrorPatternModel::RegexMatch(s) => "Regex: "@ + s,
    }
}

/// Get a list of all configured error patterns for logging.
pub fn get_configured_patterns() -> (r: Vec<String>)
    ensures
        spec_str_views(r@) == spec_error_patterns().map_values(
            |p: ErrorPatternModel| spec_pattern_text(p),
        ),
{
    proof {
        reveal_strlit("Exact: ");
        reveal_strlit("Regex: ");
    }
    let patterns = error_patterns();
    let ghost models = patterns@.map_values(|p: ErrorPattern| p@);
    let ghost texts = models.map_values(|p: ErrorPatternModel| spec_pattern_text(p));
    let mut out: Vec<String> = Vec::new();
    let mut i: usize = 0;
    while i < patterns.len()
        invariant
            i <= patterns@.len(),
            models == patterns@.map_values(|p: ErrorPattern| p@),
            texts == models.map_values(|p: ErrorPatternModel| spec_pattern_text(p)),
            out@.len() == i,
            forall|j: int| 0 <= j < i ==> #[trigger] out@[j]@ == texts[j],
        decreases patterns@.len() - i,
    {
        proof {
            reveal_strlit("Exact: ");
            reveal_strlit("Regex: ");
        }
        let line = match &patterns[i] {
            ErrorPattern::Contains(s) => {
                let mut t = "Exact: ".to_owned();
                t.append(s);
                t
            },
            ErrorPattern::RegexMatch(s) => {
                let mut t = "Regex: ".to_owned();
                t.append(s);
                t
            },
        };
        out.push(line);
        i += 1;
    }
    proof {
        assert forall|j: int| 0 <= j < out@.len() implies #[trigger] spec_str_views(out@)[j]
            == texts[j] by {
            assert(out@[j]@ == texts[j]);
        }
        assert(spec_str_views(out@) =~~= texts);
    }
    out
}

} // verus!
