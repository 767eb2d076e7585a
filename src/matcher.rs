//! The five match methods, and the parser that turns a method alias and a
//! pattern into a validated matcher.
use vstd::prelude::*;
use crate::error::{ConditionError, Fault};
use crate::text::{contains, ends_with, is_prefix_of, is_substring_of, is_suffix_of, same_text, starts_with};

verus! {

#[verifier::external_type_specification]
#[verifier::external_body]
pub struct ExRegex(regex::Regex);

#[verifier::external_type_specification]
#[verifier::external_body]
pub struct ExRegexError(regex::Error);

/// Whether the regex crate accepts `pattern` (syntax and size limit).
pub uninterp spec fn regex_compiles(pattern: Seq<char>) -> bool;

/// Whether the expression compiled from `pattern` finds a match anywhere in `haystack`.
pub uninterp spec fn regex_finds(pattern: Seq<char>, haystack: Seq<char>) -> bool;

/// Relies on regex::Regex::new: it succeeds or fails on the pattern alone.
#[verifier::external_body]
fn compile_regex(pattern: &str) -> (r: Result<regex::Regex, regex::Error>)
    ensures
        r is Ok <==> regex_compiles(pattern@),
{
    regex::Regex::new(pattern)
}

/// A regular expression compiled eagerly, kept with the text it was compiled from.
pub struct RegexPattern {
    source: String,
    compiled: regex::Regex,
}

impl View for RegexPattern {
    type V = Seq<char>;

    closed spec fn view(&self) -> Seq<char> {
        self.source@
    }
}

/// Relies on regex::Regex::is_match: true iff the expression finds a match
/// anywhere in `value`. `re.compiled` is always built from `re.source` by
/// `RegexPattern::new`, the one place that makes a `RegexPattern`.
#[verifier::external_body]
fn regex_is_match(re: &RegexPattern, value: &str) -> (r: bool)
    ensures
        r == regex_finds(re@, value@),
{
    re.compiled.is_match(value)
}

impl RegexPattern {
    /// Compiles `pattern`; the error is the regex crate's diagnostic.
    pub fn new(pattern: &str) -> (r: Result<RegexPattern, regex::Error>)
        ensures
            r is Ok <==> regex_compiles(pattern@),
            r is Ok ==> r->Ok_0@ == pattern@,
    {
        match compile_regex(pattern) {
            Ok(compiled) => Ok(RegexPattern { source: pattern.to_owned(), compiled }),
            Err(e) => Err(e),
        }
    }

    /// The text the expression was compiled from.
    pub fn as_str(&self) -> (r: &str)
        ensures
            r@ == self@,
    {
        self.source.as_str()
    }

    /// Whether the expression finds a match anywhere in `value`.
    pub fn is_match(&self, value: &str) -> (r: bool)
        ensures
            r == regex_finds(self@, value@),
    {
        regex_is_match(self, value)
    }
}

/// The five match methods.
#[derive(PartialEq, Eq, Structural, Clone, Copy, Debug)]
pub enum Method {
    Equals,
    Contains,
    Prefix,
    Suffix,
    Regex,
}

/// The method that an alias names, if any.
pub open spec fn method_of_alias(a: Seq<char>) -> Option<Method> {
    if a == "equals"@ || a == "eq"@ {
        Some(Method::Equals)
    } else if a == "contains"@ || a == "substr"@ {
        Some(Method::Contains)
    } else if a == "prefix"@ || a == "starts-with"@ || a == "startswith"@ {
        Some(Method::Prefix)
    } else if a == "suffix"@ || a == "ends-with"@ || a == "endswith"@ {
        Some(Method::Suffix)
    } else if a == "regex"@ || a == "re"@ {
        Some(Method::Regex)
    } else {
        None
    }
}

/// A matcher as a method and its pattern text.
pub struct MatcherView {
    pub method: Method,
    pub pattern: Seq<char>,
}

/// Whether a matcher accepts the value `v`.
pub open spec fn accepts(m: MatcherView, v: Seq<char>) -> bool {
    match m.method {
        Method::Equals => v == m.pattern,
        Method::Contains => is_substring_of(m.pattern, v),
        Method::Prefix => is_prefix_of(m.pattern, v),
        Method::Suffix => is_suffix_of(m.pattern, v),
        Method::Regex => regex_finds(m.pattern, v),
    }
}

/// The characters of an optional alias.
pub open spec fn opt_text(o: Option<&str>) -> Option<Seq<char>> {
    match o {
        Some(s) => Some(s@),
        None => None,
    }
}

/// What building a matcher from a method alias (default `equals`) and a pattern gives.
pub open spec fn matcher_of(method: Option<Seq<char>>, pattern: Seq<char>) -> Result<
    MatcherView,
    Fault,
> {
    let alias = match method {
        Some(m) => m,
        None => "equals"@,
    };
    if pattern.len() == 0 {
        Err(Fault::EmptyPattern)
    } else {
        match method_of_alias(alias) {
            None => Err(Fault::UnsupportedMethod(alias)),
            Some(Method::Regex) => if regex_compiles(pattern) {
                Ok(MatcherView { method: Method::Regex, pattern })
            } else {
                Err(Fault::InvalidRegex(pattern))
            },
            Some(m) => Ok(MatcherView { method: m, pattern }),
        }
    }
}

/// A match method with its pattern.
pub enum Matcher {
    Equals(String),
    Contains(String),
    Prefix(String),
    Suffix(String),
    Regex(RegexPattern),
}

impl View for Matcher {
    type V = MatcherView;

    open spec fn view(&self) -> MatcherView {
        match self {
            Matcher::Equals(p) => MatcherView { method: Method::Equals, pattern: p@ },
            Matcher::Contains(p) => MatcherView { method: Method::Contains, pattern: p@ },
            Matcher::Prefix(p) => MatcherView { method: Method::Prefix, pattern: p@ },
            Matcher::Suffix(p) => MatcherView { method: Method::Suffix, pattern: p@ },
            Matcher::Regex(re) => MatcherView { method: Method::Regex, pattern: re@ },
        }
    }
}

/// The model of a matcher-building result.
pub open spec fn matcher_result_view(r: Result<Matcher, ConditionError>) -> Result<MatcherView, Fault> {
    match r {
        Ok(m) => Ok(m@),
        Err(e) => Err(e@),
    }
}

impl Matcher {
    /// Builds a matcher from a method alias (`equals` when absent) and a
    /// non-empty pattern; a regex is compiled here, not at match time.
    pub fn from_tokens(method: Option<&str>, pattern: &str) -> (r: Result<Matcher, ConditionError>)
        ensures
            matcher_result_view(r) == matcher_of(opt_text(method), pattern@),
    {
        let method = match method {
            Some(m) => m,
            None => "equals",
        };
        if pattern.is_empty() {
            return Err(ConditionError::EmptyPattern);
        }
        if same_text(method, "equals") || same_text(method, "eq") {
            Ok(Matcher::Equals(pattern.to_owned()))
        } else if same_text(method, "contains") || same_text(method, "substr") {
            Ok(Matcher::Contains(pattern.to_owned()))
        } else if same_text(method, "prefix") || same_text(method, "starts-with") || same_text(
            method,
            "startswith",
        ) {
            Ok(Matcher::Prefix(pattern.to_owned()))
        } else if same_text(method, "suffix") || same_text(method, "ends-with") || same_text(
            method,
            "endswith",
        ) {
            Ok(Matcher::Suffix(pattern.to_owned()))
        } else if same_text(method, "regex") || same_text(method, "re") {
            match RegexPattern::new(pattern) {
                Ok(re) => Ok(Matcher::Regex(re)),
                Err(e) => Err(ConditionError::InvalidRegex(pattern.to_owned(), e.to_string())),
            }
        } else {
            Err(ConditionError::UnsupportedMethod(method.to_owned()))
        }
    }

    /// Whether this matcher accepts `value`.
    pub fn matches(&self, value: &str) -> (r: bool)
        ensures
            r == accepts(self@, value@),
    {
        match self {
            Matcher::Equals(p) => same_text(value, p.as_str()),
            Matcher::Contains(p) => contains(value, p.as_str()),
            Matcher::Prefix(p) => starts_with(value, p.as_str()),
            Matcher::Suffix(p) => ends_with(value, p.as_str()),
            Matcher::Regex(re) => re.is_match(value),
        }
    }
}

} // verus!
