//! Configuration errors: everything that is rejected before any window query.
use vstd::prelude::*;

verus! {

/// Why a matcher or a set of matchers was rejected.
pub enum ConditionError {
    /// The text holds no `=`.
    MissingSeparator,
    /// The pattern after `=` is empty.
    EmptyPattern,
    /// The field alias names no selector.
    UnsupportedField(String),
    /// The method alias names no match method.
    UnsupportedMethod(String),
    /// The regex pattern did not compile: the pattern, then the compiler's diagnostic.
    InvalidRegex(String, String),
    /// Neither a class shorthand nor any matcher was given.
    NoMatchers,
}

/// The model of a `ConditionError`: the regex diagnostic is left out.
pub enum Fault {
    MissingSeparator,
    EmptyPattern,
    UnsupportedField(Seq<char>),
    UnsupportedMethod(Seq<char>),
    InvalidRegex(Seq<char>),
    NoMatchers,
}

impl View for ConditionError {
    type V = Fault;

    open spec fn view(&self) -> Fault {
        match self {
            ConditionError::MissingSeparator => Fault::MissingSeparator,
            ConditionError::EmptyPattern => Fault::EmptyPattern,
            ConditionError::UnsupportedField(a) => Fault::UnsupportedField(a@),
            ConditionError::UnsupportedMethod(a) => Fault::UnsupportedMethod(a@),
            ConditionError::InvalidRegex(p, _) => Fault::InvalidRegex(p@),
            ConditionError::NoMatchers => Fault::NoMatchers,
        }
    }
}

/// `open`, then `s`, then `close`.
fn quoted(open: &str, s: &str, close: &str) -> (r: String)
    ensures
        r@ == open@ + s@ + close@,
{
    let mut r = String::from_str(open);
    r.append(s);
    r.append(close);
    r
}

impl ConditionError {
    /// The message shown to the user.
    pub fn message(&self) -> (r: String)
        ensures
            match self {
                ConditionError::MissingSeparator => r@
                    == "Expected matcher in the form field[:method]=pattern"@,
                ConditionError::EmptyPattern => r@ == "Matcher pattern cannot be empty"@,
                ConditionError::UnsupportedField(a) => r@ == "Unsupported match field `"@ + a@
                    + "`"@,
                ConditionError::UnsupportedMethod(a) => r@ == "Unsupported match method `"@ + a@
                    + "`"@,
                ConditionError::InvalidRegex(p, d) => r@ == "Invalid regex `"@ + p@ + "`: "@
                    + d@,
                ConditionError::NoMatchers => r@
                    == "Provide at least one matcher via --class or --match"@,
            },
    {
        match self {
            ConditionError::MissingSeparator => String::from_str(
                "Expected matcher in the form field[:method]=pattern",
            ),
            ConditionError::EmptyPattern => String::from_str("Matcher pattern cannot be empty"),
            ConditionError::UnsupportedField(a) => quoted("Unsupported match field `", a.as_str(), "`"),
            ConditionError::UnsupportedMethod(a) => quoted(
                "Unsupported match method `",
                a.as_str(),
                "`",
            ),
            ConditionError::InvalidRegex(p, d) => quoted("Invalid regex `", p.as_str(), "`: ").concat(
                d.as_str(),
            ),
            ConditionError::NoMatchers => String::from_str(
                "Provide at least one matcher via --class or --match",
            ),
        }
    }
}

} // verus!
