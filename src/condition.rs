//! Conditions over a window attribute, their `field[:method]=pattern` syntax,
//! and the conjunction built from command-line input.
use vstd::prelude::*;
use crate::error::{ConditionError, Fault};
use crate::field::{field_of_alias, Client, MatchField};
use crate::matcher::{accepts, matcher_of, method_of_alias, opt_text, Matcher, MatcherView, Method};
use crate::text::{free_of, lemma_no_split, lemma_split_after, split_first, split_once};

verus! {

/// One predicate: a selector and a matcher applied to the value it reads.
pub struct MatchCondition {
    pub field: MatchField,
    pub matcher: Matcher,
}

/// A condition as a selector and a matcher model.
pub struct ConditionView {
    pub field: MatchField,
    pub matcher: MatcherView,
}

impl View for MatchCondition {
    type V = ConditionView;

    open spec fn view(&self) -> ConditionView {
        ConditionView { field: self.field, matcher: self.matcher@ }
    }
}

/// A condition holds of a window iff the selected field is present and the
/// matcher accepts it; an absent field never matches.
pub open spec fn condition_holds(c: ConditionView, w: Client) -> bool {
    match c.field.spec_value(w) {
        Some(v) => accepts(c.matcher, v),
        None => false,
    }
}

/// Every condition of `cs` holds of `w`.
pub open spec fn all_hold(cs: Seq<MatchCondition>, w: Client) -> bool {
    forall|i: int| 0 <= i < cs.len() ==> condition_holds(#[trigger] cs[i]@, w)
}

impl MatchCondition {
    pub fn new(field: MatchField, matcher: Matcher) -> (r: MatchCondition)
        ensures
            r.field == field,
            r.matcher == matcher,
    {
        MatchCondition { field, matcher }
    }

    /// Whether this condition holds of `client`.
    pub fn matches(&self, client: &Client) -> (r: bool)
        ensures
            r == condition_holds(self@, *client),
            self.field.spec_value(*client) is None ==> !r,
    {
        match self.field.value(client) {
            Some(v) => self.matcher.matches(v),
            None => false,
        }
    }
}

/// Whether every condition of `conditions` holds of `client`.
pub fn matches_all(conditions: &Vec<MatchCondition>, client: &Client) -> (r: bool)
    ensures
        r == all_hold(conditions@, *client),
{
    let mut i: usize = 0;
    while i < conditions.len()
        invariant
            i <= conditions@.len(),
            forall|j: int| 0 <= j < i ==> condition_holds(#[trigger] conditions@[j]@, *client),
        decreases conditions@.len() - i,
    {
        if !conditions[i].matches(client) {
            return false;
        }
        i = i + 1;
    }
    true
}

/// What parsing `field[:method]=pattern` gives: split at the first `=`, then
/// the left side at its first `:`.
pub open spec fn condition_of(raw: Seq<char>) -> Result<ConditionView, Fault> {
    match split_first(raw, '=') {
        None => Err(Fault::MissingSeparator),
        Some(parts) => {
            let selector = parts.0;
            let pattern = parts.1;
            if pattern.len() == 0 {
                Err(Fault::EmptyPattern)
            } else {
                let field_alias = match split_first(selector, ':') {
                    Some(sel) => sel.0,
                    None => selector,
                };
                let method_alias = match split_first(selector, ':') {
                    Some(sel) => Some(sel.1),
                    None => None,
                };
                match field_of_alias(field_alias) {
                    None => Err(Fault::UnsupportedField(field_alias)),
                    Some(field) => match matcher_of(method_alias, pattern) {
                        Ok(m) => Ok(ConditionView { field, matcher: m }),
                        Err(e) => Err(e),
                    },
                }
            }
        },
    }
}

/// The model of a parsing result.
pub open spec fn condition_result_view(r: Result<MatchCondition, ConditionError>) -> Result<
    ConditionView,
    Fault,
> {
    match r {
        Ok(c) => Ok(c@),
        Err(e) => Err(e@),
    }
}

/// Parses `field[:method]=pattern` into a condition.
pub fn parse_match_condition(value: &str) -> (r: Result<MatchCondition, ConditionError>)
    ensures
        condition_result_view(r) == condition_of(value@),
{
    let (selector, pattern) = match split_once(value, '=') {
        Some(parts) => parts,
        None => {
            return Err(ConditionError::MissingSeparator);
        },
    };
    if pattern.is_empty() {
        return Err(ConditionError::EmptyPattern);
    }
    let (field_token, method_token) = match split_once(selector, ':') {
        Some((field, method)) => (field, Some(method)),
        None => (selector, None),
    };
    assert(opt_text(method_token) == match split_first(selector@, ':') {
        Some(sel) => Some(sel.1),
        None => None::<Seq<char>>,
    });
    let field = match MatchField::parse(field_token) {
        Some(f) => f,
        None => {
            return Err(ConditionError::UnsupportedField(field_token.to_owned()));
        },
    };
    let matcher = match Matcher::from_tokens(method_token, pattern) {
        Ok(m) => m,
        Err(e) => {
            return Err(e);
        },
    };
    Ok(MatchCondition::new(field, matcher))
}

/// The command-line input: an optional class shorthand, the launch command,
/// and explicit matchers in the order given.
pub struct Args {
    pub class: Option<String>,
    pub launch: String,
    pub matches: Vec<MatchCondition>,
}

/// The conditions that a class shorthand and explicit matchers stand for.
pub open spec fn assembled(class: Option<String>, matches: Seq<MatchCondition>) -> Seq<
    MatchCondition,
> {
    match class {
        Some(c) => seq![MatchCondition { field: MatchField::Class, matcher: Matcher::Equals(c) }]
            + matches,
        None => matches,
    }
}

impl Args {
    /// The condition set: the class shorthand as an `equals` condition on
    /// `class` first, then the explicit matchers; fails when that is empty.
    pub fn build_matchers(self) -> (r: Result<Vec<MatchCondition>, ConditionError>)
        ensures
            r is Err <==> (self.class is None && self.matches@.len() == 0),
            match r {
                Ok(v) => v@ == assembled(self.class, self.matches@),
                Err(e) => e is NoMatchers,
            },
    {
        let mut matchers = self.matches;
        if let Some(class) = self.class {
            matchers.insert(0, MatchCondition::new(MatchField::Class, Matcher::Equals(class)));
        }
        if matchers.len() == 0 {
            return Err(ConditionError::NoMatchers);
        }
        assert(matchers@ =~= assembled(self.class, self.matches@));
        Ok(matchers)
    }
}

} // verus!

verus! {

/// A condition on a field that the window does not have never matches,
/// whatever the method and pattern.
pub proof fn lemma_absent_field_never_matches(c: ConditionView, w: Client)
    requires
        c.field.spec_value(w) is None,
    ensures
        !condition_holds(c, w),
{
}

/// Writing the `equals` method out (`field:equals=p` or `field:eq=p`) parses
/// the same as leaving it to the default (`field=p`).
pub proof fn lemma_explicit_equals_is_default(field: Seq<char>, method: Seq<char>, pattern: Seq<char>)
    requires
        method == "equals"@ || method == "eq"@,
        free_of(field, '='),
        free_of(field, ':'),
    ensures
        condition_of(field + seq![':'] + method + seq!['='] + pattern) == condition_of(
            field + seq!['='] + pattern,
        ),
{
    reveal_strlit("equals");
    reveal_strlit("eq");
    let selector = field + seq![':'] + method;
    assert(free_of(selector, '=')) by {
        assert forall|i: int| 0 <= i < selector.len() implies selector[i] != '=' by {
            if i < field.len() {
                assert(selector[i] == field[i]);
            }
        }
    }
    lemma_split_after(selector, '=', pattern);
    lemma_split_after(field, ':', method);
    lemma_split_after(field, '=', pattern);
    lemma_no_split(field, ':');
    assert(method_of_alias(method) == Some(Method::Equals));
}

/// An empty pattern is rejected whatever the field and method text.
pub proof fn lemma_empty_pattern_rejected(selector: Seq<char>, method: Option<Seq<char>>)
    requires
        free_of(selector, '='),
    ensures
        condition_of(selector + seq!['=']) == Err::<ConditionView, Fault>(Fault::EmptyPattern),
        matcher_of(method, Seq::empty()) == Err::<MatcherView, Fault>(Fault::EmptyPattern),
{
    lemma_split_after(selector, '=', Seq::empty());
    assert(selector + seq!['='] =~= selector + seq!['='] + Seq::empty());
}

/// An unknown field alias is rejected, naming it, with or without a method
/// and whatever the (non-empty) pattern.
pub proof fn lemma_unknown_field_rejected(field: Seq<char>, method: Seq<char>, pattern: Seq<char>)
    requires
        field_of_alias(field) is None,
        free_of(field, '='),
        free_of(field, ':'),
        free_of(method, '='),
        pattern.len() > 0,
    ensures
        condition_of(field + seq!['='] + pattern) == Err::<ConditionView, Fault>(
            Fault::UnsupportedField(field),
        ),
        condition_of(field + seq![':'] + method + seq!['='] + pattern) == Err::<
            ConditionView,
            Fault,
        >(Fault::UnsupportedField(field)),
{
    let selector = field + seq![':'] + method;
    assert(free_of(selector, '=')) by {
        assert forall|i: int| 0 <= i < selector.len() implies selector[i] != '=' by {
            if i < field.len() {
                assert(selector[i] == field[i]);
            } else if i > field.len() {
                assert(selector[i] == method[i - field.len() - 1]);
            }
        }
    }
    lemma_split_after(selector, '=', pattern);
    lemma_split_after(field, ':', method);
    lemma_split_after(field, '=', pattern);
    lemma_no_split(field, ':');
}

/// An unknown method alias is rejected, naming it, for a known field and
/// whatever the (non-empty) pattern.
pub proof fn lemma_unknown_method_rejected(field: Seq<char>, method: Seq<char>, pattern: Seq<char>)
    requires
        field_of_alias(field) is Some,
        method_of_alias(method) is None,
        free_of(field, '='),
        free_of(field, ':'),
        free_of(method, '='),
        pattern.len() > 0,
    ensures
        condition_of(field + seq![':'] + method + seq!['='] + pattern) == Err::<
            ConditionView,
            Fault,
        >(Fault::UnsupportedMethod(method)),
{
    let selector = field + seq![':'] + method;
    assert(free_of(selector, '=')) by {
        assert forall|i: int| 0 <= i < selector.len() implies selector[i] != '=' by {
            if i < field.len() {
                assert(selector[i] == field[i]);
            } else if i > field.len() {
                assert(selector[i] == method[i - field.len() - 1]);
            }
        }
    }
    lemma_split_after(selector, '=', pattern);
    lemma_split_after(field, ':', method);
}

} // verus!
