//! Run-or-raise window selection: a small predicate language over window
//! attributes, and the decision between focusing a matching window, cycling
//! to the next one, and launching the application.
pub mod text;
pub mod field;
pub mod error;
pub mod matcher;
pub mod condition;
pub mod select;

pub use condition::{parse_match_condition, matches_all, Args, MatchCondition};
pub use error::ConditionError;
pub use field::{Client, MatchField};
pub use matcher::{Matcher, Method, RegexPattern};
pub use select::{candidate_addresses, decide, get_current_matching_window, select_action, Action};
