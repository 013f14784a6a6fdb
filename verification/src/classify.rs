//! Rule-usefulness verdicts.
//!
//! Reachability and productivity themselves are computed by a grammar
//! analysis collaborator; this module holds the verdict it hands over for
//! one rule and the rule it implies.

use vstd::prelude::*;

verus! {

/// The usefulness verdict for one rule. Useful rules are both reachable
/// and productive.
#[derive(Clone, Copy, Debug, PartialEq, Eq, Structural)]
pub struct RuleUsefulness {
    /// Whether the rule is reachable from a root symbol.
    pub reachable: bool,
    /// Whether every right-hand-side symbol of the rule is productive.
    pub productive: bool,
}

impl RuleUsefulness {
    /// A rule is useless when it is unreachable or unproductive.
    pub fn is_useless(&self) -> (r: bool)
        ensures
            r == (!self.reachable || !self.productive),
    {
        !self.reachable || !self.productive
    }
}

} // verus!
