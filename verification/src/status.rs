//! The tri-state verdict a consumed call earns, and the rule that
//! turns an argument comparison into one.

use vstd::prelude::*;

verus! {

/// Verdict reported for every consumed call: the call was expected and its
/// arguments matched, no expectation was queued for it, or an expectation
/// was queued but at least one concrete argument differed.
#[derive(Clone, Copy, Debug, PartialEq, Eq, Structural)]
pub enum ExpectStatus {
    Expected,
    Unexpected,
    Failed,
}

/// The verdict a completed argument comparison earns: `Expected` when every
/// position matched, `Failed` otherwise.
pub open spec fn status_of(checks: bool) -> ExpectStatus {
    if checks {
        ExpectStatus::Expected
    } else {
        ExpectStatus::Failed
    }
}

/// Turns the outcome of an argument comparison into the verdict that is
/// handed to the harness.
pub fn set_expect_status(checks: bool) -> (status: ExpectStatus)
    ensures
        status == status_of(checks),
{
    if checks {
        ExpectStatus::Expected
    } else {
        ExpectStatus::Failed
    }
}

} // verus!
