//! The ledger handle: owns the one staged ledger of the test case in
//! progress, replaces it between cases, and checks at case end that it
//! was fully drained.

use vstd::prelude::*;
use crate::expect::Expect;
use crate::model::empty_model;

verus! {

/// Why `assert_stage` found the staged ledger out of balance. Both
/// variants carry the magnitude of the imbalance.
#[derive(Clone, Copy, Debug, PartialEq, Eq, Structural)]
pub enum StageError {
    /// This many expectations were enqueued but never consumed: the test
    /// over-specified, or the unit under test under-called.
    Unconsumed(i64),
    /// This many real calls occurred with no matching expectation queued,
    /// while lenient mode was off: the unit under test over-called.
    Unaccounted(i64),
}

/// Owns exactly one live ledger at a time: the staged ledger of the test
/// case in progress. Replacing it discards the previous one outright; no
/// expectation survives from one test case into the next.
#[derive(Debug)]
pub struct ExpectHandle {
    pub staged: Expect,
}

impl ExpectHandle {
    /// Creates a handle staging a fresh, strict (non-lenient) ledger.
    pub fn new() -> (h: ExpectHandle)
        ensures
            h.staged@ == empty_model(false),
            h.staged.wf(),
    {
        ExpectHandle { staged: Expect::new(false) }
    }

    /// Starts a new test case: discards the staged ledger, whatever it
    /// held, and installs a brand-new empty one with the given
    /// lenient-mode flag and balance zero.
    pub fn update_stage(&mut self, allow_unexpected: bool)
        ensures
            final(self).staged@ == empty_model(allow_unexpected),
            final(self).staged.wf(),
    {
        self.staged = Expect::new(allow_unexpected);
    }

    /// Checks that the staged ledger is fully reconciled: succeeds exactly
    /// when the balance is zero, and otherwise says in which direction and
    /// by how much the test case went out of balance.
    pub fn assert_stage(&self) -> (r: Result<(), StageError>)
        ensures
            r is Ok <==> self.staged@.balance == 0,
            self.staged@.balance > 0 ==> r == Err::<(), StageError>(
                StageError::Unconsumed(self.staged.expect_count as i64),
            ),
            self.staged@.balance < 0 ==> r == Err::<(), StageError>(
                StageError::Unaccounted((0 - self.staged.expect_count) as i64),
            ),
    {
        let count = self.staged.expect_count;
        if count > 0 {
            Err(StageError::Unconsumed(count as i64))
        } else if count < 0 {
            Err(StageError::Unaccounted(-(count as i64)))
        } else {
            Ok(())
        }
    }
}

} // verus!
