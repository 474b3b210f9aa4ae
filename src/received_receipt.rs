//! A received receipt: the signed receipt, its query, the outcome of each
//! required check so far, and the lifecycle state that follows from them.
use vstd::prelude::*;
use crate::checks::{CheckOutcome, ReceiptCheck, ReceiptCheckResults, ReceiptResult};
use crate::signed::SignedReceipt;

verus! {

/// Where a received receipt stands.
#[derive(Clone, Copy, Debug, PartialEq, Eq, Structural)]
pub enum ReceiptState {
    /// Some required check has not been attempted yet, and none has failed.
    Checking,
    /// A required check has failed; the receipt is never accepted again.
    Failed,
    /// Every required check but escrow reservation has passed, and escrow
    /// has not been reserved.
    Checked,
    /// Every required check has passed, escrow reservation among them.
    EscrowReserved,
    /// The receipt has been folded into an aggregate voucher.
    Included,
}

/// A receipt as the service holds it while checking it.
#[derive(Debug)]
pub struct ReceivedReceipt {
    signed_receipt: SignedReceipt,
    query_id: u64,
    checks: ReceiptCheckResults,
    included: bool,
}

impl ReceivedReceipt {
    pub closed spec fn signed(&self) -> SignedReceipt {
        self.signed_receipt
    }

    pub closed spec fn query(&self) -> u64 {
        self.query_id
    }

    pub closed spec fn check_results(&self) -> ReceiptCheckResults {
        self.checks
    }

    pub closed spec fn is_included(&self) -> bool {
        self.included
    }

    pub open spec fn wf(&self) -> bool {
        self.check_results().well_formed()
    }

    /// The state that the recorded outcomes put the receipt in.
    pub open spec fn state_spec(&self) -> ReceiptState {
        let checks = self.check_results();
        if self.is_included() {
            ReceiptState::Included
        } else if checks.any_failed() {
            ReceiptState::Failed
        } else if checks.all_passed_but_escrow() {
            if checks.requires_check(ReceiptCheck::CheckAndReserveEscrow)
                && checks.outcome(ReceiptCheck::CheckAndReserveEscrow) matches Some(Ok(_)) {
                ReceiptState::EscrowReserved
            } else {
                ReceiptState::Checked
            }
        } else {
            ReceiptState::Checking
        }
    }

    /// Whether the receipt may go into an aggregate: every required check is
    /// present and passed, and it has not been included yet.
    pub open spec fn eligible_spec(&self) -> bool {
        !self.is_included() && self.check_results().all_passed()
    }

    /// Whether an outcome for `c` may be recorded now: `c` is required, the
    /// receipt has neither failed nor been included, and `c` is not an escrow
    /// reservation that already passed.
    pub open spec fn may_record(&self, c: ReceiptCheck) -> bool {
        let checks = self.check_results();
        &&& checks.requires_check(c)
        &&& !self.is_included()
        &&& !checks.any_failed()
        &&& !(c == ReceiptCheck::CheckAndReserveEscrow && checks.outcome(c) matches Some(Ok(_)))
    }

    /// A received receipt whose given checks are all still to be attempted.
    pub fn new(signed_receipt: SignedReceipt, query_id: u64, required_checks: &[ReceiptCheck]) -> (r: ReceivedReceipt)
        ensures
            r.wf(),
            r.signed() == signed_receipt,
            r.query() == query_id,
            !r.is_included(),
            forall|c: ReceiptCheck| r.check_results().requires_check(c) <==> required_checks@.contains(c),
            forall|c: ReceiptCheck| r.check_results().requires_check(c) ==> r.check_results().outcome(c) is None,
    {
        ReceivedReceipt { signed_receipt, query_id, checks: ReceiptCheckResults::new(required_checks), included: false }
    }

    /// The recorded outcome of `c`, or `None` when `c` is not required.
    pub fn check_outcome(&self, c: ReceiptCheck) -> (r: Option<CheckOutcome>)
        requires
            self.wf(),
        ensures
            r is None <==> !self.check_results().requires_check(c),
            r matches Some(o) ==> o == self.check_results().outcome(c),
    {
        self.checks.get(c)
    }

    /// The signed receipt.
    pub fn signed_receipt(&self) -> (r: &SignedReceipt)
        ensures
            *r == self.signed(),
    {
        &self.signed_receipt
    }

    /// The query the receipt pays for.
    pub fn query_id(&self) -> (r: u64)
        ensures
            r == self.query(),
    {
        self.query_id
    }

    /// The lifecycle state.
    pub fn state(&self) -> (r: ReceiptState)
        requires
            self.wf(),
        ensures
            r == self.state_spec(),
    {
        if self.included {
            return ReceiptState::Included;
        }
        if self.checks.has_failure() {
            return ReceiptState::Failed;
        }
        if self.checks.is_all_passed_but_escrow() {
            match self.checks.get(ReceiptCheck::CheckAndReserveEscrow) {
                Some(Some(Ok(_))) => ReceiptState::EscrowReserved,
                _ => ReceiptState::Checked,
            }
        } else {
            ReceiptState::Checking
        }
    }

    /// Whether the receipt may go into an aggregate now.
    pub fn is_eligible_for_aggregation(&self) -> (r: bool)
        requires
            self.wf(),
        ensures
            r == self.eligible_spec(),
    {
        !self.included && self.checks.is_all_passed()
    }

    /// Records the outcome of running check `c`. Refused, with nothing
    /// changed, when `may_record(c)` does not hold: a failed or included
    /// receipt stays as it is, and a passed escrow reservation is never
    /// recorded twice. Returns whether the outcome was recorded.
    pub fn record_check_result(&mut self, c: ReceiptCheck, result: ReceiptResult<()>) -> (r: bool)
        requires
            old(self).wf(),
        ensures
            final(self).wf(),
            r == old(self).may_record(c),
            final(self).signed() == old(self).signed(),
            final(self).query() == old(self).query(),
            final(self).is_included() == old(self).is_included(),
            forall|d: ReceiptCheck| #[trigger] final(self).check_results().requires_check(d)
                == old(self).check_results().requires_check(d),
            !r ==> final(self).check_results() == old(self).check_results(),
            r ==> final(self).check_results().outcome(c) == Some(result),
            forall|d: ReceiptCheck| d != c && old(self).check_results().requires_check(d)
                ==> final(self).check_results().outcome(d) == old(self).check_results().outcome(d),
    {
        if self.included {
            return false;
        }
        let current = self.checks.get(c);
        match current {
            None => { return false; },
            Some(Some(Ok(_))) => {
                if c == ReceiptCheck::CheckAndReserveEscrow {
                    return false;
                }
            },
            _ => {},
        }
        if self.checks.has_failure() {
            return false;
        }
        self.checks.set(c, Some(result));
        true
    }

    /// Whether an outcome for `c` may be recorded now.
    pub fn may_record_now(&self, c: ReceiptCheck) -> (r: bool)
        requires
            self.wf(),
        ensures
            r == self.may_record(c),
    {
        if self.included {
            return false;
        }
        match self.checks.get(c) {
            None => { return false; },
            Some(Some(Ok(_))) => {
                if c == ReceiptCheck::CheckAndReserveEscrow {
                    return false;
                }
            },
            _ => {},
        }
        !self.checks.has_failure()
    }

    /// Marks the receipt as folded into an aggregate voucher; refused, with
    /// nothing changed, unless it is eligible.
    pub fn mark_included(&mut self) -> (r: bool)
        requires
            old(self).wf(),
        ensures
            final(self).wf(),
            r == old(self).eligible_spec(),
            final(self).signed() == old(self).signed(),
            final(self).query() == old(self).query(),
            final(self).check_results() == old(self).check_results(),
            final(self).is_included() == (old(self).is_included() || r),
    {
        if self.is_eligible_for_aggregation() {
            self.included = true;
            true
        } else {
            false
        }
    }

    /// Once escrow reservation has passed, it is never recorded again: the
    /// reservation is made at most once per receipt.
    pub proof fn lemma_escrow_single_fire(&self)
        requires
            self.check_results().requires_check(ReceiptCheck::CheckAndReserveEscrow),
            self.check_results().outcome(ReceiptCheck::CheckAndReserveEscrow) matches Some(Ok(_)),
        ensures
            !self.may_record(ReceiptCheck::CheckAndReserveEscrow),
    {
    }

    /// A failed receipt stays failed: no outcome can be recorded for it.
    pub proof fn lemma_failed_is_final(&self, c: ReceiptCheck)
        requires
            self.state_spec() == ReceiptState::Failed,
        ensures
            !self.may_record(c),
    {
    }

    /// An included receipt stays included: no outcome can be recorded for it.
    pub proof fn lemma_included_is_final(&self, c: ReceiptCheck)
        requires
            self.state_spec() == ReceiptState::Included,
        ensures
            !self.may_record(c),
            !self.eligible_spec(),
    {
    }
}

} // verus!
