//! The closed set of receipt checks, their errors, and the map from each
//! required check to its outcome so far.
use vstd::prelude::*;
use crate::receipt::Address;

verus! {

/// Why a check did not pass.
#[derive(Clone, Debug, PartialEq, Eq)]
pub enum ReceiptError {
    InvalidAllocationID { received_allocation_id: Address },
    InvalidSignature { source_error_message: String },
    InvalidTimestamp { received_timestamp: u64, timestamp_min: u64 },
    InvalidValue { received_value: u128 },
    NonUniqueReceipt,
    SubtractEscrowFailed,
    CheckFailedToComplete { source_error_message: String },
}

impl ReceiptError {
    /// An equal copy of the error.
    pub fn duplicate(&self) -> (r: ReceiptError)
        ensures
            r == *self,
    {
        match self {
            ReceiptError::InvalidAllocationID { received_allocation_id } =>
                ReceiptError::InvalidAllocationID { received_allocation_id: *received_allocation_id },
            ReceiptError::InvalidSignature { source_error_message } =>
                ReceiptError::InvalidSignature { source_error_message: source_error_message.clone() },
            ReceiptError::InvalidTimestamp { received_timestamp, timestamp_min } =>
                ReceiptError::InvalidTimestamp { received_timestamp: *received_timestamp, timestamp_min: *timestamp_min },
            ReceiptError::InvalidValue { received_value } =>
                ReceiptError::InvalidValue { received_value: *received_value },
            ReceiptError::NonUniqueReceipt => ReceiptError::NonUniqueReceipt,
            ReceiptError::SubtractEscrowFailed => ReceiptError::SubtractEscrowFailed,
            ReceiptError::CheckFailedToComplete { source_error_message } =>
                ReceiptError::CheckFailedToComplete { source_error_message: source_error_message.clone() },
        }
    }
}

/// An equal copy of a check outcome.
pub fn copy_outcome(o: &CheckOutcome) -> (r: CheckOutcome)
    ensures
        r == *o,
{
    match o {
        None => None,
        Some(Ok(u)) => Some(Ok(*u)),
        Some(Err(e)) => Some(Err(e.duplicate())),
    }
}

pub type ReceiptResult<T> = Result<T, ReceiptError>;

/// One of the checks that a receipt must pass before it can be aggregated.
#[derive(Clone, Copy, Debug, PartialEq, Eq, Structural, Hash)]
pub enum ReceiptCheck {
    CheckUnique,
    CheckAllocationId,
    CheckTimestamp,
    CheckValue,
    CheckSignature,
    CheckAndReserveEscrow,
}

/// Every check, in the order in which they are meant to run.
pub open spec fn all_checks() -> Seq<ReceiptCheck> {
    seq![
        ReceiptCheck::CheckUnique,
        ReceiptCheck::CheckAllocationId,
        ReceiptCheck::CheckTimestamp,
        ReceiptCheck::CheckValue,
        ReceiptCheck::CheckSignature,
        ReceiptCheck::CheckAndReserveEscrow,
    ]
}

/// The list of every check, signature last but one and escrow last.
pub fn get_full_list_of_checks() -> (r: Vec<ReceiptCheck>)
    ensures
        r@ == all_checks(),
{
    let r = vec![
        ReceiptCheck::CheckUnique,
        ReceiptCheck::CheckAllocationId,
        ReceiptCheck::CheckTimestamp,
        ReceiptCheck::CheckValue,
        ReceiptCheck::CheckSignature,
        ReceiptCheck::CheckAndReserveEscrow,
    ];
    assert(r@ =~= all_checks());
    r
}

/// The outcome of one check: `None` while it has not been attempted.
pub type CheckOutcome = Option<ReceiptResult<()>>;

/// Whether some entry of `s` is about check `c`.
pub open spec fn has_key(s: Seq<(ReceiptCheck, CheckOutcome)>, c: ReceiptCheck) -> bool {
    exists|i: int| 0 <= i < s.len() && s[i].0 == c
}

/// For each required check, its outcome so far. Each check appears at most
/// once among the entries.
#[derive(Debug)]
pub struct ReceiptCheckResults {
    entries: Vec<(ReceiptCheck, CheckOutcome)>,
}

impl ReceiptCheckResults {
    pub closed spec fn entry_list(&self) -> Seq<(ReceiptCheck, CheckOutcome)> {
        self.entries@
    }

    /// Whether `c` is one of the required checks.
    pub open spec fn requires_check(&self, c: ReceiptCheck) -> bool {
        exists|i: int| 0 <= i < self.entry_list().len() && (#[trigger] self.entry_list()[i]).0 == c
    }

    /// The outcome recorded for a required check.
    pub open spec fn outcome(&self, c: ReceiptCheck) -> CheckOutcome
        recommends
            self.requires_check(c),
    {
        self.entry_list()[choose|i: int| 0 <= i < self.entry_list().len() && (#[trigger] self.entry_list()[i]).0 == c].1
    }

    /// No check appears twice.
    pub open spec fn well_formed(&self) -> bool {
        forall|i: int, j: int|
            0 <= i < self.entry_list().len() && 0 <= j < self.entry_list().len() && i != j
                ==> #[trigger] self.entry_list()[i].0 != #[trigger] self.entry_list()[j].0
    }

    proof fn lemma_outcome_at(&self, i: int)
        requires
            self.well_formed(),
            0 <= i < self.entry_list().len(),
        ensures
            self.requires_check(self.entry_list()[i].0),
            self.outcome(self.entry_list()[i].0) == self.entry_list()[i].1,
    {
        let c = self.entry_list()[i].0;
        assert(self.entry_list()[i].0 == c);
        let k = choose|k: int| 0 <= k < self.entry_list().len() && (#[trigger] self.entry_list()[k]).0 == c;
        assert(k == i);
    }

    /// A map with every given check not yet attempted; a check given twice is
    /// kept once.
    pub fn new(checks: &[ReceiptCheck]) -> (r: ReceiptCheckResults)
        ensures
            r.well_formed(),
            forall|c: ReceiptCheck| r.requires_check(c) <==> checks@.contains(c),
            forall|c: ReceiptCheck| r.requires_check(c) ==> r.outcome(c) is None,
    {
        let mut entries: Vec<(ReceiptCheck, CheckOutcome)> = Vec::new();
        let mut k: usize = 0;
        while k < checks.len()
            invariant
                0 <= k <= checks@.len(),
                forall|i: int, j: int|
                    0 <= i < entries@.len() && 0 <= j < entries@.len() && i != j
                        ==> #[trigger] entries@[i].0 != #[trigger] entries@[j].0,
                forall|i: int| 0 <= i < entries@.len() ==> (#[trigger] entries@[i]).1 is None,
                forall|c: ReceiptCheck|
                    #[trigger] has_key(entries@, c) <==> checks@.subrange(0, k as int).contains(c),
            decreases checks@.len() - k,
        {
            let c = checks[k];
            let mut found = false;
            let mut i: usize = 0;
            while i < entries.len()
                invariant
                    0 <= i <= entries@.len(),
                    found <==> has_key(entries@.subrange(0, i as int), c),
                decreases entries@.len() - i,
            {
                proof {
                    let s1 = entries@.subrange(0, i as int + 1);
                    let s0 = entries@.subrange(0, i as int);
                    assert(s1[i as int] == entries@[i as int]);
                    if has_key(s0, c) {
                        let t = choose|t: int| 0 <= t < s0.len() && s0[t].0 == c;
                        assert(s1[t] == s0[t]);
                    }
                    if has_key(s1, c) {
                        let t = choose|t: int| 0 <= t < s1.len() && s1[t].0 == c;
                        if t < i {
                            assert(s1[t] == s0[t]);
                        }
                    }
                }
                if entries[i].0 == c {
                    found = true;
                }
                i = i + 1;
            }
            assert(entries@.subrange(0, entries@.len() as int) =~= entries@);
            let ghost old_entries = entries@;
            if !found {
                entries.push((c, None));
            }
            proof {
                let seen = checks@.subrange(0, k as int);
                let seen_next = checks@.subrange(0, k as int + 1);
                assert(seen_next =~= seen.push(c));
                assert(seen_next[k as int] == c);
                assert forall|d: ReceiptCheck|
                    #[trigger] has_key(entries@, d) <==> seen_next.contains(d) by {
                    if has_key(old_entries, d) {
                        let t = choose|t: int| 0 <= t < old_entries.len() && old_entries[t].0 == d;
                        assert(entries@[t] == old_entries[t]);
                    }
                    if has_key(entries@, d) && d != c {
                        let t = choose|t: int| 0 <= t < entries@.len() && entries@[t].0 == d;
                        assert(old_entries[t] == entries@[t]);
                    }
                    if !found && d == c {
                        assert(entries@[entries@.len() - 1].0 == c);
                    }
                    if seen_next.contains(d) {
                        let t = choose|t: int| 0 <= t < seen_next.len() && seen_next[t] == d;
                        if t < k {
                            assert(seen[t] == d);
                        }
                    }
                    if seen.contains(d) {
                        let t = choose|t: int| 0 <= t < seen.len() && seen[t] == d;
                        assert(seen_next[t] == d);
                    }
                }
            }
            k = k + 1;
        }
        let r = ReceiptCheckResults { entries };
        proof {
            assert(checks@.subrange(0, k as int) =~= checks@);
            assert forall|c: ReceiptCheck| r.requires_check(c) <==> checks@.contains(c) by {
                assert(has_key(entries@, c) == r.requires_check(c));
            }
            assert forall|c: ReceiptCheck| r.requires_check(c) implies r.outcome(c) is None by {
                let i = choose|i: int| 0 <= i < r.entry_list().len() && (#[trigger] r.entry_list()[i]).0 == c;
                r.lemma_outcome_at(i);
            }
        }
        r
    }

    /// The outcome of `c`, or `None` when `c` is not a required check.
    pub fn get(&self, c: ReceiptCheck) -> (r: Option<CheckOutcome>)
        requires
            self.well_formed(),
        ensures
            r is None <==> !self.requires_check(c),
            r matches Some(o) ==> o == self.outcome(c),
    {
        let mut i: usize = 0;
        while i < self.entries.len()
            invariant
                0 <= i <= self.entries@.len(),
                self.well_formed(),
                forall|j: int| 0 <= j < i ==> (#[trigger] self.entries@[j]).0 != c,
            decreases self.entries@.len() - i,
        {
            if self.entries[i].0 == c {
                proof { self.lemma_outcome_at(i as int); }
                return Some(copy_outcome(&self.entries[i].1));
            }
            i = i + 1;
        }
        None
    }
}

impl ReceiptCheckResults {
    /// Some required check has failed.
    pub open spec fn any_failed(&self) -> bool {
        exists|c: ReceiptCheck| #[trigger] self.requires_check(c) && self.outcome(c) matches Some(Err(_))
    }

    /// Every required check has passed.
    pub open spec fn all_passed(&self) -> bool {
        forall|c: ReceiptCheck| #[trigger] self.requires_check(c) ==> self.outcome(c) matches Some(Ok(_))
    }

    /// Every required check but escrow reservation has passed.
    pub open spec fn all_passed_but_escrow(&self) -> bool {
        forall|c: ReceiptCheck| #[trigger] self.requires_check(c) && c != ReceiptCheck::CheckAndReserveEscrow
            ==> self.outcome(c) matches Some(Ok(_))
    }

    /// Whether some required check has failed.
    pub fn has_failure(&self) -> (r: bool)
        requires
            self.well_formed(),
        ensures
            r == self.any_failed(),
    {
        let mut i: usize = 0;
        while i < self.entries.len()
            invariant
                0 <= i <= self.entries@.len(),
                self.well_formed(),
                forall|j: int| 0 <= j < i ==> !((#[trigger] self.entries@[j]).1 matches Some(Err(_))),
            decreases self.entries@.len() - i,
        {
            proof { self.lemma_outcome_at(i as int); }
            if let Some(Err(_)) = &self.entries[i].1 {
                return true;
            }
            i = i + 1;
        }
        proof {
            assert forall|c: ReceiptCheck| #[trigger] self.requires_check(c) implies !(self.outcome(c) matches Some(Err(_))) by {
                let j = choose|j: int| 0 <= j < self.entry_list().len() && (#[trigger] self.entry_list()[j]).0 == c;
                self.lemma_outcome_at(j);
            }
        }
        false
    }

    /// Whether every required check other than `skip` (when given) has
    /// passed.
    fn passed_all_but(&self, skip: Option<ReceiptCheck>) -> (r: bool)
        requires
            self.well_formed(),
        ensures
            r == (forall|c: ReceiptCheck| #[trigger] self.requires_check(c) && skip != Some(c)
                ==> self.outcome(c) matches Some(Ok(_))),
    {
        let mut i: usize = 0;
        while i < self.entries.len()
            invariant
                0 <= i <= self.entries@.len(),
                self.well_formed(),
                forall|j: int| 0 <= j < i && skip != Some(self.entries@[j].0)
                    ==> (#[trigger] self.entries@[j]).1 matches Some(Ok(_)),
            decreases self.entries@.len() - i,
        {
            proof { self.lemma_outcome_at(i as int); }
            let skipped = match skip {
                Some(s) => s == self.entries[i].0,
                None => false,
            };
            if !skipped {
                match &self.entries[i].1 {
                    Some(Ok(_)) => {},
                    _ => { return false; },
                }
            }
            i = i + 1;
        }
        proof {
            assert forall|c: ReceiptCheck| #[trigger] self.requires_check(c) && skip != Some(c)
                implies self.outcome(c) matches Some(Ok(_)) by {
                let j = choose|j: int| 0 <= j < self.entry_list().len() && (#[trigger] self.entry_list()[j]).0 == c;
                self.lemma_outcome_at(j);
            }
        }
        true
    }

    /// Whether every required check has passed.
    pub fn is_all_passed(&self) -> (r: bool)
        requires
            self.well_formed(),
        ensures
            r == self.all_passed(),
    {
        self.passed_all_but(None)
    }

    /// Whether every required check other than escrow reservation has passed.
    pub fn is_all_passed_but_escrow(&self) -> (r: bool)
        requires
            self.well_formed(),
        ensures
            r == self.all_passed_but_escrow(),
    {
        self.passed_all_but(Some(ReceiptCheck::CheckAndReserveEscrow))
    }

    /// Records `o` as the outcome of the required check `c`; every other
    /// outcome stays.
    pub fn set(&mut self, c: ReceiptCheck, o: CheckOutcome)
        requires
            old(self).well_formed(),
            old(self).requires_check(c),
        ensures
            final(self).well_formed(),
            forall|d: ReceiptCheck| final(self).requires_check(d) == old(self).requires_check(d),
            final(self).outcome(c) == o,
            forall|d: ReceiptCheck| d != c && old(self).requires_check(d) ==> final(self).outcome(d) == old(self).outcome(d),
    {
        let ghost before = *self;
        let mut i: usize = 0;
        while i < self.entries.len() && self.entries[i].0 != c
            invariant
                0 <= i <= self.entries@.len(),
                *self == before,
                before.requires_check(c),
                forall|j: int| 0 <= j < i ==> (#[trigger] self.entries@[j]).0 != c,
            decreases self.entries@.len() - i,
        {
            i = i + 1;
        }
        if i == self.entries.len() {
            proof {
                let j = choose|j: int| 0 <= j < before.entry_list().len() && (#[trigger] before.entry_list()[j]).0 == c;
                assert(self.entries@[j].0 == c);
            }
            return;
        }
        self.entries.set(i, (c, o));
        proof {
            assert(self.entry_list() == before.entry_list().update(i as int, (c, o)));
            assert(self.well_formed());
            self.lemma_outcome_at(i as int);
            assert forall|d: ReceiptCheck| self.requires_check(d) == before.requires_check(d) by {
                if self.requires_check(d) {
                    let j = choose|j: int| 0 <= j < self.entry_list().len() && (#[trigger] self.entry_list()[j]).0 == d;
                    assert(before.entry_list()[j].0 == d);
                }
                if before.requires_check(d) {
                    let j = choose|j: int| 0 <= j < before.entry_list().len() && (#[trigger] before.entry_list()[j]).0 == d;
                    assert(self.entry_list()[j].0 == d);
                }
            }
            assert forall|d: ReceiptCheck| d != c && before.requires_check(d) implies self.outcome(d) == before.outcome(d) by {
                let j = choose|j: int| 0 <= j < before.entry_list().len() && (#[trigger] before.entry_list()[j]).0 == d;
                before.lemma_outcome_at(j);
                assert(self.entry_list()[j] == before.entry_list()[j]);
                self.lemma_outcome_at(j);
            }
        }
    }
}

/// Every check, none of them attempted yet.
pub fn get_full_list_of_receipt_check_results() -> (r: ReceiptCheckResults)
    ensures
        r.well_formed(),
        forall|c: ReceiptCheck| #[trigger] r.requires_check(c),
        forall|c: ReceiptCheck| r.outcome(c) is None,
{
    let checks = get_full_list_of_checks();
    let r = ReceiptCheckResults::new(checks.as_slice());
    proof {
        assert forall|c: ReceiptCheck| #[trigger] r.requires_check(c) by {
            assert(all_checks().contains(c)) by {
                match c {
                    ReceiptCheck::CheckUnique => assert(all_checks()[0] == c),
                    ReceiptCheck::CheckAllocationId => assert(all_checks()[1] == c),
                    ReceiptCheck::CheckTimestamp => assert(all_checks()[2] == c),
                    ReceiptCheck::CheckValue => assert(all_checks()[3] == c),
                    ReceiptCheck::CheckSignature => assert(all_checks()[4] == c),
                    ReceiptCheck::CheckAndReserveEscrow => assert(all_checks()[5] == c),
                }
            }
        }
        assert forall|c: ReceiptCheck| r.outcome(c) is None by {
            assert(r.requires_check(c));
        }
    }
    r
}

} // verus!
