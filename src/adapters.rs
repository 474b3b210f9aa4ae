//! In-memory providers: receipt data answered from a receipt store and lists
//! of known values, and escrow balances held per payer.
use vstd::prelude::*;
use crate::auditor::{EscrowAdapter, ProviderCall, ProviderReply, ReceiptAuditor, ReceiptChecksAdapter, check_result_is};
use crate::checks::{ReceiptCheck, ReceiptError, ReceiptResult};
use crate::receipt::Receipt;
use crate::receipt::Address;
use crate::signed::SignedReceipt;
use crate::received_receipt::ReceivedReceipt;
use crate::storage::{ReceiptStorage, StorageError, unique_in};

verus! {

/// The message of a value check for a query that was never appraised.
pub const NO_APPRAISAL: &'static str = "no appraisal recorded for the query";

/// The message of a reservation for a payer without an escrow account.
pub const UNKNOWN_SIGNER: &'static str = "no escrow account for the signer";

/// The message of a reservation larger than the balance.
pub const INSUFFICIENT_ESCROW: &'static str = "escrow balance too low";

/// Whether some address of `list` is `a`.
pub open spec fn lists_address(list: Seq<Address>, a: Seq<u8>) -> bool {
    exists|i: int| 0 <= i < list.len() && (#[trigger] list[i])@ == a
}

/// `i` is the first entry of `s` whose key is `k`.
pub open spec fn first_with_key<K, V>(s: Seq<(K, V)>, k: K, i: int) -> bool {
    0 <= i < s.len() && s[i].0 == k && forall|j: int| 0 <= j < i ==> (#[trigger] s[j]).0 != k
}

/// The value of the first entry of `s` whose key is `k`, if any.
pub open spec fn first_value<K, V>(s: Seq<(K, V)>, k: K) -> Option<V> {
    if exists|i: int| first_with_key(s, k, i) {
        Some(s[choose|i: int| first_with_key(s, k, i)].1)
    } else {
        None
    }
}

proof fn lemma_first_unique<K, V>(s: Seq<(K, V)>, k: K, i: int)
    requires
        first_with_key(s, k, i),
    ensures
        first_value(s, k) == Some(s[i].1),
{
    let c = choose|c: int| first_with_key(s, k, c);
    if c < i {
        assert(s[c].0 == k);
    } else if c > i {
        assert(s[i].0 == k);
    }
}

fn find_address(list: &Vec<Address>, a: &Address) -> (r: bool)
    ensures
        r == lists_address(list@, a@),
{
    let mut i: usize = 0;
    while i < list.len()
        invariant
            0 <= i <= list@.len(),
            forall|j: int| 0 <= j < i ==> (#[trigger] list@[j])@ != a@,
        decreases list@.len() - i,
    {
        if list[i].same_as(a) {
            return true;
        }
        i = i + 1;
    }
    false
}

/// Receipt data answered from a receipt store, the appraised value of each
/// query, and the known allocations and payers.
pub struct ReceiptChecksAdapterMock {
    receipt_storage: ReceiptStorage,
    query_appraisals: Vec<(u64, u128)>,
    allocation_ids: Vec<Address>,
    gateway_ids: Vec<Address>,
}

impl ReceiptChecksAdapterMock {
    pub closed spec fn storage(&self) -> ReceiptStorage {
        self.receipt_storage
    }

    pub closed spec fn appraisals(&self) -> Seq<(u64, u128)> {
        self.query_appraisals@
    }

    pub closed spec fn allocations(&self) -> Seq<Address> {
        self.allocation_ids@
    }

    pub closed spec fn gateways(&self) -> Seq<Address> {
        self.gateway_ids@
    }

    /// A provider over the given store, appraisals (the first entry of a
    /// query counts), allocations and payers.
    pub fn new(receipt_storage: ReceiptStorage, query_appraisals: Vec<(u64, u128)>, allocation_ids: Vec<Address>,
        gateway_ids: Vec<Address>) -> (r: Self)
        ensures
            r.storage() == receipt_storage,
            r.appraisals() == query_appraisals@,
            r.allocations() == allocation_ids@,
            r.gateways() == gateway_ids@,
    {
        ReceiptChecksAdapterMock { receipt_storage, query_appraisals, allocation_ids, gateway_ids }
    }

    /// The receipt store.
    pub fn receipt_storage(&self) -> (r: &ReceiptStorage)
        ensures
            *r == self.storage(),
    {
        &self.receipt_storage
    }

    /// Stores a received receipt in the provider's store, so that later
    /// uniqueness checks see it; returns its id.
    pub fn store_receipt(&mut self, receipt: ReceivedReceipt) -> (r: Result<u64, StorageError>)
        requires
            old(self).storage().wf(),
            old(self).storage().all_wf(),
            receipt.wf(),
        ensures
            final(self).storage().wf(),
            final(self).storage().all_wf(),
            r is Err <==> old(self).storage().next() == u64::MAX,
            r is Err ==> final(self).storage().stored() == old(self).storage().stored(),
            r matches Ok(id) ==> id == old(self).storage().next()
                && final(self).storage().stored() == old(self).storage().stored().push((id, receipt.signed().message)),
            final(self).appraisals() == old(self).appraisals(),
            final(self).allocations() == old(self).allocations(),
            final(self).gateways() == old(self).gateways(),
    {
        self.receipt_storage.store_receipt(receipt)
    }

    /// Uniqueness: no stored receipt under another id has the same message.
    pub fn unique_receipt(&self, receipt: &SignedReceipt, receipt_id: u64) -> (r: bool)
        ensures
            r == unique_in(self.storage().stored(), receipt.message, receipt_id),
    {
        self.receipt_storage.is_unique(&receipt.message, receipt_id)
    }

    /// Whether the allocation is known.
    pub fn known_allocation(&self, allocation_id: &Address) -> (r: bool)
        ensures
            r == lists_address(self.allocations(), allocation_id@),
    {
        find_address(&self.allocation_ids, allocation_id)
    }

    /// Whether the payer is known.
    pub fn known_gateway(&self, gateway_id: &Address) -> (r: bool)
        ensures
            r == lists_address(self.gateways(), gateway_id@),
    {
        find_address(&self.gateway_ids, gateway_id)
    }

    /// Whether `value` equals the value appraised for the query; an error
    /// when the query was never appraised.
    pub fn value_matches(&self, value: u128, query_id: u64) -> (r: Result<bool, String>)
        ensures
            first_value(self.appraisals(), query_id) is None ==> (r matches Err(m) && m@ == NO_APPRAISAL@),
            first_value(self.appraisals(), query_id) matches Some(v) ==> r == Ok::<bool, String>(v == value),
    {
        let mut i: usize = 0;
        while i < self.query_appraisals.len()
            invariant
                0 <= i <= self.query_appraisals@.len(),
                forall|j: int| 0 <= j < i ==> (#[trigger] self.query_appraisals@[j]).0 != query_id,
            decreases self.query_appraisals@.len() - i,
        {
            let (q, v) = self.query_appraisals[i];
            if q == query_id {
                proof { lemma_first_unique(self.appraisals(), query_id, i as int); }
                return Ok(v == value);
            }
            i = i + 1;
        }
        proof {
            if exists|i: int| first_with_key(self.appraisals(), query_id, i) {
                let c = choose|c: int| first_with_key(self.appraisals(), query_id, c);
                assert(self.query_appraisals@[c].0 == query_id);
            }
        }
        Err(String::from_str(NO_APPRAISAL))
    }
}

impl ReceiptChecksAdapter for ReceiptChecksAdapterMock {
    fn is_unique(&self, receipt: &SignedReceipt, receipt_id: u64) -> Result<bool, String> {
        Ok(self.unique_receipt(receipt, receipt_id))
    }

    fn is_valid_allocation_id(&self, allocation_id: Address) -> Result<bool, String> {
        Ok(self.known_allocation(&allocation_id))
    }

    fn is_valid_value(&self, value: u128, query_id: u64) -> Result<bool, String> {
        self.value_matches(value, query_id)
    }

    fn is_valid_gateway_id(&self, gateway_id: Address) -> Result<bool, String> {
        Ok(self.known_gateway(&gateway_id))
    }
}

/// Escrow balances per payer; the first entry of a payer counts.
pub struct EscrowAdapterMock {
    balances: Vec<(Address, u128)>,
}

impl EscrowAdapterMock {
    /// The balances, keyed by the payer's address bytes.
    pub closed spec fn accounts(&self) -> Seq<(Seq<u8>, u128)> {
        self.balances@.map_values(|e: (Address, u128)| (e.0@, e.1))
    }

    /// The balance of a payer, if it has an account.
    pub open spec fn balance_of(&self, signer: Seq<u8>) -> Option<u128> {
        first_value(self.accounts(), signer)
    }

    /// Accounts with the given balances.
    pub fn new(balances: Vec<(Address, u128)>) -> (r: Self)
        ensures
            r.accounts() == balances@.map_values(|e: (Address, u128)| (e.0@, e.1)),
    {
        EscrowAdapterMock { balances }
    }

    fn find(&self, signer: &Address) -> (r: Option<usize>)
        ensures
            r is None ==> self.balance_of(signer@) is None,
            r matches Some(i) ==> first_with_key(self.accounts(), signer@, i as int)
                && self.balance_of(signer@) == Some(self.accounts()[i as int].1),
    {
        let mut i: usize = 0;
        while i < self.balances.len()
            invariant
                0 <= i <= self.balances@.len(),
                self.accounts().len() == self.balances@.len(),
                forall|j: int| 0 <= j < i ==> (#[trigger] self.accounts()[j]).0 != signer@,
            decreases self.balances@.len() - i,
        {
            assert(self.accounts()[i as int].0 == self.balances@[i as int].0@);
            if self.balances[i].0.same_as(signer) {
                proof { lemma_first_unique(self.accounts(), signer@, i as int); }
                return Some(i);
            }
            i = i + 1;
        }
        proof {
            if exists|c: int| first_with_key(self.accounts(), signer@, c) {
                let c = choose|c: int| first_with_key(self.accounts(), signer@, c);
                assert(self.accounts()[c].0 == signer@);
            }
        }
        None
    }

    /// The balance of a payer, if it has an account.
    pub fn balance(&self, signer: &Address) -> (r: Option<u128>)
        ensures
            r == self.balance_of(signer@),
    {
        match self.find(signer) {
            None => None,
            Some(i) => Some(self.balances[i].1),
        }
    }

    /// Reserves `value` against the balance of `signer`: succeeds exactly
    /// when the payer has an account holding at least `value`, and then takes
    /// exactly `value` from it and from nothing else; on failure nothing
    /// changes.
    pub fn reserve(&mut self, signer: &Address, value: u128) -> (r: Result<(), String>)
        ensures
            r is Ok <==> (old(self).balance_of(signer@) matches Some(b) && value <= b),
            r is Err ==> final(self).accounts() == old(self).accounts(),
            r is Ok ==> final(self).balance_of(signer@) == Some((old(self).balance_of(signer@)->Some_0 - value) as u128),
            r is Ok ==> forall|a: Seq<u8>| a != signer@ ==> #[trigger] final(self).balance_of(a) == old(self).balance_of(a),
    {
        let i = match self.find(signer) {
            None => { return Err(String::from_str(UNKNOWN_SIGNER)); },
            Some(i) => i,
        };
        let (addr, bal) = self.balances[i];
        if bal < value {
            return Err(String::from_str(INSUFFICIENT_ESCROW));
        }
        let ghost before = self.accounts();
        self.balances.set(i, (addr, bal - value));
        proof {
            let after = self.accounts();
            assert(after =~= before.update(i as int, (signer@, (bal - value) as u128)));
            assert(first_with_key(after, signer@, i as int));
            lemma_first_unique(after, signer@, i as int);
            assert forall|j: int| 0 <= j < before.len() implies (#[trigger] before[j]).0 == after[j].0 by {
                if j == i { assert(before[j].0 == signer@); }
            }
            assert forall|a: Seq<u8>| a != signer@ implies #[trigger] first_value(after, a) == first_value(before, a) by {
                if exists|c: int| first_with_key(before, a, c) {
                    let c = choose|c: int| first_with_key(before, a, c);
                    assert(c != i);
                    assert(first_with_key(after, a, c));
                    lemma_first_unique(before, a, c);
                    lemma_first_unique(after, a, c);
                } else if exists|c: int| first_with_key(after, a, c) {
                    let c = choose|c: int| first_with_key(after, a, c);
                    assert(after[c].0 == a);
                    assert(first_with_key(before, a, c));
                }
            }
        }
        Ok(())
    }
}

impl EscrowAdapter for EscrowAdapterMock {
    fn subtract_escrow(&mut self, signer: Address, value: u128) -> Result<(), String> {
        self.reserve(&signer, value)
    }
}

/// Whether `reply` is what these in-memory providers answer to `call` about
/// `receipt`: the answers that their methods are proved to give.
pub open spec fn answers(checks: ReceiptChecksAdapterMock, escrow: EscrowAdapterMock, receipt: Receipt,
    call: ProviderCall, reply: ProviderReply) -> bool
{
    match call {
        ProviderCall::NoCall => true,
        ProviderCall::IsUnique { receipt_id } =>
            reply == Ok::<bool, String>(unique_in(checks.storage().stored(), receipt, receipt_id)),
        ProviderCall::IsValidAllocationId { allocation_id } =>
            reply == Ok::<bool, String>(lists_address(checks.allocations(), allocation_id@)),
        ProviderCall::IsValidValue { value, query_id } => match first_value(checks.appraisals(), query_id) {
            Some(v) => reply == Ok::<bool, String>(v == value),
            None => reply is Err,
        },
        ProviderCall::IsValidGatewayId { gateway_id } =>
            reply == Ok::<bool, String>(lists_address(checks.gateways(), gateway_id@)),
        ProviderCall::SubtractEscrow { signer, value } =>
            (reply is Ok) == (escrow.balance_of(signer@) matches Some(b) && value <= b),
    }
}

/// A receipt signed under the auditor's domain by a known payer whose escrow
/// covers its value, for a known allocation, later than the watermark, with
/// the appraised value of its query, and stored under no other id, passes
/// every check against these providers' answers.
pub proof fn lemma_all_checks_pass<EA: EscrowAdapter, RCA: ReceiptChecksAdapter>(auditor: ReceiptAuditor<EA, RCA>,
    checks: ReceiptChecksAdapterMock, escrow: EscrowAdapterMock, signed: SignedReceipt, signer: Seq<u8>,
    query_id: u64, receipt_id: u64, kind: ReceiptCheck, c: ReceiptResult<ProviderCall>, reply: ProviderReply,
    r: ReceiptResult<()>)
    requires
        signed.recovery_spec(auditor.domain()) == Ok::<Seq<u8>, Seq<char>>(signer),
        lists_address(checks.gateways(), signer),
        escrow.balance_of(signer) matches Some(b) && signed.message.value <= b,
        lists_address(checks.allocations(), signed.message.allocation_id@),
        signed.message.timestamp_ns > auditor.watermark(),
        first_value(checks.appraisals(), query_id) == Some(signed.message.value),
        unique_in(checks.storage().stored(), signed.message, receipt_id),
        auditor.call_is(kind, signed, query_id, receipt_id, c),
        c matches Ok(call) ==> answers(checks, escrow, signed.message, call, reply),
        check_result_is(kind, signed.message, c, reply, r),
    ensures
        r is Ok,
{
}

/// The same signed receipt, checked for uniqueness under an id other than
/// one it is stored under, is a duplicate.
pub proof fn lemma_resubmission_not_unique<EA: EscrowAdapter, RCA: ReceiptChecksAdapter>(
    auditor: ReceiptAuditor<EA, RCA>, checks: ReceiptChecksAdapterMock, escrow: EscrowAdapterMock,
    signed: SignedReceipt, query_id: u64, stored_id: u64, receipt_id: u64, c: ReceiptResult<ProviderCall>,
    reply: ProviderReply, r: ReceiptResult<()>)
    requires
        checks.storage().stored().contains((stored_id, signed.message)),
        receipt_id != stored_id,
        auditor.call_is(ReceiptCheck::CheckUnique, signed, query_id, receipt_id, c),
        c matches Ok(call) ==> answers(checks, escrow, signed.message, call, reply),
        check_result_is(ReceiptCheck::CheckUnique, signed.message, c, reply, r),
    ensures
        r == Err::<(), ReceiptError>(ReceiptError::NonUniqueReceipt),
{
    let s = checks.storage().stored();
    let i = choose|i: int| 0 <= i < s.len() && s[i] == (stored_id, signed.message);
    assert(s[i].1.same_message_spec(signed.message));
    assert(!unique_in(s, signed.message, receipt_id));
}

} // verus!
