//! The receipt auditor: runs one named check at a time against a receipt,
//! owns the timestamp watermark, and reserves escrow through a provider.
use vstd::prelude::*;
use crate::checks::{ReceiptCheck, ReceiptError, ReceiptResult};
use crate::receipt::{Address, Receipt, address_text_of};
use crate::received_receipt::ReceivedReceipt;
use crate::receipt::address_text;
use crate::signed::{DomainContext, SignedReceipt, digest, eip712_digest, recover_signer_from_prehash, recovery_of};

verus! {

/// Reserves value against a payer's escrow balance.
pub trait EscrowAdapter {
    /// Subtracts `value` from the balance of `signer`, all of it or nothing;
    /// fails when it cannot.
    fn subtract_escrow(&mut self, signer: Address, value: u128) -> Result<(), String>;
}

/// Answers the questions that the checks ask of the service's own records.
/// An `Err` says the question could not be answered.
pub trait ReceiptChecksAdapter {
    /// No stored receipt under another id carries the same message.
    fn is_unique(&self, receipt: &SignedReceipt, receipt_id: u64) -> Result<bool, String>;

    /// The allocation is known and active.
    fn is_valid_allocation_id(&self, allocation_id: Address) -> Result<bool, String>;

    /// The value equals the one appraised for the query.
    fn is_valid_value(&self, value: u128, query_id: u64) -> Result<bool, String>;

    /// The address belongs to an authorized payer.
    fn is_valid_gateway_id(&self, gateway_id: Address) -> Result<bool, String>;
}

/// The start of the message of a signature failure when the signer is not an
/// authorized payer; the signer's address follows.
pub const UNKNOWN_GATEWAY: &'static str = "Recovered gateway id is not valid: ";

/// The question that a check puts to a provider.
#[derive(Clone, Copy, Debug, PartialEq, Eq)]
pub enum ProviderCall {
    /// The check is decided without a provider.
    NoCall,
    IsUnique { receipt_id: u64 },
    IsValidAllocationId { allocation_id: Address },
    IsValidValue { value: u128, query_id: u64 },
    IsValidGatewayId { gateway_id: Address },
    SubtractEscrow { signer: Address, value: u128 },
}

/// A provider's answer: `Ok(b)` for a predicate's value (for an escrow
/// reservation, any `Ok` means it was made), `Err` when the provider failed.
pub type ProviderReply = Result<bool, String>;

/// Whether the timestamp check passes against the watermark: it is strictly
/// later.
pub open spec fn timestamp_passes(watermark: u64, timestamp_ns: u64) -> bool {
    timestamp_ns > watermark
}

/// Whether `r` is a signature failure whose message is `msg`.
pub open spec fn is_signature_failure(r: ReceiptResult<()>, msg: Seq<char>) -> bool {
    r matches Err(ReceiptError::InvalidSignature { source_error_message }) && source_error_message@ == msg
}

/// Whether `r` is a signature failure, decided before any provider call,
/// whose message is `msg`.
pub open spec fn is_signature_failure_call(r: ReceiptResult<ProviderCall>, msg: Seq<char>) -> bool {
    r matches Err(ReceiptError::InvalidSignature { source_error_message }) && source_error_message@ == msg
}

/// The message of a signature failure for an unauthorized signer `a`.
pub open spec fn unknown_gateway_text(a: Seq<u8>) -> Seq<char> {
    UNKNOWN_GATEWAY@ + address_text_of(a)
}

/// What the check `kind` on `message` gives once the provider answered
/// `reply` to `call`.
pub open spec fn outcome_is(kind: ReceiptCheck, message: Receipt, call: ProviderCall, reply: ProviderReply,
    r: ReceiptResult<()>) -> bool
{
    match kind {
        ReceiptCheck::CheckTimestamp => r is Ok,
        ReceiptCheck::CheckAndReserveEscrow => match reply {
            Ok(_) => r is Ok,
            Err(_) => r == Err::<(), ReceiptError>(ReceiptError::SubtractEscrowFailed),
        },
        _ => match reply {
            Err(m) => r == Err::<(), ReceiptError>(ReceiptError::CheckFailedToComplete { source_error_message: m }),
            Ok(true) => r is Ok,
            Ok(false) => match kind {
                ReceiptCheck::CheckUnique => r == Err::<(), ReceiptError>(ReceiptError::NonUniqueReceipt),
                ReceiptCheck::CheckAllocationId => r matches Err(ReceiptError::InvalidAllocationID { received_allocation_id })
                    && received_allocation_id@ == message.allocation_id@,
                ReceiptCheck::CheckValue => r == Err::<(), ReceiptError>(ReceiptError::InvalidValue { received_value: message.value }),
                _ => match call {
                    ProviderCall::IsValidGatewayId { gateway_id } => is_signature_failure(r, unknown_gateway_text(gateway_id@)),
                    _ => is_signature_failure(r, UNKNOWN_GATEWAY@),
                },
            },
        },
    }
}

/// Decides a check from the provider's answer to `call`.
pub fn check_outcome(kind: ReceiptCheck, message: &Receipt, call: &ProviderCall, reply: &ProviderReply)
    -> (r: ReceiptResult<()>)
    ensures
        outcome_is(kind, *message, *call, *reply, r),
{
    match kind {
        ReceiptCheck::CheckTimestamp => Ok(()),
        ReceiptCheck::CheckAndReserveEscrow => match reply {
            Ok(_) => Ok(()),
            Err(_) => Err(ReceiptError::SubtractEscrowFailed),
        },
        _ => match reply {
            Err(m) => Err(ReceiptError::CheckFailedToComplete { source_error_message: m.clone() }),
            Ok(true) => Ok(()),
            Ok(false) => match kind {
                ReceiptCheck::CheckUnique => Err(ReceiptError::NonUniqueReceipt),
                ReceiptCheck::CheckAllocationId => Err(ReceiptError::InvalidAllocationID {
                    received_allocation_id: message.allocation_id,
                }),
                ReceiptCheck::CheckValue => Err(ReceiptError::InvalidValue { received_value: message.value }),
                _ => {
                    let mut text = String::from_str(UNKNOWN_GATEWAY);
                    if let ProviderCall::IsValidGatewayId { gateway_id } = call {
                        let addr = address_text(gateway_id);
                        text.append(addr.as_str());
                    }
                    Err(ReceiptError::InvalidSignature { source_error_message: text })
                },
            },
        },
    }
}

/// Whether two check results agree: both pass, or both fail with the same
/// error, messages compared by their text.
pub open spec fn same_outcome(r1: ReceiptResult<()>, r2: ReceiptResult<()>) -> bool {
    match (r1, r2) {
        (Ok(_), Ok(_)) => true,
        (Err(ReceiptError::InvalidSignature { source_error_message: m1 }),
            Err(ReceiptError::InvalidSignature { source_error_message: m2 })) => m1@ == m2@,
        (Err(ReceiptError::InvalidAllocationID { received_allocation_id: a1 }),
            Err(ReceiptError::InvalidAllocationID { received_allocation_id: a2 })) => a1@ == a2@,
        (Err(e1), Err(e2)) => e1 == e2,
        _ => false,
    }
}

/// What `check` gives when the provider call (or the early failure) is `c`
/// and the provider answered `reply`.
pub open spec fn check_result_is(kind: ReceiptCheck, message: Receipt, c: ReceiptResult<ProviderCall>,
    reply: ProviderReply, r: ReceiptResult<()>) -> bool
{
    match c {
        Err(e) => r == Err::<(), ReceiptError>(e),
        Ok(call) => outcome_is(kind, message, call, reply, r),
    }
}

/// The value check passes exactly when the receipt's value equals the
/// appraised one: a difference of one unit either way fails it.
pub proof fn lemma_value_exact(appraised: u128, message: Receipt, query_id: u64, r: ReceiptResult<()>)
    requires
        outcome_is(ReceiptCheck::CheckValue, message, (ProviderCall::IsValidValue { value: message.value, query_id }),
            Ok(message.value == appraised), r),
    ensures
        r is Ok <==> message.value == appraised,
        message.value != appraised ==> r == Err::<(), ReceiptError>(ReceiptError::InvalidValue { received_value: message.value }),
{
}

/// Whether `r` is the provider question that check `kind` asks about
/// `signed` under `domain` and `watermark`, or the error that decides the
/// check before any question.
pub open spec fn call_is_for(domain: DomainContext, watermark: u64, kind: ReceiptCheck, signed: SignedReceipt,
    query_id: u64, receipt_id: u64, r: ReceiptResult<ProviderCall>) -> bool
{
    match kind {
        ReceiptCheck::CheckUnique => r == Ok::<ProviderCall, ReceiptError>(ProviderCall::IsUnique { receipt_id }),
        ReceiptCheck::CheckAllocationId => r matches Ok(ProviderCall::IsValidAllocationId { allocation_id })
            && allocation_id@ == signed.message.allocation_id@,
        ReceiptCheck::CheckValue => r == Ok::<ProviderCall, ReceiptError>(
            ProviderCall::IsValidValue { value: signed.message.value, query_id }),
        ReceiptCheck::CheckTimestamp => if timestamp_passes(watermark, signed.message.timestamp_ns) {
            r == Ok::<ProviderCall, ReceiptError>(ProviderCall::NoCall)
        } else {
            r == Err::<ProviderCall, ReceiptError>(ReceiptError::InvalidTimestamp {
                received_timestamp: signed.message.timestamp_ns,
                timestamp_min: watermark,
            })
        },
        ReceiptCheck::CheckSignature => match signed.recovery_spec(domain) {
            Err(m) => is_signature_failure_call(r, m),
            Ok(a) => r matches Ok(ProviderCall::IsValidGatewayId { gateway_id }) && gateway_id@ == a,
        },
        ReceiptCheck::CheckAndReserveEscrow => match signed.recovery_spec(domain) {
            Err(m) => is_signature_failure_call(r, m),
            Ok(a) => r matches Ok(ProviderCall::SubtractEscrow { signer, value })
                && signer@ == a && value == signed.message.value,
        },
    }
}

/// The timestamp check: passes only for a receipt strictly later than the
/// watermark.
pub fn check_timestamp_against(watermark: u64, signed_receipt: &SignedReceipt) -> (r: ReceiptResult<()>)
    ensures
        timestamp_passes(watermark, signed_receipt.message.timestamp_ns) ==> r is Ok,
        !timestamp_passes(watermark, signed_receipt.message.timestamp_ns) ==> r == Err::<(), ReceiptError>(
            ReceiptError::InvalidTimestamp {
                received_timestamp: signed_receipt.message.timestamp_ns,
                timestamp_min: watermark,
            }),
{
    if signed_receipt.message.timestamp_ns <= watermark {
        return Err(ReceiptError::InvalidTimestamp {
            received_timestamp: signed_receipt.message.timestamp_ns,
            timestamp_min: watermark,
        });
    }
    Ok(())
}

fn recover_receipt_signer(domain: &DomainContext, signed_receipt: &SignedReceipt) -> (r: ReceiptResult<Address>)
    ensures
        r matches Ok(a) ==> signed_receipt.recovery_spec(*domain) == Ok::<Seq<u8>, Seq<char>>(a@),
        r is Err ==> (signed_receipt.recovery_spec(*domain) matches Err(m)
            && r matches Err(ReceiptError::InvalidSignature { source_error_message }) && source_error_message@ == m),
{
    match signed_receipt.recover_signer(domain) {
        Ok(a) => Ok(a),
        Err(m) => Err(ReceiptError::InvalidSignature { source_error_message: m }),
    }
}

/// The provider question that check `kind` asks, or the error that
/// decides it first (a timestamp not after the watermark, a signature
/// from which no signer can be recovered).
pub fn provider_call_for(domain: &DomainContext, watermark: u64, kind: ReceiptCheck, signed_receipt: &SignedReceipt,
    query_id: u64, receipt_id: u64) -> (r: ReceiptResult<ProviderCall>)
    ensures
        call_is_for(*domain, watermark, kind, *signed_receipt, query_id, receipt_id, r),
{
    match kind {
        ReceiptCheck::CheckUnique => Ok(ProviderCall::IsUnique { receipt_id }),
        ReceiptCheck::CheckAllocationId => Ok(ProviderCall::IsValidAllocationId {
            allocation_id: signed_receipt.message.allocation_id,
        }),
        ReceiptCheck::CheckValue => Ok(ProviderCall::IsValidValue { value: signed_receipt.message.value, query_id }),
        ReceiptCheck::CheckTimestamp => match check_timestamp_against(watermark, signed_receipt) {
            Ok(()) => Ok(ProviderCall::NoCall),
            Err(e) => Err(e),
        },
        ReceiptCheck::CheckSignature => match recover_receipt_signer(domain, signed_receipt) {
            Ok(gateway_id) => Ok(ProviderCall::IsValidGatewayId { gateway_id }),
            Err(e) => Err(e),
        },
        ReceiptCheck::CheckAndReserveEscrow => match recover_receipt_signer(domain, signed_receipt) {
            Ok(signer) => Ok(ProviderCall::SubtractEscrow { signer, value: signed_receipt.message.value }),
            Err(e) => Err(e),
        },
    }
}

/// Why a countersigned aggregate voucher was not accepted.
#[derive(Clone, Debug, PartialEq, Eq)]
pub enum AuditError {
    /// No signer can be recovered from the voucher's signature.
    SignerRecoveryFailed,
    /// The provider could not answer.
    AdapterError { source_error: String },
    /// The recovered signer is not an authorized payer.
    InvalidRecoveredSigner { address: Address },
}

/// Decides the check of a voucher's countersignature from the recovered
/// signer and the provider's answer on it.
pub fn rav_signature_outcome(signer: Option<Address>, reply: &ProviderReply) -> (r: Result<(), AuditError>)
    ensures
        signer is None ==> r == Err::<(), AuditError>(AuditError::SignerRecoveryFailed),
        signer matches Some(a) ==> match *reply {
            Err(m) => r == Err::<(), AuditError>(AuditError::AdapterError { source_error: m }),
            Ok(true) => r is Ok,
            Ok(false) => r == Err::<(), AuditError>(AuditError::InvalidRecoveredSigner { address: a }),
        },
{
    match signer {
        None => Err(AuditError::SignerRecoveryFailed),
        Some(a) => match reply {
            Err(m) => Err(AuditError::AdapterError { source_error: m.clone() }),
            Ok(true) => Ok(()),
            Ok(false) => Err(AuditError::InvalidRecoveredSigner { address: a }),
        },
    }
}

/// Runs the checks on receipts against the injected providers.
pub struct ReceiptAuditor<EA: EscrowAdapter, RCA: ReceiptChecksAdapter> {
    domain_separator: DomainContext,
    escrow_adapter: EA,
    receipt_checks_adapter: RCA,
    min_timestamp_ns: u64,
}

impl<EA: EscrowAdapter, RCA: ReceiptChecksAdapter> ReceiptAuditor<EA, RCA> {
    pub closed spec fn domain(&self) -> DomainContext {
        self.domain_separator
    }

    /// The watermark: receipts must be strictly later than it.
    pub closed spec fn watermark(&self) -> u64 {
        self.min_timestamp_ns
    }

    pub closed spec fn receipt_checks(&self) -> RCA {
        self.receipt_checks_adapter
    }

    pub closed spec fn escrow(&self) -> EA {
        self.escrow_adapter
    }

    /// Whether `r` is the provider question that check `kind` asks about
    /// `signed` under this auditor's domain and watermark.
    pub open spec fn call_is(&self, kind: ReceiptCheck, signed: SignedReceipt, query_id: u64, receipt_id: u64,
        r: ReceiptResult<ProviderCall>) -> bool
    {
        call_is_for(self.domain(), self.watermark(), kind, signed, query_id, receipt_id, r)
    }

    /// An auditor with the given domain, providers and starting watermark.
    pub fn new(domain_separator: DomainContext, escrow_adapter: EA, receipt_checks_adapter: RCA,
        starting_min_timestamp_ns: u64) -> (r: Self)
        ensures
            r.domain() == domain_separator,
            r.escrow() == escrow_adapter,
            r.receipt_checks() == receipt_checks_adapter,
            r.watermark() == starting_min_timestamp_ns,
    {
        ReceiptAuditor { domain_separator, escrow_adapter, receipt_checks_adapter, min_timestamp_ns: starting_min_timestamp_ns }
    }

    /// Sets the watermark (exclusive) below which receipts are refused.
    pub fn update_min_timestamp_ns(&mut self, min_timestamp_ns: u64)
        ensures
            final(self).watermark() == min_timestamp_ns,
            final(self).domain() == old(self).domain(),
            final(self).escrow() == old(self).escrow(),
            final(self).receipt_checks() == old(self).receipt_checks(),
    {
        self.min_timestamp_ns = min_timestamp_ns;
    }

    /// The current watermark.
    pub fn min_timestamp_ns(&self) -> (r: u64)
        ensures
            r == self.watermark(),
    {
        self.min_timestamp_ns
    }

    /// The escrow provider.
    pub fn escrow_adapter(&self) -> (r: &EA)
        ensures
            *r == self.escrow(),
    {
        &self.escrow_adapter
    }

    /// The receipt data provider.
    pub fn receipt_checks_adapter(&self) -> (r: &RCA)
        ensures
            *r == self.receipt_checks(),
    {
        &self.receipt_checks_adapter
    }

    /// The timestamp check: passes only for a receipt strictly later than the
    /// watermark.
    pub fn check_timestamp(&self, signed_receipt: &SignedReceipt) -> (r: ReceiptResult<()>)
        ensures
            timestamp_passes(self.watermark(), signed_receipt.message.timestamp_ns) ==> r is Ok,
            !timestamp_passes(self.watermark(), signed_receipt.message.timestamp_ns) ==> r == Err::<(), ReceiptError>(
                ReceiptError::InvalidTimestamp {
                    received_timestamp: signed_receipt.message.timestamp_ns,
                    timestamp_min: self.watermark(),
                }),
    {
        check_timestamp_against(self.min_timestamp_ns, signed_receipt)
    }

    /// The provider question that check `kind` asks, or the error that
    /// decides it first (a timestamp not after the watermark, a signature
    /// from which no signer can be recovered).
    pub fn provider_call(&self, kind: ReceiptCheck, signed_receipt: &SignedReceipt, query_id: u64, receipt_id: u64)
        -> (r: ReceiptResult<ProviderCall>)
        ensures
            self.call_is(kind, *signed_receipt, query_id, receipt_id, r),
    {
        provider_call_for(&self.domain_separator, self.min_timestamp_ns, kind, signed_receipt, query_id, receipt_id)
    }

    /// Runs check `kind` on a receipt: asks the provider the question that
    /// `provider_call` gives, unless that decides the check first, and then
    /// decides from the answer. Only an escrow reservation touches the escrow
    /// provider; no check changes the domain, the watermark or the receipt
    /// data provider.
    pub fn check(&mut self, kind: ReceiptCheck, signed_receipt: &SignedReceipt, query_id: u64, receipt_id: u64)
        -> (r: ReceiptResult<()>)
        ensures
            exists|c: ReceiptResult<ProviderCall>| #[trigger] old(self).call_is(kind, *signed_receipt, query_id, receipt_id, c)
                && exists|reply: ProviderReply| #[trigger] check_result_is(kind, signed_receipt.message, c, reply, r),
            final(self).domain() == old(self).domain(),
            final(self).watermark() == old(self).watermark(),
            final(self).receipt_checks() == old(self).receipt_checks(),
            kind != ReceiptCheck::CheckAndReserveEscrow ==> final(self).escrow() == old(self).escrow(),
            forall|c: ReceiptResult<ProviderCall>| #[trigger] old(self).call_is(kind, *signed_receipt, query_id, receipt_id, c)
                && c is Err ==> *final(self) == *old(self),
    {
        let call = self.provider_call(kind, signed_receipt, query_id, receipt_id);
        let c = match call {
            Err(e) => {
                assert(check_result_is(kind, signed_receipt.message, Err(e), Ok(true), Err(e)));
                return Err(e);
            },
            Ok(c) => c,
        };
        let reply: ProviderReply = match c {
            ProviderCall::NoCall => Ok(true),
            ProviderCall::IsUnique { receipt_id } => self.receipt_checks_adapter.is_unique(signed_receipt, receipt_id),
            ProviderCall::IsValidAllocationId { allocation_id } =>
                self.receipt_checks_adapter.is_valid_allocation_id(allocation_id),
            ProviderCall::IsValidValue { value, query_id } => self.receipt_checks_adapter.is_valid_value(value, query_id),
            ProviderCall::IsValidGatewayId { gateway_id } => self.receipt_checks_adapter.is_valid_gateway_id(gateway_id),
            ProviderCall::SubtractEscrow { signer, value } => match self.escrow_adapter.subtract_escrow(signer, value) {
                Ok(()) => Ok(true),
                Err(m) => Err(m),
            },
        };
        let r = check_outcome(kind, &signed_receipt.message, &c, &reply);
        assert(check_result_is(kind, signed_receipt.message, Ok(c), reply, r));
        r
    }

    /// Runs check `kind` on a received receipt and records the outcome, but
    /// only where the receipt allows it (`may_record`): a failed or included
    /// receipt is left alone, and an escrow reservation that passed is never
    /// made again. Returns the outcome when the check ran, `None` when it was
    /// refused, in which case nothing changed.
    pub fn run_check(&mut self, received: &mut ReceivedReceipt, kind: ReceiptCheck, receipt_id: u64)
        -> (r: Option<ReceiptResult<()>>)
        requires
            old(received).wf(),
        ensures
            final(received).wf(),
            r is None <==> !old(received).may_record(kind),
            r is None ==> *final(received) == *old(received) && *final(self) == *old(self),
            r matches Some(res) ==> final(received).check_results().outcome(kind) == Some(res),
            r matches Some(res) ==> exists|c: ReceiptResult<ProviderCall>, reply: ProviderReply|
                #[trigger] old(self).call_is(kind, old(received).signed(), old(received).query(), receipt_id, c)
                && #[trigger] check_result_is(kind, old(received).signed().message, c, reply, res),
            forall|d: ReceiptCheck| d != kind && old(received).check_results().requires_check(d)
                ==> final(received).check_results().outcome(d) == old(received).check_results().outcome(d),
            final(received).signed() == old(received).signed(),
            final(received).query() == old(received).query(),
            final(self).domain() == old(self).domain(),
            final(self).watermark() == old(self).watermark(),
            kind != ReceiptCheck::CheckAndReserveEscrow ==> final(self).escrow() == old(self).escrow(),
    {
        if !received.may_record_now(kind) {
            return None;
        }
        let result = self.check(kind, received.signed_receipt(), received.query_id(), receipt_id);
        let stored = match &result {
            Ok(u) => Ok(*u),
            Err(e) => Err(e.duplicate()),
        };
        assert(stored == result);
        let recorded = received.record_check_result(kind, stored);
        assert(recorded);
        Some(result)
    }

    /// Checks the countersignature of an aggregate voucher: the signer
    /// recovered from `signature` over the EIP-712 digest of the voucher's
    /// struct hash under the auditor's domain must be an authorized payer.
    pub fn check_rav_signature(&self, rav_struct_hash: &[u8; 32], signature: &[u8]) -> (r: Result<(), AuditError>)
        ensures
            recovery_of(signature@, eip712_digest(self.domain().separator_spec(), rav_struct_hash@)) is Err
                <==> r == Err::<(), AuditError>(AuditError::SignerRecoveryFailed),
            r matches Err(AuditError::InvalidRecoveredSigner { address })
                ==> recovery_of(signature@, eip712_digest(self.domain().separator_spec(), rav_struct_hash@))
                    == Ok::<Seq<u8>, Seq<char>>(address@),
    {
        let hash = digest(&self.domain_separator, rav_struct_hash);
        match recover_signer_from_prehash(&hash, signature) {
            Err(_) => Err(AuditError::SignerRecoveryFailed),
            Ok(a) => {
                let reply = self.receipt_checks_adapter.is_valid_gateway_id(a);
                rav_signature_outcome(Some(a), &reply)
            },
        }
    }

    /// A check other than escrow reservation, run again on the same receipt
    /// against the same domain, watermark and provider answer, gives the same
    /// result.
    pub proof fn lemma_recheck_same_outcome(&self, kind: ReceiptCheck, signed: SignedReceipt, query_id: u64,
        receipt_id: u64, reply: ProviderReply, c1: ReceiptResult<ProviderCall>, r1: ReceiptResult<()>,
        c2: ReceiptResult<ProviderCall>, r2: ReceiptResult<()>)
        requires
            kind != ReceiptCheck::CheckAndReserveEscrow,
            self.call_is(kind, signed, query_id, receipt_id, c1),
            self.call_is(kind, signed, query_id, receipt_id, c2),
            check_result_is(kind, signed.message, c1, reply, r1),
            check_result_is(kind, signed.message, c2, reply, r2),
        ensures
            same_outcome(r1, r2),
    {
    }

    /// The timestamp check fails for every receipt at or before the
    /// watermark and passes for every later one; it asks no provider.
    pub proof fn lemma_watermark_exclusive(&self, signed: SignedReceipt, query_id: u64, receipt_id: u64,
        c: ReceiptResult<ProviderCall>)
        requires
            self.call_is(ReceiptCheck::CheckTimestamp, signed, query_id, receipt_id, c),
        ensures
            signed.message.timestamp_ns <= self.watermark() ==> c matches Err(ReceiptError::InvalidTimestamp { .. }),
            signed.message.timestamp_ns > self.watermark() ==> c == Ok::<ProviderCall, ReceiptError>(ProviderCall::NoCall),
    {
    }
}

} // verus!
