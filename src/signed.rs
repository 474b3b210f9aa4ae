//! Signed receipts: the EIP-712 signing hash of a receipt under a domain,
//! and recovery of the address that signed it.
use vstd::prelude::*;
use crate::receipt::{Address, Receipt};
use vstd::string::StringSliceAdditionalSpecFns;

verus! {

/// The Keccak-256 digest of a byte string.
pub uninterp spec fn keccak_of(bytes: Seq<u8>) -> Seq<u8>;

/// The EIP-712 domain separator of a domain with the given name, version,
/// chain id and verifying contract, and no salt.
pub uninterp spec fn domain_separator_of(name: Seq<char>, version: Seq<char>, chain_id: u64, verifying_contract: Seq<u8>) -> Seq<u8>;

/// Recovery of the signer from a 65-byte signature over a 32-byte prehash:
/// the address, or the text of the error that stopped it.
pub uninterp spec fn recovery_of(signature: Seq<u8>, prehash: Seq<u8>) -> Result<Seq<u8>, Seq<char>>;

/// Relies on alloy_primitives::keccak256: the 32-byte Keccak-256 digest of the
/// bytes.
#[verifier::external_body]
fn keccak(bytes: &[u8]) -> (r: [u8; 32])
    ensures
        r@ == keccak_of(bytes@),
{
    alloy_primitives::keccak256(bytes).0
}

/// Relies on alloy_sol_types::Eip712Domain::separator: the EIP-712 hash of the
/// domain's fields.
#[verifier::external_body]
fn separator(domain: &DomainContext) -> (r: [u8; 32])
    ensures
        r@ == domain_separator_of(domain.name@, domain.version@, domain.chain_id, domain.verifying_contract@),
{
    alloy_sol_types::Eip712Domain::new(
        Some(std::borrow::Cow::Owned(domain.name.clone())),
        Some(std::borrow::Cow::Owned(domain.version.clone())),
        Some(alloy_primitives::U256::from(domain.chain_id)),
        Some(alloy_primitives::Address::from(domain.verifying_contract.bytes)),
        None,
    ).separator().0
}

/// The view of a recovery: the address's bytes, or the error's text.
pub open spec fn recovery_view(r: Result<Address, String>) -> Result<Seq<u8>, Seq<char>> {
    match r {
        Ok(a) => Ok(a@),
        Err(m) => Err(m@),
    }
}

/// Relies on alloy_primitives::Signature::from_raw, which reads 65 bytes as
/// r, s and v, and on Signature::recover_address_from_prehash, which recovers
/// the signing address; a failure of either gives its error's text.
#[verifier::external_body]
fn recover_address(signature: &[u8], prehash: &[u8; 32]) -> (r: Result<Address, String>)
    ensures
        recovery_view(r) == recovery_of(signature@, prehash@),
{
    match alloy_primitives::Signature::from_raw(signature) {
        Ok(sig) => match sig.recover_address_from_prehash(&alloy_primitives::B256::from(*prehash)) {
            Ok(a) => Ok(Address { bytes: a.0 .0 }),
            Err(e) => Err(e.to_string()),
        },
        Err(e) => Err(e.to_string()),
    }
}

/// The context that scopes every signature: name, version, chain and
/// verifying contract.
#[derive(Clone, Debug)]
pub struct DomainContext {
    pub name: String,
    pub version: String,
    pub chain_id: u64,
    pub verifying_contract: Address,
}

impl DomainContext {
    pub open spec fn separator_spec(&self) -> Seq<u8> {
        domain_separator_of(self.name@, self.version@, self.chain_id, self.verifying_contract@)
    }
}

/// The EIP-712 type of a receipt.
pub const RECEIPT_EIP712_TYPE: &'static str = "Receipt(address allocation_id,uint64 timestamp_ns,uint128 value)";

/// The 32-byte big-endian word that holds `x`.
pub open spec fn word_of(x: u128) -> Seq<u8> {
    Seq::new(32, |i: int| if i < 16 { 0u8 } else { ((x >> ((8 * (31 - i)) as u128)) & 0xff) as u8 })
}

/// The 32-byte word that holds an address: twelve zero bytes, then the
/// address.
pub open spec fn address_word(a: Seq<u8>) -> Seq<u8> {
    Seq::new(12, |i: int| 0u8) + a
}

/// The EIP-712 encoding of a receipt's fields.
pub open spec fn encode_receipt(r: Receipt) -> Seq<u8> {
    address_word(r.allocation_id@) + word_of(r.timestamp_ns as u128) + word_of(r.value)
}

/// The EIP-712 struct hash of a receipt.
pub open spec fn receipt_struct_hash(r: Receipt) -> Seq<u8> {
    keccak_of(keccak_of(RECEIPT_EIP712_TYPE.spec_bytes()) + encode_receipt(r))
}

/// The EIP-712 digest that is signed: `0x19 0x01`, the domain separator,
/// the struct hash.
pub open spec fn eip712_digest(separator: Seq<u8>, struct_hash: Seq<u8>) -> Seq<u8> {
    keccak_of(seq![0x19u8, 0x01u8] + separator + struct_hash)
}

/// The digest that a signer of receipt `r` signs.
pub open spec fn receipt_signing_hash(separator: Seq<u8>, r: Receipt) -> Seq<u8> {
    eip712_digest(separator, receipt_struct_hash(r))
}

fn push_word(out: &mut Vec<u8>, x: u128)
    ensures
        final(out)@ == old(out)@ + word_of(x),
{
    let ghost start = out@;
    let mut i: usize = 0;
    while i < 32
        invariant
            0 <= i <= 32,
            out@ == start + word_of(x).subrange(0, i as int),
        decreases 32 - i,
    {
        let b: u8 = if i < 16 { 0u8 } else { ((x >> ((8 * (31 - i)) as u128)) & 0xff) as u8 };
        out.push(b);
        assert(word_of(x).subrange(0, i as int + 1) =~= word_of(x).subrange(0, i as int).push(b));
        i = i + 1;
    }
    assert(word_of(x).subrange(0, 32) =~= word_of(x));
}

fn push_bytes(out: &mut Vec<u8>, b: &[u8])
    ensures
        final(out)@ == old(out)@ + b@,
{
    let ghost start = out@;
    let mut i: usize = 0;
    while i < b.len()
        invariant
            0 <= i <= b@.len(),
            out@ == start + b@.subrange(0, i as int),
        decreases b@.len() - i,
    {
        out.push(b[i]);
        assert(b@.subrange(0, i as int + 1) =~= b@.subrange(0, i as int).push(b@[i as int]));
        i = i + 1;
    }
    assert(b@.subrange(0, b@.len() as int) =~= b@);
}

/// The EIP-712 digest that a signer of `message` signs under `domain`.
pub fn signing_hash(domain: &DomainContext, message: &Receipt) -> (r: [u8; 32])
    ensures
        r@ == receipt_signing_hash(domain.separator_spec(), *message),
{
    let type_bytes = RECEIPT_EIP712_TYPE.as_bytes();
    let type_hash = keccak(type_bytes);
    let mut enc: Vec<u8> = Vec::new();
    push_bytes(&mut enc, type_hash.as_slice());
    let mut k: usize = 0;
    while k < 12
        invariant
            0 <= k <= 12,
            enc@ == type_hash@ + Seq::new(k as nat, |i: int| 0u8),
        decreases 12 - k,
    {
        enc.push(0u8);
        assert(Seq::new((k + 1) as nat, |i: int| 0u8) =~= Seq::new(k as nat, |i: int| 0u8).push(0u8));
        k = k + 1;
    }
    push_bytes(&mut enc, message.allocation_id.bytes.as_slice());
    push_word(&mut enc, message.timestamp_ns as u128);
    push_word(&mut enc, message.value);
    let struct_hash = keccak(enc.as_slice());
    assert(enc@ =~= type_hash@ + encode_receipt(*message));
    digest(domain, &struct_hash)
}

/// The EIP-712 digest of a struct hash under `domain`.
pub fn digest(domain: &DomainContext, struct_hash: &[u8; 32]) -> (r: [u8; 32])
    ensures
        r@ == eip712_digest(domain.separator_spec(), struct_hash@),
{
    let mut digest_input: Vec<u8> = vec![0x19u8, 0x01u8];
    let sep = separator(domain);
    push_bytes(&mut digest_input, sep.as_slice());
    push_bytes(&mut digest_input, struct_hash.as_slice());
    assert(digest_input@ =~= seq![0x19u8, 0x01u8] + domain.separator_spec() + struct_hash@);
    keccak(digest_input.as_slice())
}

/// The address that signed the 32-byte digest `prehash` with the 65-byte
/// `signature`, or the text of the error that stopped its recovery.
pub fn recover_signer_from_prehash(prehash: &[u8; 32], signature: &[u8]) -> (r: Result<Address, String>)
    ensures
        recovery_view(r) == recovery_of(signature@, prehash@),
{
    recover_address(signature, prehash)
}

/// A receipt together with the signature over its signing hash.
#[derive(Clone, Debug)]
pub struct SignedReceipt {
    pub message: Receipt,
    pub signature: Vec<u8>,
}

impl SignedReceipt {
    /// Recovery of the address that signed the receipt under `domain`: the
    /// address, or the text of the error.
    pub open spec fn recovery_spec(&self, domain: DomainContext) -> Result<Seq<u8>, Seq<char>> {
        recovery_of(self.signature@, receipt_signing_hash(domain.separator_spec(), self.message))
    }

    /// Wraps a receipt and its signature bytes.
    pub fn new(message: Receipt, signature: Vec<u8>) -> (r: SignedReceipt)
        ensures
            r.message == message,
            r.signature@ == signature@,
    {
        SignedReceipt { message, signature }
    }

    /// Recovers the signing address from the signature over the receipt's
    /// signing hash under `domain`; fails with the error's text when no
    /// address can be recovered.
    pub fn recover_signer(&self, domain: &DomainContext) -> (r: Result<Address, String>)
        ensures
            r matches Ok(a) ==> self.recovery_spec(*domain) == Ok::<Seq<u8>, Seq<char>>(a@),
            r matches Err(m) ==> self.recovery_spec(*domain) == Err::<Seq<u8>, Seq<char>>(m@),
    {
        let h = signing_hash(domain, &self.message);
        recover_address(self.signature.as_slice(), &h)
    }
}

} // verus!
