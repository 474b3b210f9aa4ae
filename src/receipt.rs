//! Addresses and receipts: the payload that a gateway signs per query.
use vstd::prelude::*;

verus! {

/// A 20-byte account address.
#[derive(Clone, Copy, Debug)]
pub struct Address {
    pub bytes: [u8; 20],
}

impl View for Address {
    type V = Seq<u8>;

    open spec fn view(&self) -> Seq<u8> {
        self.bytes@
    }
}

impl Address {
    /// The address made of the given bytes.
    pub fn from_bytes(bytes: [u8; 20]) -> (r: Address)
        ensures
            r@ == bytes@,
    {
        Address { bytes }
    }

    /// The bytes of the address, most significant first.
    pub fn to_bytes(&self) -> (r: [u8; 20])
        ensures
            r@ == self@,
    {
        self.bytes
    }

    /// Whether two addresses hold the same bytes.
    pub fn same_as(&self, other: &Address) -> (r: bool)
        ensures
            r == (self@ == other@),
    {
        let mut i: usize = 0;
        while i < 20
            invariant
                0 <= i <= 20,
                self@.len() == 20,
                other@.len() == 20,
                forall|j: int| 0 <= j < i ==> self@[j] == other@[j],
            decreases 20 - i,
        {
            if self.bytes[i] != other.bytes[i] {
                return false;
            }
            i = i + 1;
        }
        assert(self@ =~= other@);
        true
    }
}

/// The text of an address as alloy writes it.
pub uninterp spec fn address_text_of(bytes: Seq<u8>) -> Seq<char>;

/// Relies on the `Display` of alloy_primitives::Address: `0x` and the
/// EIP-55 checksummed hex of the bytes.
#[verifier::external_body]
pub(crate) fn address_text(a: &Address) -> (r: String)
    ensures
        r@ == address_text_of(a@),
{
    alloy_primitives::Address::from(a.bytes).to_string()
}

impl PartialEq for Address {
    fn eq(&self, other: &Address) -> (r: bool) {
        self.same_as(other)
    }
}

impl Eq for Address {}

impl vstd::std_specs::cmp::PartialEqSpecImpl for Address {
    open spec fn obeys_eq_spec() -> bool {
        true
    }

    open spec fn eq_spec(&self, other: &Address) -> bool {
        self@ == other@
    }
}

/// A claim of value against one allocation, made at a point in time.
#[derive(Clone, Copy, Debug, PartialEq, Eq)]
pub struct Receipt {
    pub allocation_id: Address,
    pub timestamp_ns: u64,
    pub value: u128,
}

/// Why a receipt could not be built.
#[derive(Clone, Copy, Debug, PartialEq, Eq)]
pub enum ReceiptBuildError {
    /// A receipt must carry a non-zero value.
    ZeroValue,
}

impl Receipt {
    /// Whether the receipt is one that `new` can build.
    pub open spec fn valid(&self) -> bool {
        self.value > 0
    }

    /// Builds a receipt; a zero value is refused.
    pub fn new(allocation_id: Address, timestamp_ns: u64, value: u128) -> (r: Result<Receipt, ReceiptBuildError>)
        ensures
            value == 0 <==> r is Err,
            r matches Err(e) ==> e == ReceiptBuildError::ZeroValue,
            r matches Ok(rc) ==> rc.allocation_id@ == allocation_id@ && rc.timestamp_ns == timestamp_ns
                && rc.value == value && rc.valid(),
    {
        if value == 0 {
            return Err(ReceiptBuildError::ZeroValue);
        }
        Ok(Receipt { allocation_id, timestamp_ns, value })
    }

    /// Whether two receipts carry the same allocation, timestamp and value.
    pub fn same_message(&self, other: &Receipt) -> (r: bool)
        ensures
            r == self.same_message_spec(*other),
    {
        self.timestamp_ns == other.timestamp_ns && self.value == other.value
            && self.allocation_id.same_as(&other.allocation_id)
    }

    pub open spec fn same_message_spec(&self, other: Receipt) -> bool {
        self.allocation_id@ == other.allocation_id@ && self.timestamp_ns == other.timestamp_ns
            && self.value == other.value
    }
}

} // verus!
