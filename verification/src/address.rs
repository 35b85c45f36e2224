//! Account and contract addresses.

use vstd::prelude::*;

verus! {

/// A 20-byte identifier of an account or a contract. Addresses are compared,
/// never computed with.
#[derive(Clone, Copy, Debug)]
pub struct Address {
    pub bytes: [u8; 20],
}

/// The text that `alloy_primitives::Address::to_checksum` gives, with no chain
/// id, for the address made of these 20 bytes.
pub uninterp spec fn checksum_text(bytes: Seq<u8>) -> Seq<char>;

impl PartialEq for Address {
    fn eq(&self, other: &Address) -> (result: bool) {
        let mut i: usize = 0;
        while i < 20
            invariant
                i <= 20,
                forall|k: int| 0 <= k < i ==> self.bytes@[k] == other.bytes@[k],
            decreases 20 - i,
        {
            if self.bytes[i] != other.bytes[i] {
                return false;
            }
            i = i + 1;
        }
        assert(self.bytes@ =~= other.bytes@);
        true
    }
}

impl Eq for Address {

}

impl vstd::std_specs::cmp::PartialEqSpecImpl for Address {
    open spec fn obeys_eq_spec() -> bool {
        true
    }

    open spec fn eq_spec(&self, other: &Address) -> bool {
        self.bytes@ == other.bytes@
    }
}

impl View for Address {
    type V = Seq<u8>;

    open spec fn view(&self) -> Seq<u8> {
        self.bytes@
    }
}

impl Address {
    /// Whether every byte is zero: the address that stands for "no contract".
    pub open spec fn is_zero_spec(&self) -> bool {
        forall|i: int| 0 <= i < 20 ==> self.bytes@[i] == 0u8
    }

    /// The address of 20 zero bytes.
    pub fn zero() -> (result: Address)
        ensures
            result.is_zero_spec(),
            result@.len() == 20,
    {
        Address { bytes: [0u8; 20] }
    }

    /// The address with the given bytes.
    pub fn from_bytes(bytes: [u8; 20]) -> (result: Address)
        ensures
            result.bytes == bytes,
            result@ == bytes@,
    {
        Address { bytes }
    }

    /// Tells whether this is the all-zero address.
    pub fn is_zero(&self) -> (result: bool)
        ensures
            result == self.is_zero_spec(),
    {
        let mut i: usize = 0;
        while i < 20
            invariant
                i <= 20,
                forall|k: int| 0 <= k < i ==> self.bytes@[k] == 0u8,
            decreases 20 - i,
        {
            if self.bytes[i] != 0 {
                return false;
            }
            i = i + 1;
        }
        true
    }

    /// The mixed-case checksummed text of the address, as wallets show it.
    pub fn checksum(&self) -> (result: String)
        ensures
            result@ == checksum_text(self@),
    {
        checksum_of(&self.bytes)
    }
}

/// Calls `alloy_primitives::Address::to_checksum` with no chain id on the
/// address of these bytes. Trusted: the text is the one that function gives,
/// a function of the 20 bytes alone.
#[verifier::external_body]
fn checksum_of(bytes: &[u8; 20]) -> (result: String)
    ensures
        result@ == checksum_text(bytes@),
{
    alloy_primitives::Address::from(*bytes).to_checksum(None)
}

} // verus!
