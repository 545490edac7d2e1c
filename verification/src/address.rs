//! Account addresses as the library holds them: 32 plain bytes.

use vstd::prelude::*;
use vstd::array::spec_array_fill_for_copy_type;
use vstd::std_specs::cmp::PartialEqSpecImpl;

verus! {

/// Number of bytes of an address.
pub const ADDRESS_LEN: usize = 32;

/// The address of an account on the ledger.
#[derive(Debug, Copy, Clone, Eq)]
pub struct Address {
    pub bytes: [u8; 32],
}

impl View for Address {
    type V = Seq<u8>;

    /// The 32 bytes of the address.
    open spec fn view(&self) -> Seq<u8> {
        self.bytes@
    }
}

impl PartialEq for Address {
    /// Two addresses are equal when their bytes are.
    fn eq(&self, other: &Self) -> (r: bool) {
        let mut i: usize = 0;
        while i < ADDRESS_LEN
            invariant
                0 <= i <= ADDRESS_LEN,
                forall|j: int| 0 <= j < i ==> self.bytes[j] == other.bytes[j],
            decreases ADDRESS_LEN - i,
        {
            if self.bytes[i] != other.bytes[i] {
                return false;
            }
            i += 1;
        }
        assert(self.bytes =~= other.bytes);
        true
    }
}

impl PartialEqSpecImpl for Address {
    open spec fn obeys_eq_spec() -> bool {
        true
    }

    open spec fn eq_spec(&self, other: &Self) -> bool {
        *self == *other
    }
}

impl Address {
    /// The address whose bytes are all zero, as found in storage that was
    /// never written or was erased.
    pub open spec fn spec_zero() -> Address {
        Address { bytes: spec_array_fill_for_copy_type::<u8, 32>(0u8) }
    }

    /// The address made of the given bytes.
    pub fn new(bytes: [u8; 32]) -> (a: Address)
        ensures
            a.bytes == bytes,
            a@ == bytes@,
    {
        Address { bytes }
    }

    /// The all-zero address.
    pub fn zero() -> (a: Address)
        ensures
            a == Address::spec_zero(),
            a@ == Seq::new(ADDRESS_LEN as nat, |i: int| 0u8),
    {
        let a = Address { bytes: [0u8;32] };
        assert(a@ =~= Seq::new(ADDRESS_LEN as nat, |i: int| 0u8));
        a
    }

    /// The bytes of this address.
    pub fn to_bytes(&self) -> (bytes: [u8; 32])
        ensures
            bytes == self.bytes,
            bytes@ == self@,
    {
        self.bytes
    }

    /// Reads an address from a slice, which must hold exactly 32 bytes.
    pub fn from_slice(bytes: &[u8]) -> (r: Option<Address>)
        ensures
            r is Some <==> bytes@.len() == ADDRESS_LEN,
            r matches Some(a) ==> a@ == bytes@,
    {
        if bytes.len() != ADDRESS_LEN {
            return None;
        }
        let mut out = [0u8;32];
        let mut i: usize = 0;
        while i < ADDRESS_LEN
            invariant
                0 <= i <= ADDRESS_LEN,
                bytes@.len() == ADDRESS_LEN,
                forall|j: int| 0 <= j < i ==> out[j] == bytes@[j],
            decreases ADDRESS_LEN - i,
        {
            out[i] = bytes[i];
            i += 1;
        }
        let a = Address { bytes: out };
        assert(a@ =~= bytes@);
        Some(a)
    }

    /// Appends the 32 bytes of this address to `buf`.
    pub fn append_to(&self, buf: &mut Vec<u8>)
        ensures
            final(buf)@ == old(buf)@ + self@,
    {
        let mut i: usize = 0;
        while i < ADDRESS_LEN
            invariant
                0 <= i <= ADDRESS_LEN,
                buf@ == old(buf)@ + self@.subrange(0, i as int),
            decreases ADDRESS_LEN - i,
        {
            buf.push(self.bytes[i]);
            i += 1;
            assert(buf@ =~= old(buf)@ + self@.subrange(0, i as int));
        }
        assert(self@.subrange(0, ADDRESS_LEN as int) =~= self@);
    }
}

/// An address is its 32 bytes and nothing more: two addresses with the same
/// bytes are the same address.
pub proof fn lemma_address_by_bytes(a: Address, b: Address)
    ensures
        a@.len() == ADDRESS_LEN,
        a@ == b@ <==> a == b,
{
    if a@ == b@ {
        assert(a.bytes =~= b.bytes);
    }
}

} // verus!
