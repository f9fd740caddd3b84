//! Account addresses: fixed-width identifiers of storage slots and programs.
use vstd::prelude::*;
use vstd::std_specs::cmp::PartialEqSpecImpl;

verus! {

/// The width of an address in bytes.
pub const ADDRESS_BYTES: usize = 32;

/// The identifier of an account or of a program. Its view is its 32 bytes.
#[derive(Clone, Copy, Debug, Eq)]
pub struct Address {
    pub bytes: [u8; 32],
}

impl View for Address {
    type V = Seq<u8>;

    open spec fn view(&self) -> Seq<u8> {
        self.bytes@
    }
}

impl DeepView for Address {
    type V = Seq<u8>;

    open spec fn deep_view(&self) -> Seq<u8> {
        self.bytes@
    }
}

impl PartialEq for Address {
    /// Two addresses are equal when all their bytes are.
    fn eq(&self, other: &Self) -> (r: bool) {
        let mut i: usize = 0;
        while i < 32
            invariant
                0 <= i <= 32,
                forall|j: int| 0 <= j < i ==> self.bytes@[j] == other.bytes@[j],
            decreases 32 - i,
        {
            if self.bytes[i] != other.bytes[i] {
                return false;
            }
            i += 1;
        }
        assert(self.bytes@ =~= other.bytes@);
        true
    }
}

impl PartialEqSpecImpl for Address {
    open spec fn obeys_eq_spec() -> bool {
        true
    }

    open spec fn eq_spec(&self, other: &Self) -> bool {
        self@ == other@
    }
}

impl Address {
    /// The address with the given bytes.
    pub fn new(bytes: [u8; 32]) -> (r: Address)
        ensures
            r@ == bytes@,
            r.bytes == bytes,
    {
        Address { bytes }
    }

    /// The address whose bytes are `bytes`, where there are exactly 32 of them.
    pub fn from_slice(bytes: &[u8]) -> (r: Option<Address>)
        ensures
            bytes@.len() == 32 ==> r.is_some() && r.unwrap()@ == bytes@,
            bytes@.len() != 32 ==> r.is_none(),
    {
        if bytes.len() != ADDRESS_BYTES {
            return None;
        }
        let mut out: [u8; 32] = [0u8; 32];
        let mut i: usize = 0;
        while i < 32
            invariant
                0 <= i <= 32,
                bytes@.len() == 32,
                forall|j: int| 0 <= j < i ==> out@[j] == bytes@[j],
            decreases 32 - i,
        {
            out[i] = bytes[i];
            i += 1;
        }
        assert(out@ =~= bytes@);
        Some(Address { bytes: out })
    }

    /// The bytes of the address, in order.
    pub fn to_vec(&self) -> (r: Vec<u8>)
        ensures
            r@ == self@,
    {
        let mut out: Vec<u8> = Vec::new();
        let mut i: usize = 0;
        while i < 32
            invariant
                0 <= i <= 32,
                out@.len() == i,
                forall|j: int| 0 <= j < i ==> out@[j] == self.bytes@[j],
            decreases 32 - i,
        {
            out.push(self.bytes[i]);
            i += 1;
        }
        assert(out@ =~= self@);
        out
    }
}

/// Addresses with the same bytes are the same address.
pub proof fn lemma_address_ext(a: Address, b: Address)
    requires
        a@ == b@,
    ensures
        a == b,
{
    assert(a.bytes =~= b.bytes);
}

} // verus!
