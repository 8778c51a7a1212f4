//! Chain addresses as plain values: 32 bytes.

use vstd::prelude::*;

verus! {

/// The length, in bytes, of every chain address.
pub const ADDRESS_LEN: usize = 32;

/// A chain address: the 32 bytes that identify an account, a mint or a
/// program on chain.
pub struct Address {
    pub(crate) bytes: Vec<u8>,
}

impl Address {
    #[verifier::type_invariant]
    spec fn inv(self) -> bool {
        self.bytes@.len() == ADDRESS_LEN
    }

    /// Build an address from its bytes; `None` unless exactly 32 were given.
    pub fn from_bytes(bytes: Vec<u8>) -> (r: Option<Address>)
        ensures
            r is Some <==> bytes@.len() == ADDRESS_LEN,
            r matches Some(a) ==> a@ == bytes@,
    {
        if bytes.len() == ADDRESS_LEN {
            Some(Address { bytes })
        } else {
            None
        }
    }

    /// The 32 bytes of the address.
    pub fn as_bytes(&self) -> (r: &Vec<u8>)
        ensures
            r@ == self@,
            r@.len() == ADDRESS_LEN,
    {
        proof {
            use_type_invariant(self);
        }
        &self.bytes
    }
}

impl View for Address {
    type V = Seq<u8>;

    closed spec fn view(&self) -> Seq<u8> {
        self.bytes@
    }
}

impl Clone for Address {
    fn clone(&self) -> (r: Self)
        ensures
            r@ == self@,
    {
        proof {
            use_type_invariant(self);
        }
        let mut bytes: Vec<u8> = Vec::new();
        let mut i: usize = 0;
        while i < self.bytes.len()
            invariant
                i <= self.bytes@.len(),
                bytes@ == self.bytes@.take(i as int),
        decreases self.bytes@.len() - i,
        {
            bytes.push(self.bytes[i]);
            i = i + 1;
        }
        proof {
            assert(bytes@ =~= self.bytes@);
        }
        Address { bytes }
    }
}

} // verus!
