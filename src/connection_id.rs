use vstd::prelude::*;
use vstd::slice::slice_to_vec;

verus! {

/// The largest connection identifier the protocol allows, in bytes.
pub const MAX_CID_SIZE: usize = 20;

/// An opaque connection identifier: between 0 and `MAX_CID_SIZE` bytes.
#[derive(PartialEq, Eq, Hash, Debug)]
pub struct ConnectionId {
    bytes: Vec<u8>,
}

impl View for ConnectionId {
    type V = Seq<u8>;

    closed spec fn view(&self) -> Seq<u8> {
        self.bytes@
    }
}

impl ConnectionId {
    #[verifier::type_invariant]
    spec fn inv(&self) -> bool {
        self.bytes.len() <= MAX_CID_SIZE
    }

    /// Copies `bytes` into a new identifier.
    pub fn new(bytes: &[u8]) -> (r: Self)
        requires
            bytes@.len() <= MAX_CID_SIZE,
        ensures
            r@ == bytes@,
    {
        ConnectionId { bytes: slice_to_vec(bytes) }
    }

    /// The number of bytes in the identifier.
    pub fn len(&self) -> (r: usize)
        ensures
            r == self@.len(),
            r <= MAX_CID_SIZE,
    {
        proof {
            use_type_invariant(self);
        }
        self.bytes.len()
    }

    /// Whether the identifier has no bytes.
    pub fn is_empty(&self) -> (r: bool)
        ensures
            r == (self@.len() == 0),
    {
        self.bytes.len() == 0
    }

    /// The identifier's bytes.
    pub fn as_bytes(&self) -> (r: &[u8])
        ensures
            r@ == self@,
    {
        self.bytes.as_slice()
    }
}

impl Clone for ConnectionId {
    fn clone(&self) -> (r: Self)
        ensures
            r@ == self@,
    {
        proof {
            use_type_invariant(self);
        }
        let bytes = self.bytes.clone();
        proof {
            assert(bytes@ =~= self.bytes@);
        }
        ConnectionId { bytes }
    }
}

/// Validation found that a connection identifier was not issued by the generator.
#[derive(Debug, Copy, Clone, PartialEq, Eq, Structural)]
pub struct InvalidCid;

} // verus!
