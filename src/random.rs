use vstd::prelude::*;
use core::time::Duration;
use crate::connection_id::{ConnectionId, MAX_CID_SIZE};
use crate::entropy::fill_random;
use crate::generator::ConnectionIdGenerator;

verus! {

/// Issues identifiers of a fixed length made of secure random bytes alone.
///
/// They can be shorter than those of `HashedConnectionIdGenerator`, but
/// validation cannot reject anything.
#[derive(Debug, Clone, Copy)]
pub struct RandomConnectionIdGenerator {
    cid_len: usize,
    lifetime: Option<Duration>,
}

impl RandomConnectionIdGenerator {
    /// The configured length is one the protocol allows.
    #[verifier::type_invariant]
    spec fn inv(&self) -> bool {
        self.cid_len <= MAX_CID_SIZE
    }

    /// A generator of `cid_len`-byte identifiers with no lifetime.
    pub fn new(cid_len: usize) -> (r: Self)
        requires
            cid_len <= MAX_CID_SIZE,
        ensures
            r.spec_cid_len() == cid_len,
            r.spec_lifetime() is None,
    {
        RandomConnectionIdGenerator { cid_len, lifetime: None }
    }

    /// Sets how long issued identifiers live before retirement.
    pub fn set_lifetime(&mut self, d: Duration) -> (r: &mut Self)
        ensures
            r.spec_lifetime() == Some(d),
            r.spec_cid_len() == old(self).spec_cid_len(),
            *final(self) == *final(r),
    {
        proof {
            use_type_invariant(&*self);
        }
        *self = RandomConnectionIdGenerator { cid_len: self.cid_len, lifetime: Some(d) };
        self
    }
}

impl Default for RandomConnectionIdGenerator {
    /// A generator of 8-byte identifiers with no lifetime.
    fn default() -> (r: Self)
        ensures
            r.spec_cid_len() == 8,
            r.spec_lifetime() is None,
    {
        RandomConnectionIdGenerator { cid_len: 8, lifetime: None }
    }
}

impl ConnectionIdGenerator for RandomConnectionIdGenerator {
    closed spec fn spec_cid_len(&self) -> nat {
        self.cid_len as nat
    }

    closed spec fn spec_lifetime(&self) -> Option<Duration> {
        self.lifetime
    }

    /// Every identifier is accepted.
    open spec fn accepts(&self, cid: Seq<u8>) -> bool {
        true
    }

    fn generate_cid(&mut self) -> (r: ConnectionId)
        ensures
            *final(self) == *old(self),
    {
        proof {
            use_type_invariant(&*self);
        }
        let mut bytes: Vec<u8> = vec![0u8; self.cid_len];
        fill_random(&mut bytes);
        ConnectionId::new(bytes.as_slice())
    }

    fn cid_len(&self) -> (r: usize) {
        self.cid_len
    }

    fn cid_lifetime(&self) -> (r: Option<Duration>) {
        self.lifetime
    }
}

} // verus!
