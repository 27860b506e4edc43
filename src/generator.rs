use vstd::prelude::*;
use core::time::Duration;
use crate::connection_id::{ConnectionId, InvalidCid};

verus! {

/// A source of connection identifiers for incoming connections.
///
/// `accepts` is the set of identifiers that `validate` lets through: every
/// identifier the generator has issued stays in it, so validation never
/// rejects one of its own.
pub trait ConnectionIdGenerator: Send + Sync {
    /// The length of every identifier this generator issues.
    spec fn spec_cid_len(&self) -> nat;

    /// How long issued identifiers live before retirement, if they expire.
    spec fn spec_lifetime(&self) -> Option<Duration>;

    /// The identifiers that `validate` does not reject.
    spec fn accepts(&self, cid: Seq<u8>) -> bool;

    /// Issues a new identifier of `cid_len()` bytes.
    ///
    /// The identifier must carry nothing an outside observer could use to
    /// link it with other identifiers of the same connection.
    fn generate_cid(&mut self) -> (r: ConnectionId)
        ensures
            r@.len() == old(self).spec_cid_len(),
            final(self).accepts(r@),
            forall|c: Seq<u8>| old(self).accepts(c) ==> #[trigger] final(self).accepts(c),
            final(self).spec_cid_len() == old(self).spec_cid_len(),
            final(self).spec_lifetime() == old(self).spec_lifetime(),
    ;

    /// Cheaply tells whether `cid` could have been issued by this generator.
    ///
    /// False positives are allowed; identifiers the generator issued are
    /// never rejected. Unless overridden, every identifier is accepted.
    fn validate(&self, cid: &ConnectionId) -> (r: Result<(), InvalidCid>)
        ensures
            self.accepts(cid@) ==> r is Ok,
        default_ensures
            r is Ok,
    {
        Ok(())
    }

    /// The length of the identifiers this generator issues.
    fn cid_len(&self) -> (r: usize)
        ensures
            r == self.spec_cid_len(),
    ;

    /// How long issued identifiers live before retirement; `None` if they
    /// do not expire.
    fn cid_lifetime(&self) -> (r: Option<Duration>)
        ensures
            r == self.spec_lifetime(),
    ;
}

} // verus!
