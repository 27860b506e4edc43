use vstd::prelude::*;
use core::hash::Hasher;
use core::time::Duration;
use crate::connection_id::{ConnectionId, InvalidCid};
use crate::entropy::{fill_random, random_u64};
use crate::generator::ConnectionIdGenerator;
use vstd::slice::slice_to_vec;

verus! {

/// Bytes of random nonce at the start of a hashed identifier; good for more
/// than 16 million connections.
pub const NONCE_LEN: usize = 3;

/// Bytes of keyed-hash signature after the nonce.
pub const SIGNATURE_LEN: usize = 8 - NONCE_LEN;

/// FxHash's 64-bit digest of `key` written as a `u64`, followed by `nonce`.
pub uninterp spec fn fx_keyed_digest(key: u64, nonce: Seq<u8>) -> u64;

/// Byte `i` of `x` in little-endian order.
pub open spec fn le_byte(x: u64, i: int) -> u8 {
    ((x >> ((8 * i) as u64)) & 0xff) as u8
}

/// The signature carried by an identifier: the low-order `SIGNATURE_LEN`
/// bytes of `digest`, least significant first.
pub open spec fn signature_of(digest: u64) -> Seq<u8> {
    Seq::new(SIGNATURE_LEN as nat, |i: int| le_byte(digest, i))
}

/// The identifier issued under `key` for `nonce`: the nonce, then the
/// signature of their keyed digest.
pub open spec fn hashed_cid(key: u64, nonce: Seq<u8>) -> Seq<u8> {
    nonce + signature_of(fx_keyed_digest(key, nonce))
}

/// Whether `cid` is eight bytes whose last five are the signature of the
/// keyed digest of its first three.
pub open spec fn signature_valid(key: u64, cid: Seq<u8>) -> bool {
    &&& cid.len() == NONCE_LEN + SIGNATURE_LEN
    &&& cid.subrange(NONCE_LEN as int, cid.len() as int) == signature_of(
        fx_keyed_digest(key, cid.subrange(0, NONCE_LEN as int)),
    )
}

/// Relies on rustc-hash's `FxHasher`: a fresh hasher fed `write_u64(key)`
/// then `write(nonce)`, and its `finish`. The digest depends on the two
/// arguments alone for a given pointer width.
#[verifier::external_body]
fn keyed_digest(key: u64, nonce: &[u8]) -> (r: u64)
    ensures
        r == fx_keyed_digest(key, nonce@),
{
    let mut hasher = rustc_hash::FxHasher::default();
    hasher.write_u64(key);
    hasher.write(nonce);
    hasher.finish()
}

/// The signature bytes for a keyed digest.
pub fn truncated_signature(digest: u64) -> (r: Vec<u8>)
    ensures
        r@ == signature_of(digest),
{
    let mut r: Vec<u8> = Vec::with_capacity(SIGNATURE_LEN);
    let mut i: usize = 0;
    while i < SIGNATURE_LEN
        invariant
            i <= SIGNATURE_LEN,
            r@ == signature_of(digest).subrange(0, i as int),
        decreases SIGNATURE_LEN - i,
    {
        let b: u8 = ((digest >> ((8 * i) as u64)) & 0xff) as u8;
        r.push(b);
        i = i + 1;
        proof {
            assert(r@ =~= signature_of(digest).subrange(0, i as int));
        }
    }
    proof {
        assert(r@ =~= signature_of(digest));
    }
    r
}

/// Whether `signature` is exactly the signature for `digest`.
pub fn signature_matches(digest: u64, signature: &[u8]) -> (r: bool)
    ensures
        r == (signature@ == signature_of(digest)),
{
    if signature.len() != SIGNATURE_LEN {
        proof {
            assert(signature@.len() != signature_of(digest).len());
        }
        return false;
    }
    let mut i: usize = 0;
    while i < SIGNATURE_LEN
        invariant
            i <= SIGNATURE_LEN,
            signature@.len() == SIGNATURE_LEN,
            forall|j: int| 0 <= j < i ==> signature@[j] == #[trigger] le_byte(digest, j),
        decreases SIGNATURE_LEN - i,
    {
        let b: u8 = ((digest >> ((8 * i) as u64)) & 0xff) as u8;
        if signature[i] != b {
            proof {
                assert(signature@[i as int] != signature_of(digest)[i as int]);
            }
            return false;
        }
        i = i + 1;
    }
    proof {
        assert(signature@ =~= signature_of(digest));
    }
    true
}

/// Issues 8-byte identifiers that validation can check cheaply: a random
/// nonce followed by a keyed-hash signature of it.
///
/// The hash is not cryptographic, so identifiers can still be forged; the
/// check only spares the endpoint work on stray or casual traffic.
pub struct HashedConnectionIdGenerator {
    key: u64,
    lifetime: Option<Duration>,
}

impl HashedConnectionIdGenerator {
    /// The secret key the signatures are computed under.
    pub closed spec fn spec_key(&self) -> u64 {
        self.key
    }

    /// A generator with a random key and no lifetime.
    pub fn new() -> (r: Self)
        ensures
            r.spec_lifetime() is None,
    {
        Self::from_key(random_u64())
    }

    /// A generator with the given key and no lifetime.
    ///
    /// Keeping the key lets validation recognise the same identifiers
    /// across restarts.
    pub fn from_key(key: u64) -> (r: Self)
        ensures
            r.spec_key() == key,
            r.spec_lifetime() is None,
    {
        HashedConnectionIdGenerator { key, lifetime: None }
    }

    /// Sets how long issued identifiers live before retirement.
    pub fn set_lifetime(&mut self, d: Duration) -> (r: &mut Self)
        ensures
            r.spec_lifetime() == Some(d),
            r.spec_key() == old(self).spec_key(),
            *final(self) == *final(r),
    {
        self.lifetime = Some(d);
        self
    }

    /// The identifier this generator issues for a given nonce.
    pub fn cid_from_nonce(&self, nonce: &[u8]) -> (r: ConnectionId)
        requires
            nonce@.len() == NONCE_LEN,
        ensures
            r@ == hashed_cid(self.spec_key(), nonce@),
    {
        let digest = keyed_digest(self.key, nonce);
        let mut bytes: Vec<u8> = slice_to_vec(nonce);
        let mut signature = truncated_signature(digest);
        bytes.append(&mut signature);
        ConnectionId::new(bytes.as_slice())
    }
}

impl Default for HashedConnectionIdGenerator {
    /// A generator with a random key and no lifetime.
    fn default() -> (r: Self)
        ensures
            r.spec_lifetime() is None,
    {
        Self::new()
    }
}

impl ConnectionIdGenerator for HashedConnectionIdGenerator {
    open spec fn spec_cid_len(&self) -> nat {
        (NONCE_LEN + SIGNATURE_LEN) as nat
    }

    closed spec fn spec_lifetime(&self) -> Option<Duration> {
        self.lifetime
    }

    /// Exactly the identifiers whose signature is valid under the key.
    open spec fn accepts(&self, cid: Seq<u8>) -> bool {
        signature_valid(self.spec_key(), cid)
    }

    fn generate_cid(&mut self) -> (r: ConnectionId)
        ensures
            *final(self) == *old(self),
            exists|nonce: Seq<u8>|
                nonce.len() == NONCE_LEN && r@ == hashed_cid(old(self).spec_key(), nonce),
    {
        let mut nonce: Vec<u8> = vec![0u8; NONCE_LEN];
        fill_random(&mut nonce);
        let r = self.cid_from_nonce(nonce.as_slice());
        proof {
            lemma_issued_cid_valid(self.key, nonce@);
        }
        r
    }

    fn validate(&self, cid: &ConnectionId) -> (r: Result<(), InvalidCid>)
        ensures
            r is Ok <==> self.accepts(cid@),
    {
        let bytes = cid.as_bytes();
        if bytes.len() < NONCE_LEN {
            return Err(InvalidCid);
        }
        let (nonce, signature) = bytes.split_at(NONCE_LEN);
        proof {
            assert(nonce@ =~= cid@.subrange(0, NONCE_LEN as int));
            assert(signature@ =~= cid@.subrange(NONCE_LEN as int, cid@.len() as int));
            assert(cid@.len() == NONCE_LEN + signature@.len());
            assert(signature_of(fx_keyed_digest(self.key, nonce@)).len() == SIGNATURE_LEN);
        }
        let digest = keyed_digest(self.key, nonce);
        if signature_matches(digest, signature) {
            Ok(())
        } else {
            Err(InvalidCid)
        }
    }

    fn cid_len(&self) -> (r: usize) {
        NONCE_LEN + SIGNATURE_LEN
    }

    fn cid_lifetime(&self) -> (r: Option<Duration>) {
        self.lifetime
    }
}

/// Every identifier issued under a key is eight bytes long and passes
/// validation under that key.
pub proof fn lemma_issued_cid_valid(key: u64, nonce: Seq<u8>)
    requires
        nonce.len() == NONCE_LEN,
    ensures
        hashed_cid(key, nonce).len() == 8,
        signature_valid(key, hashed_cid(key, nonce)),
{
    let cid = hashed_cid(key, nonce);
    assert(cid.subrange(0, NONCE_LEN as int) =~= nonce);
    assert(cid.subrange(NONCE_LEN as int, cid.len() as int) =~= signature_of(
        fx_keyed_digest(key, nonce),
    ));
}

/// Flipping any single bit of the signature of a valid identifier makes it
/// invalid: for a given nonce exactly one signature passes.
pub proof fn lemma_flipped_signature_bit_rejected(key: u64, cid: Seq<u8>, i: int, bit: u8)
    requires
        signature_valid(key, cid),
        NONCE_LEN <= i < NONCE_LEN + SIGNATURE_LEN,
        bit < 8,
    ensures
        !signature_valid(key, cid.update(i, cid[i] ^ (1u8 << bit))),
{
    let b = cid[i];
    let flipped = cid.update(i, b ^ (1u8 << bit));
    assert(b ^ (1u8 << bit) != b) by (bit_vector)
        requires
            bit < 8,
    ;
    assert(flipped.subrange(0, NONCE_LEN as int) =~= cid.subrange(0, NONCE_LEN as int));
    assert(flipped.subrange(NONCE_LEN as int, 8)[i - NONCE_LEN] != cid.subrange(
        NONCE_LEN as int,
        8,
    )[i - NONCE_LEN]);
}

/// Generators built from the same key accept exactly the same identifiers,
/// so each accepts every identifier the other issues.
pub proof fn lemma_same_key_same_verdict(
    a: HashedConnectionIdGenerator,
    b: HashedConnectionIdGenerator,
    cid: Seq<u8>,
    nonce: Seq<u8>,
)
    requires
        a.spec_key() == b.spec_key(),
        nonce.len() == NONCE_LEN,
    ensures
        a.accepts(cid) == b.accepts(cid),
        b.accepts(hashed_cid(a.spec_key(), nonce)),
{
    lemma_issued_cid_valid(a.spec_key(), nonce);
}

} // verus!
