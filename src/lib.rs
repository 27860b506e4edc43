//! Connection identifiers for a transport endpoint: minting them, and cheaply
//! telling whether an inbound one could have been minted here.

mod connection_id;
mod entropy;
mod generator;
mod hashed;
mod random;

pub use connection_id::{ConnectionId, InvalidCid, MAX_CID_SIZE};
pub use generator::ConnectionIdGenerator;
pub use hashed::{
    fx_keyed_digest, hashed_cid, le_byte, lemma_flipped_signature_bit_rejected,
    lemma_issued_cid_valid, lemma_same_key_same_verdict, signature_matches, signature_of,
    signature_valid, truncated_signature, HashedConnectionIdGenerator, NONCE_LEN, SIGNATURE_LEN,
};
pub use random::RandomConnectionIdGenerator;
