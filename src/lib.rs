//! Verified core of a CKB lock script that authorizes a spend either through a
//! dynamically loaded secp256k1 library's sighash check, or by recovering the
//! signer's public key from a signed message and comparing its hash with the
//! committed 20-byte public-key hash.

pub mod digest;
pub mod error;
pub mod hash;
pub mod resolver;
pub mod witness;
