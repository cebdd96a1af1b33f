//! Typed sr25519 key material: fixed-length public keys and signatures,
//! hierarchical key derivation over soft and hard junctions, and the
//! sign/verify surface, with the curve arithmetic supplied by `sp_core`.

mod errors;
mod junction;
mod keypair;
mod public_key;
mod signature;

pub use errors::Error;
pub use junction::DeriveJunction;
pub use keypair::KeyPair;
pub use public_key::PublicKey;
pub use public_key::PUBLIC_KEY_LENGTH;
pub use signature::Signature;
pub use signature::SIGNATURE_LENGTH;
