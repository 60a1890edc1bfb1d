//! A minimal proof-of-work gated chat relay library.
//!
//! A chat message is bundled with a nonce and a hex-encoded SHA-256 digest
//! into a commitment; the digest must begin with a required number of `'0'`
//! characters (the difficulty) for the commitment to be valid. The library
//! also models the broadcast hub that fans published payloads out to every
//! subscribed peer, and the per-connection relay decisions that bridge a
//! peer's transport to the hub.

pub mod client;
pub mod clock;
pub mod codec;
pub mod hash;
pub mod hub;
pub mod relay;
