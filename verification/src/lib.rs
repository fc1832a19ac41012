//! Verification gate for privacy-pool transfer requests.
//!
//! Given a market identifier and an encoded `(public, private)` pair
//! describing a shielded transfer, the library decides whether the request is
//! auto-accepted (market exempted), cryptographically verified (market
//! supported), or rejected (market unknown).  The poseidon hash, commitment
//! combiner and Merkle-proof evaluator are called through a small trusted
//! layer; everything around them — policy classification, payload decoding
//! and the final equality decision — is verified.

pub mod field;
pub mod gate;
pub mod hexstr;
pub mod outcome;
pub mod policy;
pub mod pubinput;
pub mod transfer;
pub mod witness;

pub use field::FieldElem;
pub use gate::InputPayload;
pub use gate::verify_zkbob_secret;
pub use outcome::MarketError;
pub use outcome::VerificationOutcome;
