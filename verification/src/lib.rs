//! Proof of Bitcoin balance above a disclosed threshold.
//!
//! A prover holds an address, an ownership signature and a set of unspent
//! outputs; the library evaluates the balance statement (the summed amounts
//! meet or exceed the threshold, the outputs are well formed, distinct and
//! locked by the address's script), and on success emits a proof artifact
//! whose only public datum is the threshold.  A verifier checks an artifact
//! against the pinned program identity and recovers that threshold,
//! learning nothing else.
//!
//! One caveat is deliberate and must be read before trusting an artifact:
//! no zero-knowledge proving backend stands behind this build.  The
//! statement is evaluated honestly, in the open, as a pure function, and
//! the artifact is a deterministic digest tag binding the program identity
//! to the public output — computable by anyone from public data.
//! Acceptance therefore attests that the bytes are well formed and bound
//! to this statement's identity, not that any witness satisfied the
//! statement; it is no evidence of balance until a real proving backend
//! replaces the tag behind the engine's trusted boundary.

pub mod address;
pub mod codec;
pub mod engine;
pub mod hashing;
pub mod ownership;
pub mod service;
pub mod statement;
pub mod types;
