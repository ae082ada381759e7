//! Verified core of a gateway that checks zero-knowledge proofs for a host
//! runtime: the hex codec for artifacts that arrive as text, and the rules by
//! which one verification call is driven through a proof-system backend.

pub mod codec;
pub mod error;
pub mod gateway;
