//! Validated, bidirectional conversion between the wire representation of
//! cryptographic key metadata (integer-coded enums and optional sub-messages)
//! and a strongly typed domain model.
//!
//! `convert::decode` turns a wire value into a domain value that is
//! internally consistent, or fails with a classified error; `convert::encode`
//! packages a domain value back into wire form without loss.

pub mod codes;
pub mod convert;
pub mod domain;
pub mod wire;
