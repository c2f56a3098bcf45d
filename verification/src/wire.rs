//! The wire schema: the loosely typed representation exchanged at the
//! service boundary. Enums travel as bare integer codes, any of which may be
//! out of range, and the algorithm travels as an optional union sub-message.
//! Code 0 is reserved to mean "field not present" for the optional enums
//! (`ecc_curve`, `hash_algorithm`).

use vstd::prelude::*;

verus! {

/// The signing sub-message of the algorithm union: a signing-scheme code and
/// a hash code, where hash code 0 means "no hash algorithm".
#[derive(Clone, Copy, Debug, PartialEq, Eq)]
pub struct Sign {
    pub sign_algorithm: i32,
    pub hash_algorithm: i32,
}

/// The algorithm union as it appears on the wire. Only the `Sign` arm is
/// understood by this layer; the other arms are well-formed but unsupported.
#[derive(Clone, Copy, Debug, PartialEq, Eq)]
pub enum AlgorithmProto {
    Cipher(i32),
    AsymmetricEncryption(i32),
    Sign(Sign),
    KeyAgreement(i32),
    KeyDerivation(i32),
}

/// Key metadata as received off the wire, mirroring the domain
/// `KeyAttributes` field for field with enums as bare integers.
#[derive(Clone, Copy, Debug, PartialEq, Eq)]
pub struct KeyAttributesProto {
    pub key_type: i32,
    pub ecc_curve: i32,
    pub algorithm_proto: Option<AlgorithmProto>,
    pub key_size: u32,
    pub permit_export: bool,
    pub permit_encrypt: bool,
    pub permit_decrypt: bool,
    pub permit_sign: bool,
    pub permit_verify: bool,
    pub permit_derive: bool,
}

} // verus!
