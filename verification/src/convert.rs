//! The converter: field-by-field mapping between the wire representation
//! and the domain model, in both directions, with every failure classified.

use vstd::prelude::*;

use crate::codes::{
    ecc_curve_from_code, hash_algorithm_from_code, key_type_from_code, sign_algorithm_from_code,
    ecc_curve_code, hash_algorithm_code, key_type_code, sign_algorithm_code,
    lemma_ecc_curve_code_roundtrip, lemma_hash_algorithm_code_roundtrip,
    lemma_key_type_code_roundtrip, lemma_sign_algorithm_code_roundtrip,
    spec_ecc_curve_code, spec_ecc_curve_from_code, spec_hash_algorithm_code,
    spec_hash_algorithm_from_code, spec_key_type_code, spec_key_type_from_code,
    spec_sign_algorithm_code, spec_sign_algorithm_from_code,
};
use crate::domain::{Algorithm, AlgorithmInner, EccCurve, HashAlgorithm, KeyAttributes};
use crate::wire::{AlgorithmProto, KeyAttributesProto, Sign};

verus! {

/// Why a conversion failed.
#[derive(Clone, Copy, Debug, PartialEq, Eq)]
pub enum ErrorKind {
    /// The wire bytes are structurally malformed: an enum code that no
    /// variant is assigned to, or the required algorithm sub-message missing.
    InvalidEncoding,
    /// The wire bytes are well formed but name an algorithm kind this layer
    /// does not implement.
    NotSupported,
}

/// What decoding an optional curve field yields: `None` for the "no curve"
/// sentinel, the curve for an assigned code, and `InvalidEncoding` for any
/// other code.
pub open spec fn spec_decode_ecc_curve_field(c: i32) -> Result<Option<EccCurve>, ErrorKind> {
    if c == 0 {
        Ok(None)
    } else {
        match spec_ecc_curve_from_code(c) {
            Some(curve) => Ok(Some(curve)),
            None => Err(ErrorKind::InvalidEncoding),
        }
    }
}

/// What decoding an optional hash field yields: `None` for the "no hash
/// algorithm" sentinel, the hash for an assigned code, and `InvalidEncoding`
/// for any other code.
pub open spec fn spec_decode_hash_field(c: i32) -> Result<Option<HashAlgorithm>, ErrorKind> {
    if c == 0 {
        Ok(None)
    } else {
        match spec_hash_algorithm_from_code(c) {
            Some(hash) => Ok(Some(hash)),
            None => Err(ErrorKind::InvalidEncoding),
        }
    }
}

/// What decoding the algorithm union yields: for the `Sign` arm, a domain
/// `Sign` algorithm if both codes resolve; for every other arm,
/// `NotSupported`.
pub open spec fn spec_algorithm_from_proto(alg: AlgorithmProto) -> Result<Algorithm, ErrorKind> {
    match alg {
        AlgorithmProto::Sign(sign) => match spec_sign_algorithm_from_code(sign.sign_algorithm) {
            None => Err(ErrorKind::InvalidEncoding),
            Some(sign_alg) => match spec_decode_hash_field(sign.hash_algorithm) {
                Err(e) => Err(e),
                Ok(hash_alg) => Ok(Algorithm { inner: AlgorithmInner::Sign(sign_alg, hash_alg) }),
            },
        },
        _ => Err(ErrorKind::NotSupported),
    }
}

/// What encoding a domain algorithm yields: the `Sign` sub-message for a
/// `Sign` algorithm, with `None` hashes mapped to the sentinel code 0, and
/// `NotSupported` for every other kind.
pub open spec fn spec_algorithm_to_proto(alg: Algorithm) -> Result<AlgorithmProto, ErrorKind> {
    match alg.inner {
        AlgorithmInner::Sign(sign_alg, hash_alg) => Ok(
            AlgorithmProto::Sign(
                Sign {
                    sign_algorithm: spec_sign_algorithm_code(sign_alg),
                    hash_algorithm: match hash_alg {
                        None => 0,
                        Some(hash) => spec_hash_algorithm_code(hash),
                    },
                },
            ),
        ),
        _ => Err(ErrorKind::NotSupported),
    }
}

/// What decoding a whole wire value yields, field by field: the first
/// failure wins, in the order key type, curve, algorithm presence,
/// algorithm.
pub open spec fn spec_decode(attrs: KeyAttributesProto) -> Result<KeyAttributes, ErrorKind> {
    match spec_key_type_from_code(attrs.key_type) {
        None => Err(ErrorKind::InvalidEncoding),
        Some(key_type) => match spec_decode_ecc_curve_field(attrs.ecc_curve) {
            Err(e) => Err(e),
            Ok(ecc_curve) => match attrs.algorithm_proto {
                None => Err(ErrorKind::InvalidEncoding),
                Some(alg_proto) => match spec_algorithm_from_proto(alg_proto) {
                    Err(e) => Err(e),
                    Ok(algorithm) => Ok(
                        KeyAttributes {
                            key_type,
                            ecc_curve,
                            algorithm,
                            key_size: attrs.key_size,
                            permit_export: attrs.permit_export,
                            permit_encrypt: attrs.permit_encrypt,
                            permit_decrypt: attrs.permit_decrypt,
                            permit_sign: attrs.permit_sign,
                            permit_verify: attrs.permit_verify,
                            permit_derive: attrs.permit_derive,
                        },
                    ),
                },
            },
        },
    }
}

/// What encoding a whole domain value yields: every enum as its code, an
/// absent curve as the sentinel code 0, and the algorithm as its
/// sub-message; fails only when the algorithm kind is unsupported.
pub open spec fn spec_encode(attrs: KeyAttributes) -> Result<KeyAttributesProto, ErrorKind> {
    match spec_algorithm_to_proto(attrs.algorithm) {
        Err(e) => Err(e),
        Ok(alg_proto) => Ok(
            KeyAttributesProto {
                key_type: spec_key_type_code(attrs.key_type),
                ecc_curve: match attrs.ecc_curve {
                    None => 0,
                    Some(curve) => spec_ecc_curve_code(curve),
                },
                algorithm_proto: Some(alg_proto),
                key_size: attrs.key_size,
                permit_export: attrs.permit_export,
                permit_encrypt: attrs.permit_encrypt,
                permit_decrypt: attrs.permit_decrypt,
                permit_sign: attrs.permit_sign,
                permit_verify: attrs.permit_verify,
                permit_derive: attrs.permit_derive,
            },
        ),
    }
}

/// Decode the algorithm union sub-message into a domain algorithm, or fail
/// with `InvalidEncoding` on an unassigned code and `NotSupported` on any
/// arm other than `Sign`.
pub fn algorithm_from_proto(alg: AlgorithmProto) -> (r: Result<Algorithm, ErrorKind>)
    ensures
        r == spec_algorithm_from_proto(alg),
{
    match alg {
        AlgorithmProto::Sign(sign) => {
            let sign_alg = match sign_algorithm_from_code(sign.sign_algorithm) {
                Some(sign_alg) => sign_alg,
                None => {
                    return Err(ErrorKind::InvalidEncoding);
                },
            };
            let hash_alg = if sign.hash_algorithm == 0 {
                None
            } else {
                match hash_algorithm_from_code(sign.hash_algorithm) {
                    Some(hash) => Some(hash),
                    None => {
                        return Err(ErrorKind::InvalidEncoding);
                    },
                }
            };
            Ok(Algorithm::sign(sign_alg, hash_alg))
        },
        _ => Err(ErrorKind::NotSupported),
    }
}

/// Encode a domain algorithm as its wire sub-message, or fail with
/// `NotSupported` on any kind other than `Sign`.
pub fn algorithm_to_proto(alg: Algorithm) -> (r: Result<AlgorithmProto, ErrorKind>)
    ensures
        r == spec_algorithm_to_proto(alg),
{
    match alg.inner {
        AlgorithmInner::Sign(sign_alg, hash_alg) => Ok(
            AlgorithmProto::Sign(
                Sign {
                    sign_algorithm: sign_algorithm_code(sign_alg),
                    hash_algorithm: match hash_alg {
                        None => 0,
                        Some(hash) => hash_algorithm_code(hash),
                    },
                },
            ),
        ),
        _ => Err(ErrorKind::NotSupported),
    }
}

/// Decode a wire value into validated key attributes.
///
/// The first failure aborts the whole conversion: an unassigned key-type,
/// curve, signing-scheme or hash code fails with `InvalidEncoding`, as does
/// a missing algorithm sub-message; an algorithm arm other than `Sign`
/// fails with `NotSupported`. On success every enum field holds the variant
/// its code stands for, sentinel code 0 became `None` for the optional
/// fields, and the key size and permission flags are copied unchanged.
pub fn decode(attrs: KeyAttributesProto) -> (r: Result<KeyAttributes, ErrorKind>)
    ensures
        r == spec_decode(attrs),
{
    let key_type = match key_type_from_code(attrs.key_type) {
        Some(key_type) => key_type,
        None => {
            return Err(ErrorKind::InvalidEncoding);
        },
    };
    let ecc_curve = if attrs.ecc_curve == 0 {
        None
    } else {
        match ecc_curve_from_code(attrs.ecc_curve) {
            Some(curve) => Some(curve),
            None => {
                return Err(ErrorKind::InvalidEncoding);
            },
        }
    };
    let alg_proto = match attrs.algorithm_proto {
        Some(alg_proto) => alg_proto,
        None => {
            return Err(ErrorKind::InvalidEncoding);
        },
    };
    let algorithm = match algorithm_from_proto(alg_proto) {
        Ok(algorithm) => algorithm,
        Err(e) => {
            return Err(e);
        },
    };
    Ok(
        KeyAttributes {
            key_type,
            ecc_curve,
            algorithm,
            key_size: attrs.key_size,
            permit_export: attrs.permit_export,
            permit_encrypt: attrs.permit_encrypt,
            permit_decrypt: attrs.permit_decrypt,
            permit_sign: attrs.permit_sign,
            permit_verify: attrs.permit_verify,
            permit_derive: attrs.permit_derive,
        },
    )
}

/// Encode validated key attributes as a wire value.
///
/// Total for every domain value whose algorithm is `Sign`; any other
/// algorithm kind fails with `NotSupported`. An absent curve or hash is
/// emitted as the sentinel code 0, every enum as its assigned code, and the
/// key size and permission flags are copied unchanged.
pub fn encode(attrs: KeyAttributes) -> (r: Result<KeyAttributesProto, ErrorKind>)
    ensures
        r == spec_encode(attrs),
{
    let alg_proto = match algorithm_to_proto(attrs.algorithm) {
        Ok(alg_proto) => alg_proto,
        Err(e) => {
            return Err(e);
        },
    };
    Ok(
        KeyAttributesProto {
            key_type: key_type_code(attrs.key_type),
            ecc_curve: match attrs.ecc_curve {
                None => 0,
                Some(curve) => ecc_curve_code(curve),
            },
            algorithm_proto: Some(alg_proto),
            key_size: attrs.key_size,
            permit_export: attrs.permit_export,
            permit_encrypt: attrs.permit_encrypt,
            permit_decrypt: attrs.permit_decrypt,
            permit_sign: attrs.permit_sign,
            permit_verify: attrs.permit_verify,
            permit_derive: attrs.permit_derive,
        },
    )
}

/// Round trip: every domain value whose algorithm is `Sign` encodes
/// successfully, and decoding the encoding yields the value back unchanged.
pub proof fn lemma_round_trip(attrs: KeyAttributes)
    requires
        attrs.algorithm.inner is Sign,
    ensures
        spec_encode(attrs) is Ok,
        spec_decode(spec_encode(attrs)->Ok_0) == Ok::<KeyAttributes, ErrorKind>(attrs),
{
    lemma_key_type_code_roundtrip(attrs.key_type);
    match attrs.ecc_curve {
        Some(curve) => lemma_ecc_curve_code_roundtrip(curve),
        None => {},
    }
    match attrs.algorithm.inner {
        AlgorithmInner::Sign(sign_alg, hash_alg) => {
            lemma_sign_algorithm_code_roundtrip(sign_alg);
            match hash_alg {
                Some(hash) => lemma_hash_algorithm_code_roundtrip(hash),
                None => {},
            }
        },
        _ => {},
    }
}

/// Sentinel symmetry for the curve, encoding side: a domain value without a
/// curve encodes (when it encodes at all) to wire code 0.
pub proof fn lemma_ecc_sentinel_encode(attrs: KeyAttributes)
    requires
        attrs.ecc_curve is None,
        spec_encode(attrs) is Ok,
    ensures
        spec_encode(attrs)->Ok_0.ecc_curve == 0,
{
}

/// Sentinel symmetry for the curve, decoding side: a wire value with curve
/// code 0 decodes (when it decodes at all) to a domain value without a
/// curve.
pub proof fn lemma_ecc_sentinel_decode(attrs: KeyAttributesProto)
    requires
        attrs.ecc_curve == 0,
        spec_decode(attrs) is Ok,
    ensures
        spec_decode(attrs)->Ok_0.ecc_curve is None,
{
}

/// Sentinel symmetry for the hash, encoding side: a `Sign` algorithm
/// without a hash encodes to a sub-message with hash code 0.
pub proof fn lemma_hash_sentinel_encode(attrs: KeyAttributes)
    requires
        attrs.algorithm.inner matches AlgorithmInner::Sign(_, hash_alg) && hash_alg is None,
    ensures
        spec_encode(attrs) is Ok,
        spec_encode(attrs)->Ok_0.algorithm_proto matches Some(AlgorithmProto::Sign(sign))
            && sign.hash_algorithm == 0,
{
}

/// Sentinel symmetry for the hash, decoding side: a wire `Sign` sub-message
/// with hash code 0 decodes (when the whole value decodes at all) to a
/// `Sign` algorithm without a hash.
pub proof fn lemma_hash_sentinel_decode(attrs: KeyAttributesProto)
    requires
        attrs.algorithm_proto matches Some(AlgorithmProto::Sign(sign)) && sign.hash_algorithm == 0,
        spec_decode(attrs) is Ok,
    ensures
        spec_decode(attrs)->Ok_0.algorithm.inner matches AlgorithmInner::Sign(_, hash_alg)
            && hash_alg is None,
{
}

/// Unknown code rejection: a wire value whose key-type code, nonzero curve
/// code, signing-scheme code or nonzero hash code is assigned to no variant
/// fails to decode with `InvalidEncoding`, whatever the other fields hold.
pub proof fn lemma_unknown_code_rejected(attrs: KeyAttributesProto)
    requires
        ({
            ||| spec_key_type_from_code(attrs.key_type) is None
            ||| attrs.ecc_curve != 0 && spec_ecc_curve_from_code(attrs.ecc_curve) is None
            ||| attrs.algorithm_proto matches Some(AlgorithmProto::Sign(sign))
                && spec_sign_algorithm_from_code(sign.sign_algorithm) is None
            ||| attrs.algorithm_proto matches Some(AlgorithmProto::Sign(sign))
                && sign.hash_algorithm != 0
                && spec_hash_algorithm_from_code(sign.hash_algorithm) is None
        }),
    ensures
        spec_decode(attrs) == Err::<KeyAttributes, ErrorKind>(ErrorKind::InvalidEncoding),
{
}

/// Missing algorithm rejection: a wire value with the algorithm sub-message
/// absent fails to decode with `InvalidEncoding`, whatever the other fields
/// hold.
pub proof fn lemma_missing_algorithm_rejected(attrs: KeyAttributesProto)
    requires
        attrs.algorithm_proto is None,
    ensures
        spec_decode(attrs) == Err::<KeyAttributes, ErrorKind>(ErrorKind::InvalidEncoding),
{
}

/// Unsupported variant rejection, decoding side: a wire value that is well
/// formed up to its algorithm union but carries an arm other than `Sign`
/// fails to decode with `NotSupported`.
pub proof fn lemma_unsupported_variant_decode(attrs: KeyAttributesProto)
    requires
        spec_key_type_from_code(attrs.key_type) is Some,
        attrs.ecc_curve == 0 || spec_ecc_curve_from_code(attrs.ecc_curve) is Some,
        attrs.algorithm_proto matches Some(alg) && alg !is Sign,
    ensures
        spec_decode(attrs) == Err::<KeyAttributes, ErrorKind>(ErrorKind::NotSupported),
{
}

/// Unsupported variant rejection, encoding side: a domain value whose
/// algorithm kind is anything other than `Sign` fails to encode with
/// `NotSupported`.
pub proof fn lemma_unsupported_variant_encode(attrs: KeyAttributes)
    requires
        attrs.algorithm.inner !is Sign,
    ensures
        spec_encode(attrs) == Err::<KeyAttributesProto, ErrorKind>(ErrorKind::NotSupported),
{
}

} // verus!
