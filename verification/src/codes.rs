//! The validator: the wire code assigned to each enum variant, and the
//! decoding of a bare integer code back into a variant. Each decode is a
//! total function from the full integer range to `Option`: every known code
//! yields its variant and every other code yields `None`, so adversarial
//! input can never be truncated into a valid variant.
//!
//! Code 0 is never assigned to a variant of `EccCurve` or `HashAlgorithm`:
//! it is the sentinel the wire schema reserves for "field not present".
//! `KeyType` and `SignAlgorithm` are required fields, so code 0 is simply
//! unassigned there and decodes to `None`.

use vstd::prelude::*;

use crate::domain::{EccCurve, HashAlgorithm, KeyType, SignAlgorithm};

verus! {

/// The wire code of a key type.
pub open spec fn spec_key_type_code(v: KeyType) -> i32 {
    match v {
        KeyType::HmacKey => 1,
        KeyType::DerivationKey => 2,
        KeyType::AesKey => 3,
        KeyType::DesKey => 4,
        KeyType::CamelliaKey => 5,
        KeyType::Arc4Key => 6,
        KeyType::RsaPublicKey => 7,
        KeyType::RsaKeypair => 8,
        KeyType::DsaPublicKey => 9,
        KeyType::DsaKeypair => 10,
        KeyType::EccPublicKey => 11,
        KeyType::EccKeypair => 12,
    }
}

/// The key type a wire code stands for, if any.
pub open spec fn spec_key_type_from_code(c: i32) -> Option<KeyType> {
    if c == 1 {
        Some(KeyType::HmacKey)
    } else if c == 2 {
        Some(KeyType::DerivationKey)
    } else if c == 3 {
        Some(KeyType::AesKey)
    } else if c == 4 {
        Some(KeyType::DesKey)
    } else if c == 5 {
        Some(KeyType::CamelliaKey)
    } else if c == 6 {
        Some(KeyType::Arc4Key)
    } else if c == 7 {
        Some(KeyType::RsaPublicKey)
    } else if c == 8 {
        Some(KeyType::RsaKeypair)
    } else if c == 9 {
        Some(KeyType::DsaPublicKey)
    } else if c == 10 {
        Some(KeyType::DsaKeypair)
    } else if c == 11 {
        Some(KeyType::EccPublicKey)
    } else if c == 12 {
        Some(KeyType::EccKeypair)
    } else {
        None
    }
}

/// The wire code of an elliptic curve; always nonzero, since 0 is the
/// "no curve" sentinel.
pub open spec fn spec_ecc_curve_code(v: EccCurve) -> i32 {
    match v {
        EccCurve::Sect163k1 => 1,
        EccCurve::Sect163r1 => 2,
        EccCurve::Sect239k1 => 3,
        EccCurve::Sect283k1 => 4,
        EccCurve::Sect283r1 => 5,
        EccCurve::Sect409k1 => 6,
        EccCurve::Sect409r1 => 7,
        EccCurve::Sect571k1 => 8,
        EccCurve::Sect571r1 => 9,
        EccCurve::Secp160k1 => 10,
        EccCurve::Secp160r1 => 11,
        EccCurve::Secp160r2 => 12,
        EccCurve::Secp192k1 => 13,
        EccCurve::Secp192r1 => 14,
        EccCurve::Secp224k1 => 15,
        EccCurve::Secp224r1 => 16,
        EccCurve::Secp256k1 => 17,
        EccCurve::Secp256r1 => 18,
        EccCurve::Secp384r1 => 19,
        EccCurve::Secp521r1 => 20,
    }
}

/// The elliptic curve a wire code stands for, if any. Code 0 is the
/// "no curve" sentinel, not a curve, and decodes to `None` here.
pub open spec fn spec_ecc_curve_from_code(c: i32) -> Option<EccCurve> {
    if c == 1 {
        Some(EccCurve::Sect163k1)
    } else if c == 2 {
        Some(EccCurve::Sect163r1)
    } else if c == 3 {
        Some(EccCurve::Sect239k1)
    } else if c == 4 {
        Some(EccCurve::Sect283k1)
    } else if c == 5 {
        Some(EccCurve::Sect283r1)
    } else if c == 6 {
        Some(EccCurve::Sect409k1)
    } else if c == 7 {
        Some(EccCurve::Sect409r1)
    } else if c == 8 {
        Some(EccCurve::Sect571k1)
    } else if c == 9 {
        Some(EccCurve::Sect571r1)
    } else if c == 10 {
        Some(EccCurve::Secp160k1)
    } else if c == 11 {
        Some(EccCurve::Secp160r1)
    } else if c == 12 {
        Some(EccCurve::Secp160r2)
    } else if c == 13 {
        Some(EccCurve::Secp192k1)
    } else if c == 14 {
        Some(EccCurve::Secp192r1)
    } else if c == 15 {
        Some(EccCurve::Secp224k1)
    } else if c == 16 {
        Some(EccCurve::Secp224r1)
    } else if c == 17 {
        Some(EccCurve::Secp256k1)
    } else if c == 18 {
        Some(EccCurve::Secp256r1)
    } else if c == 19 {
        Some(EccCurve::Secp384r1)
    } else if c == 20 {
        Some(EccCurve::Secp521r1)
    } else {
        None
    }
}

/// The wire code of a signing scheme.
pub open spec fn spec_sign_algorithm_code(v: SignAlgorithm) -> i32 {
    match v {
        SignAlgorithm::RsaPkcs1v15Sign => 1,
        SignAlgorithm::RsaPkcs1v15SignRaw => 2,
        SignAlgorithm::RsaPss => 3,
        SignAlgorithm::Dsa => 4,
        SignAlgorithm::DeterministicDsa => 5,
        SignAlgorithm::Ecdsa => 6,
        SignAlgorithm::EcdsaAny => 7,
        SignAlgorithm::DeterministicEcdsa => 8,
    }
}

/// The signing scheme a wire code stands for, if any.
pub open spec fn spec_sign_algorithm_from_code(c: i32) -> Option<SignAlgorithm> {
    if c == 1 {
        Some(SignAlgorithm::RsaPkcs1v15Sign)
    } else if c == 2 {
        Some(SignAlgorithm::RsaPkcs1v15SignRaw)
    } else if c == 3 {
        Some(SignAlgorithm::RsaPss)
    } else if c == 4 {
        Some(SignAlgorithm::Dsa)
    } else if c == 5 {
        Some(SignAlgorithm::DeterministicDsa)
    } else if c == 6 {
        Some(SignAlgorithm::Ecdsa)
    } else if c == 7 {
        Some(SignAlgorithm::EcdsaAny)
    } else if c == 8 {
        Some(SignAlgorithm::DeterministicEcdsa)
    } else {
        None
    }
}

/// The wire code of a hash algorithm; always nonzero, since 0 is the
/// "no hash algorithm" sentinel.
pub open spec fn spec_hash_algorithm_code(v: HashAlgorithm) -> i32 {
    match v {
        HashAlgorithm::Md2 => 1,
        HashAlgorithm::Md4 => 2,
        HashAlgorithm::Md5 => 3,
        HashAlgorithm::Ripemd160 => 4,
        HashAlgorithm::Sha1 => 5,
        HashAlgorithm::Sha224 => 6,
        HashAlgorithm::Sha256 => 7,
        HashAlgorithm::Sha384 => 8,
        HashAlgorithm::Sha512 => 9,
        HashAlgorithm::Sha3_224 => 10,
        HashAlgorithm::Sha3_256 => 11,
        HashAlgorithm::Sha3_384 => 12,
        HashAlgorithm::Sha3_512 => 13,
    }
}

/// The hash algorithm a wire code stands for, if any. Code 0 is the
/// "no hash algorithm" sentinel, not a hash, and decodes to `None` here.
pub open spec fn spec_hash_algorithm_from_code(c: i32) -> Option<HashAlgorithm> {
    if c == 1 {
        Some(HashAlgorithm::Md2)
    } else if c == 2 {
        Some(HashAlgorithm::Md4)
    } else if c == 3 {
        Some(HashAlgorithm::Md5)
    } else if c == 4 {
        Some(HashAlgorithm::Ripemd160)
    } else if c == 5 {
        Some(HashAlgorithm::Sha1)
    } else if c == 6 {
        Some(HashAlgorithm::Sha224)
    } else if c == 7 {
        Some(HashAlgorithm::Sha256)
    } else if c == 8 {
        Some(HashAlgorithm::Sha384)
    } else if c == 9 {
        Some(HashAlgorithm::Sha512)
    } else if c == 10 {
        Some(HashAlgorithm::Sha3_224)
    } else if c == 11 {
        Some(HashAlgorithm::Sha3_256)
    } else if c == 12 {
        Some(HashAlgorithm::Sha3_384)
    } else if c == 13 {
        Some(HashAlgorithm::Sha3_512)
    } else {
        None
    }
}

/// Encode a key type as its wire code.
pub fn key_type_code(v: KeyType) -> (c: i32)
    ensures
        c == spec_key_type_code(v),
{
    match v {
        KeyType::HmacKey => 1,
        KeyType::DerivationKey => 2,
        KeyType::AesKey => 3,
        KeyType::DesKey => 4,
        KeyType::CamelliaKey => 5,
        KeyType::Arc4Key => 6,
        KeyType::RsaPublicKey => 7,
        KeyType::RsaKeypair => 8,
        KeyType::DsaPublicKey => 9,
        KeyType::DsaKeypair => 10,
        KeyType::EccPublicKey => 11,
        KeyType::EccKeypair => 12,
    }
}

/// Decode a wire code into a key type; `None` on every unassigned code.
pub fn key_type_from_code(c: i32) -> (r: Option<KeyType>)
    ensures
        r == spec_key_type_from_code(c),
{
    match c {
        1 => Some(KeyType::HmacKey),
        2 => Some(KeyType::DerivationKey),
        3 => Some(KeyType::AesKey),
        4 => Some(KeyType::DesKey),
        5 => Some(KeyType::CamelliaKey),
        6 => Some(KeyType::Arc4Key),
        7 => Some(KeyType::RsaPublicKey),
        8 => Some(KeyType::RsaKeypair),
        9 => Some(KeyType::DsaPublicKey),
        10 => Some(KeyType::DsaKeypair),
        11 => Some(KeyType::EccPublicKey),
        12 => Some(KeyType::EccKeypair),
        _ => None,
    }
}

/// Encode an elliptic curve as its wire code.
pub fn ecc_curve_code(v: EccCurve) -> (c: i32)
    ensures
        c == spec_ecc_curve_code(v),
{
    match v {
        EccCurve::Sect163k1 => 1,
        EccCurve::Sect163r1 => 2,
        EccCurve::Sect239k1 => 3,
        EccCurve::Sect283k1 => 4,
        EccCurve::Sect283r1 => 5,
        EccCurve::Sect409k1 => 6,
        EccCurve::Sect409r1 => 7,
        EccCurve::Sect571k1 => 8,
        EccCurve::Sect571r1 => 9,
        EccCurve::Secp160k1 => 10,
        EccCurve::Secp160r1 => 11,
        EccCurve::Secp160r2 => 12,
        EccCurve::Secp192k1 => 13,
        EccCurve::Secp192r1 => 14,
        EccCurve::Secp224k1 => 15,
        EccCurve::Secp224r1 => 16,
        EccCurve::Secp256k1 => 17,
        EccCurve::Secp256r1 => 18,
        EccCurve::Secp384r1 => 19,
        EccCurve::Secp521r1 => 20,
    }
}

/// Decode a wire code into an elliptic curve; `None` on 0 (the sentinel)
/// and on every unassigned code.
pub fn ecc_curve_from_code(c: i32) -> (r: Option<EccCurve>)
    ensures
        r == spec_ecc_curve_from_code(c),
{
    match c {
        1 => Some(EccCurve::Sect163k1),
        2 => Some(EccCurve::Sect163r1),
        3 => Some(EccCurve::Sect239k1),
        4 => Some(EccCurve::Sect283k1),
        5 => Some(EccCurve::Sect283r1),
        6 => Some(EccCurve::Sect409k1),
        7 => Some(EccCurve::Sect409r1),
        8 => Some(EccCurve::Sect571k1),
        9 => Some(EccCurve::Sect571r1),
        10 => Some(EccCurve::Secp160k1),
        11 => Some(EccCurve::Secp160r1),
        12 => Some(EccCurve::Secp160r2),
        13 => Some(EccCurve::Secp192k1),
        14 => Some(EccCurve::Secp192r1),
        15 => Some(EccCurve::Secp224k1),
        16 => Some(EccCurve::Secp224r1),
        17 => Some(EccCurve::Secp256k1),
        18 => Some(EccCurve::Secp256r1),
        19 => Some(EccCurve::Secp384r1),
        20 => Some(EccCurve::Secp521r1),
        _ => None,
    }
}

/// Encode a signing scheme as its wire code.
pub fn sign_algorithm_code(v: SignAlgorithm) -> (c: i32)
    ensures
        c == spec_sign_algorithm_code(v),
{
    match v {
        SignAlgorithm::RsaPkcs1v15Sign => 1,
        SignAlgorithm::RsaPkcs1v15SignRaw => 2,
        SignAlgorithm::RsaPss => 3,
        SignAlgorithm::Dsa => 4,
        SignAlgorithm::DeterministicDsa => 5,
        SignAlgorithm::Ecdsa => 6,
        SignAlgorithm::EcdsaAny => 7,
        SignAlgorithm::DeterministicEcdsa => 8,
    }
}

/// Decode a wire code into a signing scheme; `None` on every unassigned code.
pub fn sign_algorithm_from_code(c: i32) -> (r: Option<SignAlgorithm>)
    ensures
        r == spec_sign_algorithm_from_code(c),
{
    match c {
        1 => Some(SignAlgorithm::RsaPkcs1v15Sign),
        2 => Some(SignAlgorithm::RsaPkcs1v15SignRaw),
        3 => Some(SignAlgorithm::RsaPss),
        4 => Some(SignAlgorithm::Dsa),
        5 => Some(SignAlgorithm::DeterministicDsa),
        6 => Some(SignAlgorithm::Ecdsa),
        7 => Some(SignAlgorithm::EcdsaAny),
        8 => Some(SignAlgorithm::DeterministicEcdsa),
        _ => None,
    }
}

/// Encode a hash algorithm as its wire code.
pub fn hash_algorithm_code(v: HashAlgorithm) -> (c: i32)
    ensures
        c == spec_hash_algorithm_code(v),
{
    match v {
        HashAlgorithm::Md2 => 1,
        HashAlgorithm::Md4 => 2,
        HashAlgorithm::Md5 => 3,
        HashAlgorithm::Ripemd160 => 4,
        HashAlgorithm::Sha1 => 5,
        HashAlgorithm::Sha224 => 6,
        HashAlgorithm::Sha256 => 7,
        HashAlgorithm::Sha384 => 8,
        HashAlgorithm::Sha512 => 9,
        HashAlgorithm::Sha3_224 => 10,
        HashAlgorithm::Sha3_256 => 11,
        HashAlgorithm::Sha3_384 => 12,
        HashAlgorithm::Sha3_512 => 13,
    }
}

/// Decode a wire code into a hash algorithm; `None` on 0 (the sentinel)
/// and on every unassigned code.
pub fn hash_algorithm_from_code(c: i32) -> (r: Option<HashAlgorithm>)
    ensures
        r == spec_hash_algorithm_from_code(c),
{
    match c {
        1 => Some(HashAlgorithm::Md2),
        2 => Some(HashAlgorithm::Md4),
        3 => Some(HashAlgorithm::Md5),
        4 => Some(HashAlgorithm::Ripemd160),
        5 => Some(HashAlgorithm::Sha1),
        6 => Some(HashAlgorithm::Sha224),
        7 => Some(HashAlgorithm::Sha256),
        8 => Some(HashAlgorithm::Sha384),
        9 => Some(HashAlgorithm::Sha512),
        10 => Some(HashAlgorithm::Sha3_224),
        11 => Some(HashAlgorithm::Sha3_256),
        12 => Some(HashAlgorithm::Sha3_384),
        13 => Some(HashAlgorithm::Sha3_512),
        _ => None,
    }
}

/// Each assigned code resolves back to the variant it was assigned to:
/// decoding is a left inverse of encoding, for every enum of the schema.
pub proof fn lemma_key_type_code_roundtrip(v: KeyType)
    ensures
        spec_key_type_from_code(spec_key_type_code(v)) == Some(v),
{
}

/// Curve codes are never the "no curve" sentinel, and decoding a curve's
/// code yields that curve back.
pub proof fn lemma_ecc_curve_code_roundtrip(v: EccCurve)
    ensures
        spec_ecc_curve_code(v) != 0,
        spec_ecc_curve_from_code(spec_ecc_curve_code(v)) == Some(v),
{
}

/// Decoding a signing scheme's code yields that scheme back.
pub proof fn lemma_sign_algorithm_code_roundtrip(v: SignAlgorithm)
    ensures
        spec_sign_algorithm_from_code(spec_sign_algorithm_code(v)) == Some(v),
{
}

/// Hash codes are never the "no hash algorithm" sentinel, and decoding a
/// hash's code yields that hash back.
pub proof fn lemma_hash_algorithm_code_roundtrip(v: HashAlgorithm)
    ensures
        spec_hash_algorithm_code(v) != 0,
        spec_hash_algorithm_from_code(spec_hash_algorithm_code(v)) == Some(v),
{
}

} // verus!
