//! The domain model: strongly typed key metadata as the rest of the service
//! uses it. Values of these types are only ever built from validated wire
//! input or by the caller out of the enums below, so every enum field is a
//! known variant and every optional field is an explicit `Option`.

use vstd::prelude::*;

verus! {

/// The kind of key being described.
#[derive(Clone, Copy, Debug, PartialEq, Eq)]
pub enum KeyType {
    HmacKey,
    DerivationKey,
    AesKey,
    DesKey,
    CamelliaKey,
    Arc4Key,
    RsaPublicKey,
    RsaKeypair,
    DsaPublicKey,
    DsaKeypair,
    EccPublicKey,
    EccKeypair,
}

/// The elliptic curve a key lives on, for elliptic-curve-capable key types.
#[derive(Clone, Copy, Debug, PartialEq, Eq)]
pub enum EccCurve {
    Sect163k1,
    Sect163r1,
    Sect239k1,
    Sect283k1,
    Sect283r1,
    Sect409k1,
    Sect409r1,
    Sect571k1,
    Sect571r1,
    Secp160k1,
    Secp160r1,
    Secp160r2,
    Secp192k1,
    Secp192r1,
    Secp224k1,
    Secp224r1,
    Secp256k1,
    Secp256r1,
    Secp384r1,
    Secp521r1,
}

/// A signing scheme.
#[derive(Clone, Copy, Debug, PartialEq, Eq)]
pub enum SignAlgorithm {
    RsaPkcs1v15Sign,
    RsaPkcs1v15SignRaw,
    RsaPss,
    Dsa,
    DeterministicDsa,
    Ecdsa,
    EcdsaAny,
    DeterministicEcdsa,
}

/// A hash function that a signing scheme may be parameterized by.
#[derive(Clone, Copy, Debug, PartialEq, Eq)]
pub enum HashAlgorithm {
    Md2,
    Md4,
    Md5,
    Ripemd160,
    Sha1,
    Sha224,
    Sha256,
    Sha384,
    Sha512,
    Sha3_224,
    Sha3_256,
    Sha3_384,
    Sha3_512,
}

/// The operation kinds the wire schema anticipates. Only `Sign` is
/// implemented end-to-end; the other kinds exist so that the conversion
/// layer can refuse them uniformly as not supported.
#[derive(Clone, Copy, Debug, PartialEq, Eq)]
pub enum AlgorithmInner {
    Cipher,
    AsymmetricEncryption,
    Sign(SignAlgorithm, Option<HashAlgorithm>),
    KeyAgreement,
    KeyDerivation,
}

/// The algorithm a key is intended for.
#[derive(Clone, Copy, Debug, PartialEq, Eq)]
pub struct Algorithm {
    pub inner: AlgorithmInner,
}

impl Algorithm {
    /// A signing algorithm: a signing scheme together with an optional hash.
    pub fn sign(sign_alg: SignAlgorithm, hash_alg: Option<HashAlgorithm>) -> (r: Algorithm)
        ensures
            r.inner == AlgorithmInner::Sign(sign_alg, hash_alg),
    {
        Algorithm { inner: AlgorithmInner::Sign(sign_alg, hash_alg) }
    }

    /// The operation kind this algorithm selects.
    pub fn inner(&self) -> (r: &AlgorithmInner)
        ensures
            *r == self.inner,
    {
        &self.inner
    }
}

/// Validated key metadata: key kind, optional curve, algorithm, bit length,
/// and six independent usage permissions carried through unchanged.
#[derive(Clone, Copy, Debug, PartialEq, Eq)]
pub struct KeyAttributes {
    pub key_type: KeyType,
    pub ecc_curve: Option<EccCurve>,
    pub algorithm: Algorithm,
    pub key_size: u32,
    pub permit_export: bool,
    pub permit_encrypt: bool,
    pub permit_decrypt: bool,
    pub permit_sign: bool,
    pub permit_verify: bool,
    pub permit_derive: bool,
}

} // verus!
