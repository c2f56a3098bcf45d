use key_attributes::codes::{
    ecc_curve_code, ecc_curve_from_code, hash_algorithm_code, hash_algorithm_from_code,
    key_type_code, key_type_from_code, sign_algorithm_code, sign_algorithm_from_code,
};
use key_attributes::convert::{decode, encode, ErrorKind};
use key_attributes::domain::{
    Algorithm, AlgorithmInner, EccCurve, HashAlgorithm, KeyAttributes, KeyType, SignAlgorithm,
};
use key_attributes::wire::{AlgorithmProto, KeyAttributesProto, Sign};

fn sample_wire() -> KeyAttributesProto {
    KeyAttributesProto {
        key_type: key_type_code(KeyType::RsaKeypair),
        ecc_curve: ecc_curve_code(EccCurve::Secp160k1),
        algorithm_proto: Some(AlgorithmProto::Sign(Sign {
            sign_algorithm: sign_algorithm_code(SignAlgorithm::RsaPkcs1v15Sign),
            hash_algorithm: hash_algorithm_code(HashAlgorithm::Sha1),
        })),
        key_size: 1024,
        permit_export: true,
        permit_encrypt: true,
        permit_decrypt: true,
        permit_sign: true,
        permit_verify: true,
        permit_derive: true,
    }
}

fn sample_domain() -> KeyAttributes {
    KeyAttributes {
        key_type: KeyType::EccKeypair,
        ecc_curve: Some(EccCurve::Secp256r1),
        algorithm: Algorithm::sign(SignAlgorithm::Ecdsa, Some(HashAlgorithm::Sha256)),
        key_size: 256,
        permit_export: false,
        permit_encrypt: false,
        permit_decrypt: false,
        permit_sign: true,
        permit_verify: true,
        permit_derive: false,
    }
}

#[test]
fn round_trip_with_curve_and_hash() {
    let v = sample_domain();
    let w = encode(v).unwrap();
    assert_eq!(decode(w).unwrap(), v);
}

#[test]
fn round_trip_without_curve_or_hash() {
    let v = KeyAttributes {
        ecc_curve: None,
        algorithm: Algorithm::sign(SignAlgorithm::RsaPss, None),
        ..sample_domain()
    };
    let w = encode(v).unwrap();
    assert_eq!(decode(w).unwrap(), v);
}

#[test]
fn ecc_sentinel_symmetry() {
    let v = KeyAttributes { ecc_curve: None, ..sample_domain() };
    let w = encode(v).unwrap();
    assert_eq!(w.ecc_curve, 0);

    let back = decode(KeyAttributesProto { ecc_curve: 0, ..sample_wire() }).unwrap();
    assert_eq!(back.ecc_curve, None);
}

#[test]
fn hash_sentinel_symmetry() {
    let v = KeyAttributes {
        algorithm: Algorithm::sign(SignAlgorithm::RsaPkcs1v15Sign, None),
        ..sample_domain()
    };
    let w = encode(v).unwrap();
    match w.algorithm_proto {
        Some(AlgorithmProto::Sign(sign)) => assert_eq!(sign.hash_algorithm, 0),
        other => panic!("expected a Sign sub-message, got {:?}", other),
    }

    let wire = KeyAttributesProto {
        algorithm_proto: Some(AlgorithmProto::Sign(Sign {
            sign_algorithm: sign_algorithm_code(SignAlgorithm::RsaPkcs1v15Sign),
            hash_algorithm: 0,
        })),
        ..sample_wire()
    };
    let back = decode(wire).unwrap();
    assert_eq!(
        *back.algorithm.inner(),
        AlgorithmInner::Sign(SignAlgorithm::RsaPkcs1v15Sign, None)
    );
}

#[test]
fn unknown_key_type_code_rejected() {
    let wire = KeyAttributesProto { key_type: 999, ..sample_wire() };
    assert_eq!(decode(wire), Err(ErrorKind::InvalidEncoding));
    assert_eq!(key_type_from_code(0), None);
    assert_eq!(key_type_from_code(-1), None);
}

#[test]
fn unknown_ecc_curve_code_rejected() {
    let wire = KeyAttributesProto { ecc_curve: 999, ..sample_wire() };
    assert_eq!(decode(wire), Err(ErrorKind::InvalidEncoding));
    assert_eq!(ecc_curve_from_code(-7), None);
}

#[test]
fn unknown_sign_algorithm_code_rejected() {
    let wire = KeyAttributesProto {
        algorithm_proto: Some(AlgorithmProto::Sign(Sign {
            sign_algorithm: 999,
            hash_algorithm: hash_algorithm_code(HashAlgorithm::Sha1),
        })),
        ..sample_wire()
    };
    assert_eq!(decode(wire), Err(ErrorKind::InvalidEncoding));
    assert_eq!(sign_algorithm_from_code(0), None);
}

#[test]
fn unknown_hash_algorithm_code_rejected() {
    let wire = KeyAttributesProto {
        algorithm_proto: Some(AlgorithmProto::Sign(Sign {
            sign_algorithm: sign_algorithm_code(SignAlgorithm::RsaPkcs1v15Sign),
            hash_algorithm: 999,
        })),
        ..sample_wire()
    };
    assert_eq!(decode(wire), Err(ErrorKind::InvalidEncoding));
    assert_eq!(hash_algorithm_from_code(-3), None);
}

#[test]
fn missing_algorithm_rejected() {
    let wire = KeyAttributesProto { algorithm_proto: None, ..sample_wire() };
    assert_eq!(decode(wire), Err(ErrorKind::InvalidEncoding));
}

#[test]
fn unsupported_wire_variant_rejected() {
    let wire = KeyAttributesProto {
        algorithm_proto: Some(AlgorithmProto::Cipher(3)),
        ..sample_wire()
    };
    assert_eq!(decode(wire), Err(ErrorKind::NotSupported));

    let wire = KeyAttributesProto {
        algorithm_proto: Some(AlgorithmProto::KeyDerivation(1)),
        ..sample_wire()
    };
    assert_eq!(decode(wire), Err(ErrorKind::NotSupported));
}

#[test]
fn unsupported_domain_variant_rejected() {
    let v = KeyAttributes {
        algorithm: Algorithm { inner: AlgorithmInner::KeyAgreement },
        ..sample_domain()
    };
    assert_eq!(encode(v), Err(ErrorKind::NotSupported));
}

#[test]
fn scenario_wire_decodes_and_reencodes_exactly() {
    let wire = sample_wire();

    let v = decode(wire).unwrap();
    assert_eq!(v.key_type, KeyType::RsaKeypair);
    assert_eq!(v.ecc_curve, Some(EccCurve::Secp160k1));
    assert_eq!(
        *v.algorithm.inner(),
        AlgorithmInner::Sign(SignAlgorithm::RsaPkcs1v15Sign, Some(HashAlgorithm::Sha1))
    );
    assert_eq!(v.key_size, 1024);
    assert!(v.permit_export);
    assert!(v.permit_encrypt);
    assert!(v.permit_decrypt);
    assert!(v.permit_sign);
    assert!(v.permit_verify);
    assert!(v.permit_derive);

    assert_eq!(encode(v).unwrap(), wire);
}
