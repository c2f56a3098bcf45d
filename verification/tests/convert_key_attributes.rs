use key_attributes::codes::{ecc_curve_code, hash_algorithm_code, key_type_code, sign_algorithm_code};
use key_attributes::convert::{algorithm_from_proto, algorithm_to_proto, decode, encode};
use key_attributes::domain::{Algorithm, AlgorithmInner, EccCurve, HashAlgorithm, KeyAttributes, KeyType, SignAlgorithm};
use key_attributes::wire::{AlgorithmProto, KeyAttributesProto, Sign};

#[test]
fn key_attrs_to_proto() {
    let algo = Algorithm::sign(SignAlgorithm::RsaPkcs1v15Sign, Some(HashAlgorithm::Sha1));
    let key_attrs = KeyAttributes {
        key_type: KeyType::RsaKeypair,
        ecc_curve: Some(EccCurve::Secp160k1),
        algorithm: algo,
        key_size: 1024,
        permit_export: true,
        permit_encrypt: true,
        permit_decrypt: true,
        permit_sign: true,
        permit_verify: true,
        permit_derive: true,
    };

    let key_attrs_proto: KeyAttributesProto = encode(key_attrs).unwrap();

    assert_eq!(key_attrs_proto.key_type, key_type_code(KeyType::RsaKeypair));
    assert_eq!(key_attrs_proto.ecc_curve, ecc_curve_code(EccCurve::Secp160k1));
    assert_eq!(key_attrs_proto.key_size, 1024);
    assert!(key_attrs_proto.permit_export);
    assert!(key_attrs_proto.permit_encrypt);
    assert!(key_attrs_proto.permit_decrypt);
    assert!(key_attrs_proto.permit_sign);
    assert!(key_attrs_proto.permit_verify);
    assert!(key_attrs_proto.permit_derive);
}

#[test]
fn key_attrs_from_proto() {
    let algo = Some(AlgorithmProto::Sign(Sign {
        sign_algorithm: sign_algorithm_code(SignAlgorithm::RsaPkcs1v15Sign),
        hash_algorithm: hash_algorithm_code(HashAlgorithm::Sha1),
    }));
    let key_attrs_proto = KeyAttributesProto {
        key_type: key_type_code(KeyType::RsaKeypair),
        ecc_curve: ecc_curve_code(EccCurve::Secp160k1),
        algorithm_proto: algo,
        key_size: 1024,
        permit_export: true,
        permit_encrypt: true,
        permit_decrypt: true,
        permit_sign: true,
        permit_verify: true,
        permit_derive: true,
    };

    let key_attrs: KeyAttributes = decode(key_attrs_proto).unwrap();
    assert_eq!(key_attrs.key_type, KeyType::RsaKeypair);
    assert_eq!(key_attrs.ecc_curve, Some(EccCurve::Secp160k1));
    assert_eq!(key_attrs.key_size, 1024);
    assert!(key_attrs.permit_decrypt);
    assert!(key_attrs.permit_encrypt);
    assert!(key_attrs.permit_sign);
    assert!(key_attrs.permit_verify);
    assert!(key_attrs.permit_derive);
    assert!(key_attrs.permit_export);
}

#[test]
fn sign_algo_from_proto() {
    let proto_sign = AlgorithmProto::Sign(Sign {
        sign_algorithm: sign_algorithm_code(SignAlgorithm::RsaPkcs1v15Sign),
        hash_algorithm: hash_algorithm_code(HashAlgorithm::Sha1),
    });

    let sign: Algorithm = algorithm_from_proto(proto_sign).unwrap();

    assert_eq!(
        *sign.inner(),
        AlgorithmInner::Sign(SignAlgorithm::RsaPkcs1v15Sign, Some(HashAlgorithm::Sha1))
    );
}

#[test]
fn sign_algo_to_proto() {
    let sign = Algorithm::sign(SignAlgorithm::RsaPkcs1v15Sign, Some(HashAlgorithm::Sha1));

    let proto_sign: AlgorithmProto = algorithm_to_proto(sign).unwrap();

    assert_eq!(
        proto_sign,
        AlgorithmProto::Sign(Sign {
            sign_algorithm: sign_algorithm_code(SignAlgorithm::RsaPkcs1v15Sign),
            hash_algorithm: hash_algorithm_code(HashAlgorithm::Sha1),
        })
    );
}
