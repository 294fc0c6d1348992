//! What holds of signing and verification, on concrete keys and messages.

use ark_std::rand::rngs::StdRng;
use ark_std::rand::SeedableRng;
use plume_arkworks::compute_h;
use plume_arkworks::HashToCurveError;
use plume_arkworks::Parameters;
use plume_arkworks::PlumeSignature;
use plume_arkworks::PlumeVersion;
use plume_arkworks::Point;
use plume_arkworks::Scalar;

const BITS: [usize; 7] = [0, 1, 7, 8, 63, 128, 255];

fn bytes32(hex_text: &str) -> [u8; 32] {
    hex::decode(hex_text).unwrap().try_into().unwrap()
}

fn parameters() -> Parameters {
    Parameters {
        g_point: Point::from_coordinates(
            bytes32("79be667ef9dcbbac55a06295ce870b07029bfcdb2dce28d959f2815b16f81798"),
            bytes32("483ada7726a3c4655da4fbfc0e1108a8fd17b448a68554199c47d08ffb10d4b8"),
        )
        .unwrap(),
    }
}

fn flip(bytes: [u8; 32], bit: usize) -> [u8; 32] {
    let mut flipped = bytes;
    flipped[31 - bit / 8] ^= 1 << (bit % 8);
    flipped
}

fn flip_x(point: &Point, bit: usize) -> Option<Point> {
    Point::from_coordinates(flip(point.x_bytes(), bit), point.y_bytes())
}

fn flip_y(point: &Point, bit: usize) -> Option<Point> {
    Point::from_coordinates(point.x_bytes(), flip(point.y_bytes(), bit))
}

fn flip_scalar(scalar: &Scalar, bit: usize) -> Option<Scalar> {
    Scalar::from_bytes(flip(scalar.to_bytes(), bit))
}

fn signed_hello(version: PlumeVersion) -> (Parameters, Point, Scalar, PlumeSignature) {
    let pp = parameters();
    let mut rng = StdRng::seed_from_u64(7);
    let (pk, sk) = PlumeSignature::keygen(&pp, &mut rng);
    let signed = PlumeSignature::sign(&pp, &mut rng, (&pk, &sk), b"hello", version).unwrap();
    (pp, pk, sk, signed)
}

#[test]
fn signed_messages_verify_under_both_versions() {
    let pp = parameters();
    let mut rng = StdRng::seed_from_u64(1);
    let messages: [&[u8]; 4] = [b"", b"hello", b"An example app message string", &[0xff; 300]];
    for _ in 0..3 {
        let (pk, sk) = PlumeSignature::keygen(&pp, &mut rng);
        for message in messages {
            for version in [PlumeVersion::V1, PlumeVersion::V2] {
                let signed =
                    PlumeSignature::sign(&pp, &mut rng, (&pk, &sk), message, version).unwrap();
                assert_eq!(signed.verify_non_zk(&pp, &pk, message, version), Ok(true));
            }
        }
    }
}

#[test]
fn keygen_draws_different_keys() {
    let pp = parameters();
    let mut rng = StdRng::seed_from_u64(2);
    let (pk1, sk1) = PlumeSignature::keygen(&pp, &mut rng);
    let (pk2, sk2) = PlumeSignature::keygen(&pp, &mut rng);
    assert_ne!(sk1, sk2);
    assert_ne!(pk1, pk2);
    assert_ne!(pk1, pp.g_point);
}

#[test]
fn nullifier_is_the_same_for_every_nonce() {
    let pp = parameters();
    let mut rng = StdRng::seed_from_u64(3);
    let (pk, sk) = PlumeSignature::keygen(&pp, &mut rng);
    for version in [PlumeVersion::V1, PlumeVersion::V2] {
        let first = PlumeSignature::sign(&pp, &mut rng, (&pk, &sk), b"hello", version).unwrap();
        let second = PlumeSignature::sign(&pp, &mut rng, (&pk, &sk), b"hello", version).unwrap();
        assert_eq!(first.nullifier, second.nullifier);
        assert_ne!(first.s, second.s);
        assert_ne!(first.c, second.c);
        assert_ne!(first.r_point, second.r_point);
        assert_ne!(first.hashed_to_curve_r, second.hashed_to_curve_r);
    }
}

#[test]
fn nullifier_is_the_same_under_both_versions() {
    let (pp, pk, sk, v2) = signed_hello(PlumeVersion::V2);
    let mut rng = StdRng::seed_from_u64(4);
    let v1 = PlumeSignature::sign(&pp, &mut rng, (&pk, &sk), b"hello", PlumeVersion::V1).unwrap();
    assert_eq!(v1.nullifier, v2.nullifier);
}

#[test]
fn nullifier_differs_between_keys() {
    let pp = parameters();
    let mut rng = StdRng::seed_from_u64(5);
    let (pk1, sk1) = PlumeSignature::keygen(&pp, &mut rng);
    let (pk2, sk2) = PlumeSignature::keygen(&pp, &mut rng);
    let first =
        PlumeSignature::sign(&pp, &mut rng, (&pk1, &sk1), b"hello", PlumeVersion::V2).unwrap();
    let second =
        PlumeSignature::sign(&pp, &mut rng, (&pk2, &sk2), b"hello", PlumeVersion::V2).unwrap();
    assert_ne!(first.nullifier, second.nullifier);
}

#[test]
fn nullifier_differs_between_messages() {
    let (pp, pk, sk, hello) = signed_hello(PlumeVersion::V2);
    let mut rng = StdRng::seed_from_u64(6);
    let other =
        PlumeSignature::sign(&pp, &mut rng, (&pk, &sk), b"hello!", PlumeVersion::V2).unwrap();
    assert_ne!(hello.nullifier, other.nullifier);
}

#[test]
fn versions_do_not_interoperate() {
    let (pp, pk, _, v1) = signed_hello(PlumeVersion::V1);
    assert_eq!(v1.verify_non_zk(&pp, &pk, b"hello", PlumeVersion::V1), Ok(true));
    assert_eq!(v1.verify_non_zk(&pp, &pk, b"hello", PlumeVersion::V2), Ok(false));
    let (pp, pk, _, v2) = signed_hello(PlumeVersion::V2);
    assert_eq!(v2.verify_non_zk(&pp, &pk, b"hello", PlumeVersion::V2), Ok(true));
    assert_eq!(v2.verify_non_zk(&pp, &pk, b"hello", PlumeVersion::V1), Ok(false));
}

#[test]
fn hello_scenario() {
    let (pp, pk, _, signed) = signed_hello(PlumeVersion::V2);
    assert_eq!(signed.verify_non_zk(&pp, &pk, b"hello", PlumeVersion::V2), Ok(true));
    assert_eq!(signed.verify_non_zk(&pp, &pk, b"hello!", PlumeVersion::V2), Ok(false));
    assert_eq!(signed.verify_non_zk(&pp, &pk, b"hello", PlumeVersion::V1), Ok(false));
}

#[test]
fn wrong_message_is_rejected() {
    for version in [PlumeVersion::V1, PlumeVersion::V2] {
        let (pp, pk, _, signed) = signed_hello(version);
        assert_eq!(signed.verify_non_zk(&pp, &pk, b"hellp", version), Ok(false));
        assert_eq!(signed.verify_non_zk(&pp, &pk, b"", version), Ok(false));
    }
}

#[test]
fn wrong_key_is_rejected() {
    for version in [PlumeVersion::V1, PlumeVersion::V2] {
        let (pp, _, _, signed) = signed_hello(version);
        let mut rng = StdRng::seed_from_u64(8);
        let (other, _) = PlumeSignature::keygen(&pp, &mut rng);
        assert_eq!(signed.verify_non_zk(&pp, &other, b"hello", version), Ok(false));
        assert_eq!(signed.verify_non_zk(&pp, &pp.g_point, b"hello", version), Ok(false));
    }
}

#[test]
fn wrong_generator_is_rejected() {
    for version in [PlumeVersion::V1, PlumeVersion::V2] {
        let (_, pk, _, signed) = signed_hello(version);
        let other = Parameters { g_point: pk };
        assert_eq!(signed.verify_non_zk(&other, &pk, b"hello", version), Ok(false));
    }
}

#[test]
fn flipped_bit_in_s_is_rejected() {
    for version in [PlumeVersion::V1, PlumeVersion::V2] {
        let (pp, pk, _, signed) = signed_hello(version);
        for bit in BITS {
            if let Some(s) = flip_scalar(&signed.s, bit) {
                let tampered = PlumeSignature { s, ..signed };
                assert_eq!(tampered.verify_non_zk(&pp, &pk, b"hello", version), Ok(false));
            }
        }
    }
}

#[test]
fn flipped_bit_in_c_is_rejected() {
    for version in [PlumeVersion::V1, PlumeVersion::V2] {
        let (pp, pk, _, signed) = signed_hello(version);
        for bit in BITS {
            if let Some(c) = flip_scalar(&signed.c, bit) {
                let tampered = PlumeSignature { c, ..signed };
                assert_eq!(tampered.verify_non_zk(&pp, &pk, b"hello", version), Ok(false));
            }
        }
    }
}

#[test]
fn flipped_bit_in_r_point_is_rejected() {
    for version in [PlumeVersion::V1, PlumeVersion::V2] {
        let (pp, pk, _, signed) = signed_hello(version);
        for bit in BITS {
            for r_point in [flip_x(&signed.r_point, bit), flip_y(&signed.r_point, bit)] {
                if let Some(r_point) = r_point {
                    let tampered = PlumeSignature { r_point, ..signed };
                    assert_eq!(tampered.verify_non_zk(&pp, &pk, b"hello", version), Ok(false));
                }
            }
        }
    }
}

#[test]
fn flipped_bit_in_hashed_to_curve_r_is_rejected() {
    for version in [PlumeVersion::V1, PlumeVersion::V2] {
        let (pp, pk, _, signed) = signed_hello(version);
        for bit in BITS {
            for hashed_to_curve_r in
                [flip_x(&signed.hashed_to_curve_r, bit), flip_y(&signed.hashed_to_curve_r, bit)]
            {
                if let Some(hashed_to_curve_r) = hashed_to_curve_r {
                    let tampered = PlumeSignature { hashed_to_curve_r, ..signed };
                    assert_eq!(tampered.verify_non_zk(&pp, &pk, b"hello", version), Ok(false));
                }
            }
        }
    }
}

#[test]
fn flipped_bit_in_nullifier_is_rejected() {
    for version in [PlumeVersion::V1, PlumeVersion::V2] {
        let (pp, pk, _, signed) = signed_hello(version);
        for bit in BITS {
            for nullifier in [flip_x(&signed.nullifier, bit), flip_y(&signed.nullifier, bit)] {
                if let Some(nullifier) = nullifier {
                    let tampered = PlumeSignature { nullifier, ..signed };
                    assert_eq!(tampered.verify_non_zk(&pp, &pk, b"hello", version), Ok(false));
                }
            }
        }
    }
}

#[test]
fn nullifier_replaced_by_identity_is_rejected() {
    let (pp, pk, _, signed) = signed_hello(PlumeVersion::V1);
    let tampered = PlumeSignature { nullifier: Point::identity(), ..signed };
    assert_eq!(tampered.verify_non_zk(&pp, &pk, b"hello", PlumeVersion::V1), Ok(false));
}

#[test]
fn failed_hashing_fails_signing() {
    let (pp, pk, sk, _) = signed_hello(PlumeVersion::V2);
    let nonce = Scalar::from_be_bytes_mod_order(&[9]);
    for version in [PlumeVersion::V1, PlumeVersion::V2] {
        let signed = PlumeSignature::sign_with_h_and_r(
            &pp,
            (&pk, &sk),
            Err(HashToCurveError::MalformedInput),
            nonce,
            version,
        );
        assert!(matches!(signed, Err(HashToCurveError::MalformedInput)));
    }
}

#[test]
fn failed_hashing_fails_verification() {
    for version in [PlumeVersion::V1, PlumeVersion::V2] {
        let (pp, pk, _, signed) = signed_hello(version);
        let verdict =
            signed.verify_with_h(&pp, &pk, Err(HashToCurveError::MalformedInput), version);
        assert_eq!(verdict, Err(HashToCurveError::MalformedInput));
    }
}

#[test]
fn signing_on_a_given_point_is_signing_the_message() {
    let (pp, pk, sk, _) = signed_hello(PlumeVersion::V2);
    let nonce = Scalar::from_be_bytes_mod_order(&[9]);
    for version in [PlumeVersion::V1, PlumeVersion::V2] {
        let direct = PlumeSignature::sign_with_r(&pp, (&pk, &sk), b"hello", nonce, version).unwrap();
        let hashed = compute_h(&pk, b"hello");
        let given =
            PlumeSignature::sign_with_h_and_r(&pp, (&pk, &sk), hashed, nonce, version).unwrap();
        assert_eq!(direct.nullifier, given.nullifier);
        assert_eq!(direct.r_point, given.r_point);
        assert_eq!(direct.hashed_to_curve_r, given.hashed_to_curve_r);
        assert_eq!(direct.s, given.s);
        assert_eq!(direct.c, given.c);
        assert_eq!(given.verify_with_h(&pp, &pk, hashed, version), Ok(true));
        assert_eq!(given.verify_with_h(&pp, &pk, Ok(pk), version), Ok(false));
    }
}

#[test]
fn zero_nonce_and_zero_key_still_verify() {
    let pp = parameters();
    let zero = Scalar::from_be_bytes_mod_order(&[]);
    let identity = Point::identity();
    for version in [PlumeVersion::V1, PlumeVersion::V2] {
        let (_, pk, sk, _) = signed_hello(version);
        let signed = PlumeSignature::sign_with_r(&pp, (&pk, &sk), b"hello", zero, version).unwrap();
        assert_eq!(signed.r_point, identity);
        assert_eq!(signed.hashed_to_curve_r, identity);
        assert_eq!(signed.verify_non_zk(&pp, &pk, b"hello", version), Ok(true));
        let signed =
            PlumeSignature::sign_with_r(&pp, (&identity, &zero), b"hello", sk, version).unwrap();
        assert_eq!(signed.nullifier, identity);
        assert_eq!(signed.s, sk);
        assert_eq!(signed.verify_non_zk(&pp, &identity, b"hello", version), Ok(true));
    }
}

#[test]
fn signature_agrees_only_with_its_own_values() {
    let (_, pk, sk, signed) = signed_hello(PlumeVersion::V2);
    assert!(signed.agrees_with(&signed.r_point, &signed.hashed_to_curve_r, &signed.c));
    assert!(!signed.agrees_with(&pk, &signed.hashed_to_curve_r, &signed.c));
    assert!(!signed.agrees_with(&signed.r_point, &pk, &signed.c));
    assert!(!signed.agrees_with(&signed.r_point, &signed.hashed_to_curve_r, &sk));
    assert!(!signed.agrees_with(&signed.hashed_to_curve_r, &signed.r_point, &signed.c));
}

#[test]
fn signatures_compare_field_by_field() {
    let (pp, pk, sk, signed) = signed_hello(PlumeVersion::V2);
    let nonce = Scalar::from_be_bytes_mod_order(&[9]);
    let first = PlumeSignature::sign_with_r(&pp, (&pk, &sk), b"hello", nonce, PlumeVersion::V2);
    let second = PlumeSignature::sign_with_r(&pp, (&pk, &sk), b"hello", nonce, PlumeVersion::V2);
    assert_eq!(first, second);
    assert_ne!(first, Ok(signed));
    assert_eq!(pp, parameters());
    assert_ne!(pp, Parameters { g_point: pk });
}

#[test]
fn zero_key_and_nonce_under_v2_verify_for_any_message() {
    // With secret key 0 and nonce 0 every point of the signature is the
    // point at infinity and the response is 0: nothing in it depends on
    // the message, and version 2 hashes nothing else.
    let pp = parameters();
    let zero = Scalar::from_be_bytes_mod_order(&[]);
    let pk = Point::identity();
    let signed =
        PlumeSignature::sign_with_r(&pp, (&pk, &zero), b"hello", zero, PlumeVersion::V2).unwrap();
    assert_eq!(signed.verify_non_zk(&pp, &pk, b"hello", PlumeVersion::V2), Ok(true));
    assert_eq!(signed.verify_non_zk(&pp, &pk, b"hello!", PlumeVersion::V2), Ok(true));
    let signed =
        PlumeSignature::sign_with_r(&pp, (&pk, &zero), b"hello", zero, PlumeVersion::V1).unwrap();
    assert_eq!(signed.verify_non_zk(&pp, &pk, b"hello", PlumeVersion::V1), Ok(true));
    assert_eq!(signed.verify_non_zk(&pp, &pk, b"hello!", PlumeVersion::V1), Ok(false));
}

#[test]
fn generator_off_the_curve_breaks_completeness() {
    // (1, 2) does not satisfy y^2 = x^3 + 7: multiples of it do not add up
    // as in a group of the group order, and honest signatures fail.
    let mut x = [0u8; 32];
    let mut y = [0u8; 32];
    x[31] = 1;
    y[31] = 2;
    let pp = Parameters { g_point: Point::from_coordinates(x, y).unwrap() };
    let mut rng = StdRng::seed_from_u64(11);
    let (pk, sk) = PlumeSignature::keygen(&pp, &mut rng);
    let signed =
        PlumeSignature::sign(&pp, &mut rng, (&pk, &sk), b"hello", PlumeVersion::V2).unwrap();
    assert_eq!(signed.verify_non_zk(&pp, &pk, b"hello", PlumeVersion::V2), Ok(false));
}
