use musig2::BinaryEncoding;
use musig_trade::curve::{
    bytes_eq, AggNonce, KeyAggContext, MaybePoint, PartialSignature, Point, PubNonce, Scalar,
    SecNonce,
};

const CURVE_ORDER: [u8; 32] = [
    0xFF, 0xFF, 0xFF, 0xFF, 0xFF, 0xFF, 0xFF, 0xFF, 0xFF, 0xFF, 0xFF, 0xFF, 0xFF, 0xFF, 0xFF, 0xFE,
    0xBA, 0xAE, 0xDC, 0xE6, 0xAF, 0x48, 0xA0, 0x3B, 0xBF, 0xD2, 0x5E, 0x8C, 0xD0, 0x36, 0x41, 0x41,
];

const GENERATOR: [u8; 33] = [
    0x02, 0x79, 0xBE, 0x66, 0x7E, 0xF9, 0xDC, 0xBB, 0xAC, 0x55, 0xA0, 0x62, 0x95, 0xCE, 0x87, 0x0B,
    0x07, 0x02, 0x9B, 0xFC, 0xDB, 0x2D, 0xCE, 0x28, 0xD9, 0x59, 0xF2, 0x81, 0x5B, 0x16, 0xF8, 0x17,
    0x98,
];

fn scalar(n: u8) -> Scalar {
    let mut bytes = [0u8; 32];
    bytes[31] = n;
    Scalar::from_slice(&bytes).unwrap()
}

#[test]
fn scalar_one_is_the_number_one() {
    let mut expected = [0u8; 32];
    expected[31] = 1;
    assert_eq!(Scalar::one().serialize(), expected);
    assert!(Scalar::one() == scalar(1));
    assert!(Scalar::one() != scalar(2));
}

#[test]
fn base_point_mul_of_one_is_the_generator() {
    let g = Scalar::one().base_point_mul();
    assert_eq!(g.serialize(), GENERATOR);
    assert_eq!(g.serialize(), secp::Point::generator().serialize());
    assert!(Point::from_slice(&GENERATOR).unwrap() == g);
    assert!(scalar(2).base_point_mul() != g);
}

#[test]
fn scalars_decode_from_one_up_to_the_curve_order() {
    assert!(Scalar::from_slice(&[0u8; 32]).is_none());
    assert!(Scalar::from_slice(&CURVE_ORDER).is_none());
    assert!(Scalar::from_slice(&[0xFF; 32]).is_none());
    assert!(Scalar::from_slice(&[1u8; 31]).is_none());
    assert!(Scalar::from_slice(&[1u8; 33]).is_none());
    assert!(Scalar::from_slice(&[]).is_none());
    let mut largest = CURVE_ORDER;
    largest[31] = 0x40;
    assert_eq!(Scalar::from_slice(&largest).unwrap().serialize(), largest);
}

#[test]
fn partial_signatures_decode_from_zero_up_to_the_curve_order() {
    assert_eq!(PartialSignature::from_slice(&[0u8; 32]).unwrap().serialize(), [0u8; 32]);
    assert!(PartialSignature::from_slice(&CURVE_ORDER).is_none());
    assert!(PartialSignature::from_slice(&[0u8; 31]).is_none());
    assert!(PartialSignature::from_slice(&[0u8; 33]).is_none());
    let mut largest = CURVE_ORDER;
    largest[31] = 0x40;
    assert_eq!(PartialSignature::from_slice(&largest).unwrap().serialize(), largest);
}

#[test]
fn points_decode_to_their_compressed_encoding() {
    assert!(Point::from_slice(&[0u8; 33]).is_none());
    assert!(Point::from_slice(&[2u8; 32]).is_none());
    assert!(Point::from_slice(&[]).is_none());
    let mut off_curve = GENERATOR;
    off_curve[0] = 0x05;
    assert!(Point::from_slice(&off_curve).is_none());

    let uncompressed = secp::Point::generator().serialize_uncompressed();
    assert_eq!(Point::from_slice(&uncompressed).unwrap().serialize(), GENERATOR);
    let mut odd = GENERATOR;
    odd[0] = 0x03;
    let negated = Point::from_slice(&odd).unwrap();
    assert_eq!(negated.serialize(), odd);
    assert!(negated != Point::from_slice(&GENERATOR).unwrap());
}

#[test]
fn public_nonces_decode_from_two_points() {
    let mut bytes = [0u8; 66];
    bytes[..33].copy_from_slice(&GENERATOR);
    bytes[33..].copy_from_slice(&scalar(2).base_point_mul().serialize());
    assert_eq!(PubNonce::from_bytes(&bytes).unwrap().serialize(), bytes);
    assert!(PubNonce::from_bytes(&bytes[..65]).is_none());
    assert!(PubNonce::from_bytes(&[0u8; 66]).is_none());
    bytes[33] = 0x07;
    assert!(PubNonce::from_bytes(&bytes).is_none());
}

#[test]
fn bytes_eq_compares_bytes() {
    assert!(bytes_eq(&[], &[]));
    assert!(bytes_eq(&[1, 2, 3], &[1, 2, 3]));
    assert!(!bytes_eq(&[1, 2, 3], &[1, 2, 4]));
    assert!(!bytes_eq(&[1, 2, 3], &[1, 2]));
    assert!(!bytes_eq(&[], &[0]));
}

#[test]
fn key_aggregation_is_that_of_the_curve_library() {
    let first = scalar(3).base_point_mul();
    let second = scalar(4).base_point_mul();
    let ctx = KeyAggContext::new(&first, &second).unwrap();

    let keys = [
        secp::Point::from_slice(&first.serialize()).unwrap(),
        secp::Point::from_slice(&second.serialize()).unwrap(),
    ];
    let expected = musig2::KeyAggContext::new(keys).unwrap();
    let expected_key: secp::Point = expected.aggregated_pubkey();
    assert_eq!(ctx.aggregated_pubkey().serialize(), expected_key.serialize());
    assert_ne!(ctx.aggregated_pubkey().serialize(), first.serialize());

    let seckey = ctx.aggregated_seckey(&scalar(3), &scalar(4)).unwrap();
    let expected_seckey: secp::Scalar = expected
        .aggregated_seckey([
            secp::Scalar::try_from(3u128).unwrap(),
            secp::Scalar::try_from(4u128).unwrap(),
        ])
        .unwrap();
    assert_eq!(seckey.serialize(), expected_seckey.serialize());
    assert!(seckey.base_point_mul() == ctx.aggregated_pubkey());
    assert!(ctx.aggregated_seckey(&scalar(4), &scalar(3)).is_err());
    assert!(ctx.aggregated_seckey(&scalar(3), &scalar(5)).is_err());
}

#[test]
fn signing_is_that_of_the_curve_library() {
    let first = scalar(3).base_point_mul();
    let second = scalar(4).base_point_mul();
    let ctx = KeyAggContext::new(&first, &second).unwrap();
    let key = ctx.aggregated_pubkey();
    let adaptor_point = MaybePoint::Valid(scalar(9).base_point_mul());
    let message = b"a message";

    let nonce_1 = SecNonce::build(&[1u8; 32], &key);
    let nonce_2 = SecNonce::build(&[2u8; 32], &key);
    let agg_nonce = AggNonce::sum(&nonce_1.public_nonce(), &nonce_2.public_nonce());

    let secp_key = secp::Point::from_slice(&key.serialize()).unwrap();
    let expected_nonce =
        musig2::SecNonceBuilder::new([1u8; 32]).with_aggregated_pubkey(secp_key).build();
    assert_eq!(nonce_1.public_nonce().serialize(), expected_nonce.public_nonce().to_bytes());
    assert_ne!(nonce_1.public_nonce().serialize(), nonce_2.public_nonce().serialize());

    let sig_1 =
        ctx.sign_partial(&scalar(3), &nonce_1, &agg_nonce, &adaptor_point, message).unwrap();
    let sig_2 =
        ctx.sign_partial(&scalar(4), &nonce_2, &agg_nonce, &adaptor_point, message).unwrap();
    assert!(ctx.sign_partial(&scalar(5), &nonce_2, &agg_nonce, &adaptor_point, message).is_err());

    let expected_ctx = musig2::KeyAggContext::new([
        secp::Point::from_slice(&first.serialize()).unwrap(),
        secp::Point::from_slice(&second.serialize()).unwrap(),
    ])
    .unwrap();
    let expected_sig: secp::MaybeScalar = musig2::adaptor::sign_partial(
        &expected_ctx,
        secp::Scalar::try_from(3u128).unwrap(),
        expected_nonce,
        &musig2::AggNonce::from_bytes(&agg_nonce.serialize()).unwrap(),
        secp::Scalar::try_from(9u128).unwrap().base_point_mul(),
        message,
    )
    .unwrap();
    assert_eq!(sig_1.serialize(), expected_sig.serialize());

    let sig = ctx
        .aggregate_partial_signatures(&agg_nonce, &adaptor_point, &sig_1, &sig_2, message)
        .unwrap();
    assert!(sig.verify(&key, message, &adaptor_point));
    assert!(!sig.verify(&key, message, &MaybePoint::Infinity));
    assert!(!sig.verify(&first, message, &adaptor_point));
    assert!(ctx
        .aggregate_partial_signatures(&agg_nonce, &adaptor_point, &sig_2, &sig_1, b"other")
        .is_err());
    assert!(ctx
        .aggregate_partial_signatures(&agg_nonce, &MaybePoint::Infinity, &sig_1, &sig_2, message)
        .is_err());

    let completed: musig2::LiftedSignature = musig2::AdaptorSignature::from_bytes(&sig.serialize())
        .unwrap()
        .adapt(secp::Scalar::try_from(9u128).unwrap())
        .unwrap();
    let revealed = sig.reveal_secret(&completed.to_bytes()).unwrap();
    assert_eq!(revealed.serialize(), scalar(9).serialize());
    assert!(sig.reveal_secret(&[1u8; 64]).is_none());
}
