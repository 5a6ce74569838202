use musig2::BinaryEncoding;
use musig_trade::curve::{AdaptorSignature, MaybePoint, PartialSignature, Point, PubNonce, Scalar};
use musig_trade::error::ProtocolErrorKind;
use musig_trade::signing::Stage;
use musig_trade::storage::{ByRef, ByVal};
use musig_trade::trade::{ExchangedNonces, ExchangedSigs, NonceSeeds, TradeModel};
use musig_trade::Role;

fn scalar(n: u8) -> Scalar {
    let mut bytes = [0u8; 32];
    bytes[31] = n;
    Scalar::from_slice(&bytes).unwrap()
}

fn seeds(tag: u8) -> NonceSeeds {
    NonceSeeds {
        swap_tx_input: [tag; 32],
        buyers_warning_tx_buyer_input: [tag.wrapping_add(1); 32],
        buyers_warning_tx_seller_input: [tag.wrapping_add(2); 32],
        sellers_warning_tx_buyer_input: [tag.wrapping_add(3); 32],
        sellers_warning_tx_seller_input: [tag.wrapping_add(4); 32],
        buyers_redirect_tx_input: [tag.wrapping_add(5); 32],
        sellers_redirect_tx_input: [tag.wrapping_add(6); 32],
    }
}

fn owned_nonces(n: &ExchangedNonces<'_, ByRef>) -> ExchangedNonces<'static, ByVal> {
    ExchangedNonces {
        swap_tx_input_nonce_share: *n.swap_tx_input_nonce_share,
        buyers_warning_tx_buyer_input_nonce_share: *n.buyers_warning_tx_buyer_input_nonce_share,
        buyers_warning_tx_seller_input_nonce_share: *n.buyers_warning_tx_seller_input_nonce_share,
        sellers_warning_tx_buyer_input_nonce_share: *n.sellers_warning_tx_buyer_input_nonce_share,
        sellers_warning_tx_seller_input_nonce_share: *n.sellers_warning_tx_seller_input_nonce_share,
        buyers_redirect_tx_input_nonce_share: *n.buyers_redirect_tx_input_nonce_share,
        sellers_redirect_tx_input_nonce_share: *n.sellers_redirect_tx_input_nonce_share,
    }
}

fn owned_sigs(s: &ExchangedSigs<'_, ByRef>, with_swap: bool) -> ExchangedSigs<'static, ByVal> {
    ExchangedSigs {
        peers_warning_tx_buyer_input_partial_signature: *s
            .peers_warning_tx_buyer_input_partial_signature,
        peers_warning_tx_seller_input_partial_signature: *s
            .peers_warning_tx_seller_input_partial_signature,
        peers_redirect_tx_input_partial_signature: *s.peers_redirect_tx_input_partial_signature,
        swap_tx_input_partial_signature: if with_swap {
            s.swap_tx_input_partial_signature.map(|sig| *sig)
        } else {
            None
        },
    }
}

/// Makes the key shares of both parties: with `None` the stand-in keys,
/// else from the seller's and the buyer's number, a private key for the
/// buyer's output and the next number for the seller's output.
fn init_keys(seller: &mut TradeModel, buyer: &mut TradeModel, keys: Option<(u8, u8)>) {
    match keys {
        None => {
            seller.init_my_key_shares();
            buyer.init_my_key_shares();
        }
        Some((s, b)) => {
            seller.init_my_key_shares_with(scalar(s), scalar(s + 1));
            buyer.init_my_key_shares_with(scalar(b), scalar(b + 1));
        }
    }
}

fn exchange_keys(seller: &mut TradeModel, buyer: &mut TradeModel) {
    let (sb, ss) = {
        let shares = seller.get_my_key_shares().unwrap();
        (shares[0].pub_key, shares[1].pub_key)
    };
    let (bb, bs) = {
        let shares = buyer.get_my_key_shares().unwrap();
        (shares[0].pub_key, shares[1].pub_key)
    };
    seller.set_peer_key_shares(bb, bs);
    buyer.set_peer_key_shares(sb, ss);
    seller.aggregate_key_shares().unwrap();
    buyer.aggregate_key_shares().unwrap();
}

fn init_nonces(seller: &mut TradeModel, buyer: &mut TradeModel, random: bool) {
    if random {
        seller.init_my_nonce_shares_with(&seeds(10)).unwrap();
        buyer.init_my_nonce_shares_with(&seeds(100)).unwrap();
    } else {
        seller.init_my_nonce_shares().unwrap();
        buyer.init_my_nonce_shares().unwrap();
    }
}

fn exchange_nonces(seller: &mut TradeModel, buyer: &mut TradeModel) {
    let from_seller = owned_nonces(&seller.get_my_nonce_shares().unwrap());
    let from_buyer = owned_nonces(&buyer.get_my_nonce_shares().unwrap());
    seller.set_peer_nonce_shares(from_buyer);
    buyer.set_peer_nonce_shares(from_seller);
    seller.aggregate_nonce_shares().unwrap();
    buyer.aggregate_nonce_shares().unwrap();
}

/// The buyer holds its partial signature on the swap transaction back; the
/// seller hands its own over.
fn exchange_partials(seller: &mut TradeModel, buyer: &mut TradeModel) {
    let from_seller = owned_sigs(&seller.get_my_partial_signatures_on_peer_txs().unwrap(), true);
    let from_buyer = owned_sigs(&buyer.get_my_partial_signatures_on_peer_txs().unwrap(), false);
    seller.set_peer_partial_signatures_on_my_txs(&from_buyer);
    buyer.set_peer_partial_signatures_on_my_txs(&from_seller);
}

/// Runs both parties through the rounds up to the aggregated signatures
/// that the deposit waits for.
fn run_to_deposit(
    seller_role: Role,
    buyer_role: Role,
    keys: Option<(u8, u8)>,
    random_nonces: bool,
) -> (TradeModel, TradeModel) {
    let mut seller = TradeModel::new("trade".to_owned(), seller_role);
    let mut buyer = TradeModel::new("trade".to_owned(), buyer_role);
    init_keys(&mut seller, &mut buyer, keys);
    exchange_keys(&mut seller, &mut buyer);
    init_nonces(&mut seller, &mut buyer, random_nonces);
    exchange_nonces(&mut seller, &mut buyer);
    seller.sign_partial().unwrap();
    buyer.sign_partial().unwrap();
    exchange_partials(&mut seller, &mut buyer);
    seller.aggregate_partial_signatures().unwrap();
    buyer.aggregate_partial_signatures().unwrap();
    (seller, buyer)
}

/// The buyer releases its partial signature on the swap transaction, and
/// the seller adds up the signature.
fn sign_swap_tx(seller: &mut TradeModel, buyer: &TradeModel) {
    let buyers_partial = buyer.swap_tx_input_sig_ctx.my_partial_sig.unwrap();
    seller.set_swap_tx_input_peers_partial_signature(buyers_partial);
    seller.aggregate_swap_tx_partial_signatures().unwrap();
}

fn close_cooperatively(seller: &mut TradeModel, buyer: &mut TradeModel) -> (Scalar, Scalar) {
    let from_seller = *seller.get_my_private_key_share_for_peer_output().unwrap();
    let from_buyer = *buyer.get_my_private_key_share_for_peer_output().unwrap();
    seller.set_peer_private_key_share_for_my_output(from_buyer).unwrap();
    buyer.set_peer_private_key_share_for_my_output(from_seller).unwrap();
    let sellers_key = seller.aggregate_private_keys_for_my_output().unwrap();
    let buyers_key = buyer.aggregate_private_keys_for_my_output().unwrap();
    (sellers_key, buyers_key)
}

fn assert_happy_path(seller_role: Role, buyer_role: Role, keys: Option<(u8, u8)>, random: bool) {
    let (mut seller, mut buyer) = run_to_deposit(seller_role, buyer_role, keys, random);
    sign_swap_tx(&mut seller, &buyer);
    let (sellers_key, buyers_key) = close_cooperatively(&mut seller, &mut buyer);

    let sellers_output = seller.seller_output_key_ctx.aggregated_key.as_ref().unwrap();
    assert!(sellers_output.prv_key.unwrap() == sellers_key);
    assert!(sellers_key.base_point_mul() == sellers_output.pub_key);

    let buyers_output = buyer.buyer_output_key_ctx.aggregated_key.as_ref().unwrap();
    assert!(buyers_output.prv_key.unwrap() == buyers_key);
    assert!(buyers_key.base_point_mul() == buyers_output.pub_key);

    // Each party knows the private key of its own output only.
    assert!(seller.buyer_output_key_ctx.aggregated_key.as_ref().unwrap().prv_key.is_none());
    assert!(buyer.seller_output_key_ctx.aggregated_key.as_ref().unwrap().prv_key.is_none());
}

fn aggregated_pub_keys(trade: &TradeModel) -> ([u8; 33], [u8; 33]) {
    (
        trade.buyer_output_key_ctx.aggregated_key.as_ref().unwrap().pub_key.serialize(),
        trade.seller_output_key_ctx.aggregated_key.as_ref().unwrap().pub_key.serialize(),
    )
}

#[test]
fn happy_path_seller_as_maker_buyer_as_taker() {
    assert_happy_path(Role::SellerAsMaker, Role::BuyerAsTaker, None, false);
}

#[test]
fn happy_path_seller_as_taker_buyer_as_maker() {
    assert_happy_path(Role::SellerAsTaker, Role::BuyerAsMaker, None, false);
}

#[test]
fn happy_path_with_keys_and_nonces_of_the_caller() {
    assert_happy_path(Role::SellerAsMaker, Role::BuyerAsTaker, Some((7, 11)), true);
    assert_happy_path(Role::SellerAsTaker, Role::BuyerAsMaker, Some((200, 3)), true);
}

#[test]
fn aggregated_keys_match_across_roles() {
    let (seller_1, buyer_1) =
        run_to_deposit(Role::SellerAsMaker, Role::BuyerAsTaker, Some((7, 11)), true);
    let (seller_2, buyer_2) =
        run_to_deposit(Role::SellerAsTaker, Role::BuyerAsMaker, Some((7, 11)), true);
    assert_eq!(aggregated_pub_keys(&seller_1), aggregated_pub_keys(&buyer_1));
    assert_eq!(aggregated_pub_keys(&seller_2), aggregated_pub_keys(&buyer_2));
    assert_eq!(aggregated_pub_keys(&seller_1), aggregated_pub_keys(&seller_2));
}

#[test]
fn key_aggregation_is_symmetric_and_ordered_buyer_first() {
    let mut seller = TradeModel::new("t".to_owned(), Role::SellerAsMaker);
    let mut buyer = TradeModel::new("t".to_owned(), Role::BuyerAsTaker);
    seller.init_my_key_shares_with(scalar(5), scalar(6));
    buyer.init_my_key_shares_with(scalar(8), scalar(9));
    exchange_keys(&mut seller, &mut buyer);
    assert_eq!(aggregated_pub_keys(&seller), aggregated_pub_keys(&buyer));

    let buyers_share = secp::Scalar::try_from(8u128).unwrap().base_point_mul();
    let sellers_share = secp::Scalar::try_from(5u128).unwrap().base_point_mul();
    let expected: secp::Point =
        musig2::KeyAggContext::new([buyers_share, sellers_share]).unwrap().aggregated_pubkey();
    assert_eq!(aggregated_pub_keys(&seller).0, expected.serialize());
    let swapped: secp::Point =
        musig2::KeyAggContext::new([sellers_share, buyers_share]).unwrap().aggregated_pubkey();
    assert_ne!(aggregated_pub_keys(&seller).0, swapped.serialize());
}

#[test]
fn adaptor_point_is_the_sellers_share_of_the_buyers_output() {
    let mut seller = TradeModel::new("t".to_owned(), Role::SellerAsTaker);
    let mut buyer = TradeModel::new("t".to_owned(), Role::BuyerAsMaker);
    assert!(seller.swap_tx_input_sig_ctx.adaptor_point.is_infinity());
    seller.init_my_key_shares_with(scalar(5), scalar(6));
    buyer.init_my_key_shares_with(scalar(8), scalar(9));
    assert!(buyer.swap_tx_input_sig_ctx.adaptor_point.is_infinity());
    exchange_keys(&mut seller, &mut buyer);

    let expected = scalar(5).base_point_mul();
    for trade in [&seller, &buyer] {
        match &trade.swap_tx_input_sig_ctx.adaptor_point {
            MaybePoint::Valid(point) => assert!(*point == expected),
            MaybePoint::Infinity => panic!("the swap transaction has no adaptor point"),
        }
        assert!(trade.buyers_warning_tx_buyer_input_sig_ctx.adaptor_point.is_infinity());
        assert!(trade.sellers_redirect_tx_input_sig_ctx.adaptor_point.is_infinity());
    }
}

#[test]
fn second_sign_partial_is_nonce_reuse() {
    let mut seller = TradeModel::new("t".to_owned(), Role::SellerAsMaker);
    let mut buyer = TradeModel::new("t".to_owned(), Role::BuyerAsTaker);
    init_keys(&mut seller, &mut buyer, None);
    exchange_keys(&mut seller, &mut buyer);
    init_nonces(&mut seller, &mut buyer, false);
    exchange_nonces(&mut seller, &mut buyer);
    seller.sign_partial().unwrap();
    let first = seller.swap_tx_input_sig_ctx.my_partial_sig.unwrap().serialize();
    assert!(matches!(seller.sign_partial(), Err(ProtocolErrorKind::NonceReuse)));
    assert_eq!(seller.swap_tx_input_sig_ctx.my_partial_sig.unwrap().serialize(), first);

    let key_ctx = &seller.seller_output_key_ctx;
    let again = seller.swap_tx_input_sig_ctx.sign_partial(key_ctx, b"another message".to_vec());
    assert!(matches!(again, Err(ProtocolErrorKind::NonceReuse)));
    assert_eq!(seller.swap_tx_input_sig_ctx.message.as_deref(), Some(&b"swap tx input"[..]));
}

#[test]
fn aggregate_partial_signatures_before_exchange_is_missing_partial_sig() {
    let mut seller = TradeModel::new("t".to_owned(), Role::SellerAsMaker);
    let mut buyer = TradeModel::new("t".to_owned(), Role::BuyerAsTaker);
    init_keys(&mut seller, &mut buyer, None);
    exchange_keys(&mut seller, &mut buyer);
    init_nonces(&mut seller, &mut buyer, false);
    exchange_nonces(&mut seller, &mut buyer);
    seller.sign_partial().unwrap();
    buyer.sign_partial().unwrap();
    assert!(matches!(
        seller.aggregate_partial_signatures(),
        Err(ProtocolErrorKind::MissingPartialSig)
    ));
    assert!(matches!(
        buyer.aggregate_partial_signatures(),
        Err(ProtocolErrorKind::MissingPartialSig)
    ));
    assert!(seller.sellers_warning_tx_buyer_input_sig_ctx.aggregated_sig.is_none());
    assert!(matches!(
        seller.aggregate_swap_tx_partial_signatures(),
        Err(ProtocolErrorKind::MissingPartialSig)
    ));
}

#[test]
fn buyer_extracts_the_sellers_key_share_from_the_published_swap_signature() {
    let (mut seller, buyer) =
        run_to_deposit(Role::SellerAsMaker, Role::BuyerAsTaker, Some((21, 34)), true);
    sign_swap_tx(&mut seller, &buyer);

    // The seller completes the signature with its key share of the buyer's
    // output, which is the secret of the adaptor point.
    let sellers_share = seller.buyer_output_key_ctx.my_key_share.as_ref().unwrap().prv_key;
    let sellers_adaptor_sig = musig2::AdaptorSignature::from_bytes(
        &seller.swap_tx_input_sig_ctx.aggregated_sig.unwrap().serialize(),
    )
    .unwrap();
    let secret = secp::Scalar::from_slice(&sellers_share.serialize()).unwrap();
    let published: musig2::LiftedSignature = sellers_adaptor_sig.adapt(secret).unwrap();

    let swap_key = secp::Point::from_slice(
        &seller.seller_output_key_ctx.aggregated_key.as_ref().unwrap().pub_key.serialize(),
    )
    .unwrap();
    musig2::verify_single(swap_key, published, b"swap tx input").unwrap();

    // The buyer subtracts the adaptor signature that it kept.
    let buyers_adaptor_sig = musig2::AdaptorSignature::from_bytes(
        &buyer.swap_tx_input_sig_ctx.aggregated_sig.unwrap().serialize(),
    )
    .unwrap();
    let recovered: secp::MaybeScalar = buyers_adaptor_sig.reveal_secret(&published).unwrap();
    assert_eq!(recovered.serialize(), sellers_share.serialize());
    assert_eq!(recovered.serialize(), scalar(21).serialize());

    let adaptor_point = match &buyer.swap_tx_input_sig_ctx.adaptor_point {
        MaybePoint::Valid(point) => point.serialize(),
        MaybePoint::Infinity => panic!("the swap transaction has no adaptor point"),
    };
    assert_eq!(recovered.unwrap().base_point_mul().serialize(), adaptor_point);

    // The library recovers the same secret, and refuses other signatures.
    let revealed = buyer.swap_tx_input_sig_ctx.reveal_adaptor_secret(&published.to_bytes());
    assert_eq!(revealed.unwrap().serialize(), sellers_share.serialize());
    assert!(buyer.swap_tx_input_sig_ctx.reveal_adaptor_secret(&[7u8; 64]).is_none());
    assert!(buyer.swap_tx_input_sig_ctx.reveal_adaptor_secret(&[]).is_none());
    assert!(buyer
        .buyers_redirect_tx_input_sig_ctx
        .reveal_adaptor_secret(&published.to_bytes())
        .is_none());

    // What the buyer recovered closes the trade for it.
    let mut buyer = buyer;
    let recovered = Scalar::from_slice(&recovered.serialize()).unwrap();
    buyer.set_peer_private_key_share_for_my_output(recovered).unwrap();
    let key = buyer.aggregate_private_keys_for_my_output().unwrap();
    let output = buyer.buyer_output_key_ctx.aggregated_key.as_ref().unwrap();
    assert!(key.base_point_mul() == output.pub_key);
}

#[test]
fn unrelated_private_key_share_is_mismatched_key_pair() {
    let (mut seller, mut buyer) =
        run_to_deposit(Role::SellerAsMaker, Role::BuyerAsTaker, Some((21, 34)), true);
    assert!(matches!(
        seller.set_peer_private_key_share_for_my_output(scalar(34)),
        Err(ProtocolErrorKind::MismatchedKeyPair)
    ));
    assert!(seller.seller_output_key_ctx.peers_key_share.as_ref().unwrap().prv_key.is_none());
    assert!(matches!(
        seller.aggregate_private_keys_for_my_output(),
        Err(ProtocolErrorKind::MissingKeyShare)
    ));
    assert!(matches!(
        buyer.set_peer_private_key_share_for_my_output(scalar(22)),
        Err(ProtocolErrorKind::MismatchedKeyPair)
    ));
    seller.set_peer_private_key_share_for_my_output(scalar(35)).unwrap();
    buyer.set_peer_private_key_share_for_my_output(scalar(21)).unwrap();
}

#[test]
fn aggregated_signatures_verify() {
    let (mut seller, buyer) =
        run_to_deposit(Role::SellerAsTaker, Role::BuyerAsMaker, Some((21, 34)), true);
    sign_swap_tx(&mut seller, &buyer);

    let check = |sig: &Option<AdaptorSignature>, key: &Point, message: &[u8]| {
        let sig = sig.unwrap();
        assert!(sig.verify(key, message, &MaybePoint::Infinity));
        assert!(!sig.verify(key, b"another message", &MaybePoint::Infinity));
        let parsed = musig2::AdaptorSignature::from_bytes(&sig.serialize()).unwrap();
        let plain: musig2::LiftedSignature = parsed.adapt(secp::MaybeScalar::Zero).unwrap();
        let key = secp::Point::from_slice(&key.serialize()).unwrap();
        musig2::verify_single(key, plain, message).unwrap();
    };
    let buyer_output = buyer.buyer_output_key_ctx.aggregated_key.as_ref().unwrap().pub_key;
    let seller_output = buyer.seller_output_key_ctx.aggregated_key.as_ref().unwrap().pub_key;
    check(
        &buyer.buyers_warning_tx_buyer_input_sig_ctx.aggregated_sig,
        &buyer_output,
        b"buyer's warning tx buyer input",
    );
    check(
        &buyer.buyers_warning_tx_seller_input_sig_ctx.aggregated_sig,
        &seller_output,
        b"buyer's warning tx seller input",
    );
    check(
        &buyer.buyers_redirect_tx_input_sig_ctx.aggregated_sig,
        &buyer_output,
        b"buyer's redirect tx input",
    );
    check(
        &seller.sellers_warning_tx_buyer_input_sig_ctx.aggregated_sig,
        &buyer_output,
        b"seller's warning tx buyer input",
    );
    check(
        &seller.sellers_warning_tx_seller_input_sig_ctx.aggregated_sig,
        &seller_output,
        b"seller's warning tx seller input",
    );
    check(
        &seller.sellers_redirect_tx_input_sig_ctx.aggregated_sig,
        &seller_output,
        b"seller's redirect tx input",
    );
    // The parties do not add up signatures on each other's transactions.
    assert!(buyer.sellers_redirect_tx_input_sig_ctx.aggregated_sig.is_none());
    assert!(seller.buyers_redirect_tx_input_sig_ctx.aggregated_sig.is_none());
}

#[test]
fn swap_adaptor_signature_verifies_under_its_adaptor_point() {
    let (_, buyer) = run_to_deposit(Role::SellerAsMaker, Role::BuyerAsTaker, Some((21, 34)), true);
    let sig = buyer.swap_tx_input_sig_ctx.aggregated_sig.unwrap();
    let key = buyer.seller_output_key_ctx.aggregated_key.as_ref().unwrap().pub_key;
    let other_key = buyer.buyer_output_key_ctx.aggregated_key.as_ref().unwrap().pub_key;
    let adaptor_point = buyer.swap_tx_input_sig_ctx.adaptor_point;
    assert!(sig.verify(&key, b"swap tx input", &adaptor_point));
    assert!(!sig.verify(&key, b"swap tx input", &MaybePoint::Infinity));
    assert!(!sig.verify(&other_key, b"swap tx input", &adaptor_point));

    let parsed = musig2::AdaptorSignature::from_bytes(&sig.serialize()).unwrap();
    let key = secp::Point::from_slice(&key.serialize()).unwrap();
    let point = secp::Scalar::try_from(21u128).unwrap().base_point_mul();
    musig2::adaptor::verify_single(key, &parsed, b"swap tx input", point).unwrap();
}

#[test]
fn swap_signature_is_added_up_under_the_key_of_the_sellers_output() {
    let mut seller = TradeModel::new("t".to_owned(), Role::SellerAsMaker);
    let mut buyer = TradeModel::new("t".to_owned(), Role::BuyerAsTaker);
    seller.init_my_key_shares_with(scalar(5), scalar(6));
    buyer.init_my_key_shares_with(scalar(8), scalar(9));
    exchange_keys(&mut seller, &mut buyer);
    assert_ne!(aggregated_pub_keys(&buyer).0, aggregated_pub_keys(&buyer).1);
    init_nonces(&mut seller, &mut buyer, true);
    exchange_nonces(&mut seller, &mut buyer);
    seller.sign_partial().unwrap();
    buyer.sign_partial().unwrap();
    exchange_partials(&mut seller, &mut buyer);
    seller.aggregate_partial_signatures().unwrap();

    // The swap transaction is signed for the key of the seller's output,
    // and both parties add it up under that key.
    buyer.aggregate_partial_signatures().unwrap();
    assert!(buyer.is_deposit_signed());
    sign_swap_tx(&mut seller, &buyer);
    let key = seller.seller_output_key_ctx.aggregated_key.as_ref().unwrap().pub_key;
    let adaptor_point = MaybePoint::Valid(scalar(5).base_point_mul());
    for trade in [&seller, &buyer] {
        let sig = trade.swap_tx_input_sig_ctx.aggregated_sig.unwrap();
        assert!(sig.verify(&key, b"swap tx input", &adaptor_point));
    }
    let sellers_sig = seller.swap_tx_input_sig_ctx.aggregated_sig.unwrap();
    let buyers_sig = buyer.swap_tx_input_sig_ctx.aggregated_sig.unwrap();
    assert_eq!(sellers_sig.serialize(), buyers_sig.serialize());

    // The buyer too can add it up alone, once it holds both partials.
    buyer.aggregate_swap_tx_partial_signatures().unwrap();
    close_cooperatively(&mut seller, &mut buyer);
}

#[test]
fn nonce_pairs_are_made_once() {
    let mut seller = TradeModel::new("t".to_owned(), Role::SellerAsMaker);
    let mut buyer = TradeModel::new("t".to_owned(), Role::BuyerAsTaker);
    init_keys(&mut seller, &mut buyer, Some((3, 7)));
    exchange_keys(&mut seller, &mut buyer);
    init_nonces(&mut seller, &mut buyer, false);
    let made = seller.swap_tx_input_sig_ctx.my_nonce_share.as_ref().unwrap().pub_nonce;
    assert!(matches!(seller.init_my_nonce_shares(), Err(ProtocolErrorKind::NonceReuse)));
    assert!(matches!(
        seller.init_my_nonce_shares_with(&seeds(50)),
        Err(ProtocolErrorKind::NonceReuse)
    ));
    exchange_nonces(&mut seller, &mut buyer);
    seller.sign_partial().unwrap();

    // A context that has signed makes no nonce pair again, and so does not
    // sign again.
    assert!(matches!(seller.init_my_nonce_shares(), Err(ProtocolErrorKind::NonceReuse)));
    let key_ctx = &seller.seller_output_key_ctx;
    assert!(matches!(
        seller.swap_tx_input_sig_ctx.init_my_nonce_share(key_ctx),
        Err(ProtocolErrorKind::NonceReuse)
    ));
    let pair = seller.swap_tx_input_sig_ctx.my_nonce_share.as_ref().unwrap();
    assert!(pair.sec_nonce.is_none());
    assert_eq!(pair.pub_nonce.serialize(), made.serialize());
    assert!(matches!(seller.sign_partial(), Err(ProtocolErrorKind::NonceReuse)));
}

#[test]
fn a_swap_partial_that_is_held_back_leaves_the_one_that_is_kept() {
    let mut seller = TradeModel::new("t".to_owned(), Role::SellerAsMaker);
    let mut buyer = TradeModel::new("t".to_owned(), Role::BuyerAsTaker);
    init_keys(&mut seller, &mut buyer, Some((3, 7)));
    exchange_keys(&mut seller, &mut buyer);
    init_nonces(&mut seller, &mut buyer, true);
    exchange_nonces(&mut seller, &mut buyer);
    seller.sign_partial().unwrap();
    buyer.sign_partial().unwrap();

    let with_swap = owned_sigs(&buyer.get_my_partial_signatures_on_peer_txs().unwrap(), true);
    let without_swap = owned_sigs(&buyer.get_my_partial_signatures_on_peer_txs().unwrap(), false);
    let swap = with_swap.swap_tx_input_partial_signature.unwrap().serialize();
    seller.set_peer_partial_signatures_on_my_txs(&without_swap);
    assert!(seller.swap_tx_input_sig_ctx.peers_partial_sig.is_none());
    seller.set_peer_partial_signatures_on_my_txs(&with_swap);
    assert_eq!(seller.swap_tx_input_sig_ctx.peers_partial_sig.unwrap().serialize(), swap);
    seller.set_peer_partial_signatures_on_my_txs(&without_swap);
    assert_eq!(seller.swap_tx_input_sig_ctx.peers_partial_sig.unwrap().serialize(), swap);
    assert!(seller.sellers_redirect_tx_input_sig_ctx.peers_partial_sig.is_some());
    assert!(seller.buyers_redirect_tx_input_sig_ctx.peers_partial_sig.is_none());
}

#[test]
fn steps_out_of_order_are_refused_and_change_nothing() {
    let mut seller = TradeModel::new("t".to_owned(), Role::SellerAsMaker);
    let mut buyer = TradeModel::new("t".to_owned(), Role::BuyerAsTaker);
    assert!(seller.get_my_key_shares().is_none());
    assert!(seller.get_my_private_key_share_for_peer_output().is_none());
    assert!(matches!(seller.aggregate_key_shares(), Err(ProtocolErrorKind::MissingKeyShare)));
    assert!(matches!(seller.init_my_nonce_shares(), Err(ProtocolErrorKind::MissingAggPubKey)));
    assert!(matches!(seller.aggregate_nonce_shares(), Err(ProtocolErrorKind::MissingKeyShare)));
    assert!(matches!(seller.sign_partial(), Err(ProtocolErrorKind::MissingAggPubKey)));
    assert!(matches!(
        seller.aggregate_partial_signatures(),
        Err(ProtocolErrorKind::MissingAggPubKey)
    ));
    assert!(matches!(
        seller.set_peer_private_key_share_for_my_output(scalar(1)),
        Err(ProtocolErrorKind::MissingKeyShare)
    ));
    assert!(matches!(
        seller.aggregate_private_keys_for_my_output(),
        Err(ProtocolErrorKind::MissingKeyShare)
    ));

    init_keys(&mut seller, &mut buyer, None);
    assert!(matches!(seller.aggregate_key_shares(), Err(ProtocolErrorKind::MissingKeyShare)));
    assert!(seller.buyer_output_key_ctx.aggregated_key.is_none());
    exchange_keys(&mut seller, &mut buyer);

    assert!(seller.get_my_nonce_shares().is_none());
    assert!(matches!(seller.sign_partial(), Err(ProtocolErrorKind::MissingNonceShare)));
    init_nonces(&mut seller, &mut buyer, false);
    assert!(matches!(seller.aggregate_nonce_shares(), Err(ProtocolErrorKind::MissingKeyShare)));
    assert!(matches!(seller.sign_partial(), Err(ProtocolErrorKind::MissingAggNonce)));
    assert!(seller.swap_tx_input_sig_ctx.my_nonce_share.as_ref().unwrap().sec_nonce.is_some());
    assert!(matches!(
        seller.aggregate_partial_signatures(),
        Err(ProtocolErrorKind::MissingAggNonce)
    ));
    exchange_nonces(&mut seller, &mut buyer);

    assert!(seller.get_my_partial_signatures_on_peer_txs().is_none());
    assert!(matches!(
        seller.aggregate_partial_signatures(),
        Err(ProtocolErrorKind::MissingPartialSig)
    ));
    seller.sign_partial().unwrap();
    assert!(seller.swap_tx_input_sig_ctx.my_nonce_share.as_ref().unwrap().sec_nonce.is_none());
    assert!(matches!(
        seller.aggregate_private_keys_for_my_output(),
        Err(ProtocolErrorKind::MissingKeyShare)
    ));
}

#[test]
fn a_wrong_partial_signature_does_not_verify() {
    let mut seller = TradeModel::new("t".to_owned(), Role::SellerAsMaker);
    let mut buyer = TradeModel::new("t".to_owned(), Role::BuyerAsTaker);
    init_keys(&mut seller, &mut buyer, Some((3, 4)));
    exchange_keys(&mut seller, &mut buyer);
    init_nonces(&mut seller, &mut buyer, true);
    exchange_nonces(&mut seller, &mut buyer);
    seller.sign_partial().unwrap();
    buyer.sign_partial().unwrap();
    let from_buyer = owned_sigs(&buyer.get_my_partial_signatures_on_peer_txs().unwrap(), false);
    let wrong = ExchangedSigs {
        peers_redirect_tx_input_partial_signature: PartialSignature::from_slice(&[0u8; 32])
            .unwrap(),
        ..from_buyer
    };
    seller.set_peer_partial_signatures_on_my_txs(&wrong);
    assert!(matches!(seller.aggregate_partial_signatures(), Err(ProtocolErrorKind::Verify(_))));
    assert!(seller.sellers_warning_tx_buyer_input_sig_ctx.aggregated_sig.is_none());
    assert!(seller.sellers_warning_tx_seller_input_sig_ctx.aggregated_sig.is_none());
}

#[test]
fn signing_with_a_key_outside_the_aggregation_fails_and_keeps_the_nonce() {
    let (seller, _) = run_to_deposit(Role::SellerAsMaker, Role::BuyerAsTaker, Some((3, 4)), true);
    let mut other = TradeModel::new("t".to_owned(), Role::SellerAsMaker);
    let mut peer = TradeModel::new("t".to_owned(), Role::BuyerAsTaker);
    init_keys(&mut other, &mut peer, Some((5, 6)));
    exchange_keys(&mut other, &mut peer);
    init_nonces(&mut other, &mut peer, true);
    exchange_nonces(&mut other, &mut peer);

    // The key share of one trade with the aggregation of another.
    other.seller_output_key_ctx.key_agg_ctx = seller.seller_output_key_ctx.key_agg_ctx;
    assert!(matches!(other.sign_partial(), Err(ProtocolErrorKind::Signing(_))));
    assert!(other.buyers_warning_tx_buyer_input_sig_ctx.my_partial_sig.is_none());
    assert!(other.swap_tx_input_sig_ctx.my_nonce_share.as_ref().unwrap().sec_nonce.is_some());

    other.seller_output_key_ctx.peers_key_share.as_mut().unwrap().prv_key = Some(scalar(6));
    assert!(matches!(
        other.seller_output_key_ctx.aggregate_prv_key_shares(),
        Err(ProtocolErrorKind::InvalidSecretKeys(_))
    ));
}

#[test]
fn nonces_are_those_of_the_curve_library() {
    let (seller, buyer) = run_to_deposit(Role::SellerAsMaker, Role::BuyerAsTaker, None, false);
    let key = secp::Point::from_slice(&aggregated_pub_keys(&seller).1).unwrap();
    let expected =
        musig2::SecNonceBuilder::new([0u8; 32]).with_aggregated_pubkey(key).build().public_nonce();
    let pair = seller.swap_tx_input_sig_ctx.my_nonce_share.as_ref().unwrap();
    assert_eq!(pair.pub_nonce.serialize(), expected.to_bytes());
    assert!(pair.sec_nonce.is_none());

    let sum = musig2::AggNonce::sum([&expected, &expected]);
    assert_eq!(seller.swap_tx_input_sig_ctx.aggregated_nonce.unwrap().serialize(), sum.to_bytes());
    assert_eq!(buyer.swap_tx_input_sig_ctx.aggregated_nonce.unwrap().serialize(), sum.to_bytes());
    assert_ne!(expected.to_bytes(), sum.to_bytes());

    let swap = seller.swap_tx_input_sig_ctx.peers_nonce_share.unwrap();
    assert!(PubNonce::from_bytes(&swap.serialize()).is_some());
}

#[test]
fn nonces_that_cancel_each_other_are_refused() {
    let mut seller = TradeModel::new("t".to_owned(), Role::SellerAsMaker);
    let mut buyer = TradeModel::new("t".to_owned(), Role::BuyerAsTaker);
    init_keys(&mut seller, &mut buyer, Some((3, 4)));
    exchange_keys(&mut seller, &mut buyer);
    init_nonces(&mut seller, &mut buyer, true);

    // The peer answers each nonce with its negation.
    let negated = |nonce: &PubNonce| {
        let mut bytes = nonce.serialize();
        bytes[0] ^= 1;
        bytes[33] ^= 1;
        PubNonce::from_bytes(&bytes).unwrap()
    };
    let from_buyer = owned_nonces(&buyer.get_my_nonce_shares().unwrap());
    let cancelling = {
        let own = seller.get_my_nonce_shares().unwrap();
        ExchangedNonces {
            buyers_redirect_tx_input_nonce_share: negated(own.buyers_redirect_tx_input_nonce_share),
            ..from_buyer
        }
    };
    seller.set_peer_nonce_shares(cancelling);
    assert!(matches!(seller.aggregate_nonce_shares(), Err(ProtocolErrorKind::ZeroAggNonce)));
    assert!(seller.swap_tx_input_sig_ctx.aggregated_nonce.is_none());
    assert!(seller.buyers_redirect_tx_input_sig_ctx.aggregated_nonce.is_none());
    assert!(matches!(seller.sign_partial(), Err(ProtocolErrorKind::MissingAggNonce)));

    let from_buyer = owned_nonces(&buyer.get_my_nonce_shares().unwrap());
    seller.set_peer_nonce_shares(from_buyer);
    seller.aggregate_nonce_shares().unwrap();
    assert!(!seller.swap_tx_input_sig_ctx.aggregated_nonce.unwrap().has_infinity_part());
}

#[test]
fn signing_sessions_go_through_their_stages() {
    let mut seller = TradeModel::new("t".to_owned(), Role::SellerAsMaker);
    let mut buyer = TradeModel::new("t".to_owned(), Role::BuyerAsTaker);
    assert_eq!(seller.swap_tx_input_sig_ctx.stage(), Stage::Empty);
    init_keys(&mut seller, &mut buyer, None);
    exchange_keys(&mut seller, &mut buyer);
    assert_eq!(seller.swap_tx_input_sig_ctx.stage(), Stage::Empty);
    init_nonces(&mut seller, &mut buyer, false);
    assert_eq!(seller.swap_tx_input_sig_ctx.stage(), Stage::Nonced);
    exchange_nonces(&mut seller, &mut buyer);
    assert_eq!(seller.swap_tx_input_sig_ctx.stage(), Stage::AggNonced);
    seller.sign_partial().unwrap();
    buyer.sign_partial().unwrap();
    assert_eq!(seller.swap_tx_input_sig_ctx.stage(), Stage::PartiallySigned);
    exchange_partials(&mut seller, &mut buyer);
    seller.aggregate_partial_signatures().unwrap();
    buyer.aggregate_partial_signatures().unwrap();
    assert!(seller.is_deposit_signed());
    assert!(buyer.is_deposit_signed());
    assert_eq!(seller.sellers_redirect_tx_input_sig_ctx.stage(), Stage::Aggregated);
    assert_eq!(seller.buyers_redirect_tx_input_sig_ctx.stage(), Stage::PartiallySigned);
    assert_eq!(seller.swap_tx_input_sig_ctx.stage(), Stage::PartiallySigned);
    assert_eq!(buyer.swap_tx_input_sig_ctx.stage(), Stage::Aggregated);
    sign_swap_tx(&mut seller, &buyer);
    assert_eq!(seller.swap_tx_input_sig_ctx.stage(), Stage::Aggregated);
}
