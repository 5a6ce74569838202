use musig_trade::error::ProtocolErrorKind;
use musig_trade::service::{
    decode_partial_signature, decode_point, decode_pub_nonce, decode_role, decode_scalar,
    CloseTradeRequest, DecodeFailure, DepositTxSignatureRequest, InternalFailure, MyGreeter,
    MyMuSig, NonceSharesMessage, NonceSharesRequest, NotFound, PartialSignaturesMessage,
    PartialSignaturesRequest, PubKeySharesRequest, PublishDepositTxRequest, Status,
    SwapTxSignatureRequest,
};
use musig_trade::store::{TradeModelMemoryStore, TradeModelStore};
use musig_trade::trade::{FeeRate, TradeModel};
use musig_trade::Role;

const ONE: [u8; 32] = [
    0, 0, 0, 0, 0, 0, 0, 0, 0, 0, 0, 0, 0, 0, 0, 0, 0, 0, 0, 0, 0, 0, 0, 0, 0, 0, 0, 0, 0, 0, 0, 1,
];

fn start(service: &MyMuSig, store: &mut TradeModelMemoryStore, trade_id: &str, role: i32) {
    let request = PubKeySharesRequest { trade_id: trade_id.to_owned(), my_role: role };
    let response = service.init_trade(store, request).unwrap();
    let generator = secp::Point::generator().serialize().to_vec();
    assert_eq!(response.buyer_output_pub_key_share, generator);
    assert_eq!(response.seller_output_pub_key_share, generator);
    assert_eq!(response.current_block_height, 900_000);
}

fn nonce_shares_request(trade_id: &str) -> NonceSharesRequest {
    let generator = secp::Point::generator().serialize().to_vec();
    NonceSharesRequest {
        trade_id: trade_id.to_owned(),
        buyer_output_peers_pub_key_share: generator.clone(),
        seller_output_peers_pub_key_share: generator,
        deposit_tx_fee_rate: FeeRate { bits: 12.5f64.to_bits() },
        prepared_tx_fee_rate: FeeRate { bits: 10.0f64.to_bits() },
        trade_amount: 200_000,
        buyers_security_deposit: 30_000,
        sellers_security_deposit: 30_000,
    }
}

fn without_swap(message: &PartialSignaturesMessage) -> PartialSignaturesMessage {
    PartialSignaturesMessage {
        peers_warning_tx_buyer_input_partial_signature: message
            .peers_warning_tx_buyer_input_partial_signature
            .clone(),
        peers_warning_tx_seller_input_partial_signature: message
            .peers_warning_tx_seller_input_partial_signature
            .clone(),
        peers_redirect_tx_input_partial_signature: message
            .peers_redirect_tx_input_partial_signature
            .clone(),
        swap_tx_input_partial_signature: None,
    }
}

#[test]
fn greeter_greets_by_name() {
    assert_eq!(MyGreeter::default().say_hello("Alice").message, "Hello, Alice!");
    assert_eq!(MyGreeter::default().say_hello("").message, "Hello, !");
}

#[test]
fn roles_decode_from_their_numbers() {
    assert!(matches!(decode_role(0), Ok(Role::SellerAsMaker)));
    assert!(matches!(decode_role(1), Ok(Role::SellerAsTaker)));
    assert!(matches!(decode_role(2), Ok(Role::BuyerAsMaker)));
    assert!(matches!(decode_role(3), Ok(Role::BuyerAsTaker)));
    assert!(matches!(decode_role(4), Err(Status::OutOfRange { value: 4 })));
    assert!(matches!(decode_role(-1), Err(Status::OutOfRange { value: -1 })));
}

#[test]
fn bytes_that_do_not_decode_are_invalid_arguments() {
    assert!(matches!(decode_point(&[0u8; 33]), Err(Status::InvalidArgument(DecodeFailure::Point))));
    let generator = secp::Point::generator();
    assert_eq!(decode_point(&generator.serialize()).unwrap().serialize(), generator.serialize());
    assert!(matches!(
        decode_point(&generator.serialize_uncompressed()),
        Err(Status::InvalidArgument(DecodeFailure::Point))
    ));
    assert!(matches!(
        decode_pub_nonce(&[0u8; 66]),
        Err(Status::InvalidArgument(DecodeFailure::PubNonce))
    ));
    assert!(matches!(
        decode_scalar(&[0u8; 32]),
        Err(Status::InvalidArgument(DecodeFailure::Scalar))
    ));
    assert!(matches!(
        decode_partial_signature(&[0xFF; 32]),
        Err(Status::InvalidArgument(DecodeFailure::Scalar))
    ));
    assert!(decode_partial_signature(&[0u8; 32]).is_ok());
    assert_eq!(decode_scalar(&ONE).unwrap().serialize(), ONE);
}

#[test]
fn trade_runs_through_the_service_on_both_sides() {
    let service = MyMuSig::default();
    let mut sellers = TradeModelMemoryStore::new();
    let mut buyers = TradeModelMemoryStore::new();
    start(&service, &mut sellers, "trade", 0);
    start(&service, &mut buyers, "trade", 3);

    let request = nonce_shares_request("trade");
    let sellers_nonces = service.get_nonce_shares(&mut sellers, &request).unwrap();
    let buyers_nonces = service.get_nonce_shares(&mut buyers, &request).unwrap();
    assert_eq!(sellers_nonces.warning_tx_fee_bump_address, "address1");
    assert_eq!(sellers_nonces.redirect_tx_fee_bump_address, "address2");
    assert!(sellers_nonces.half_deposit_psbt.is_empty());
    assert_eq!(sellers_nonces.swap_tx_input_nonce_share.len(), 66);
    {
        let trade = sellers.get_trade_model("trade").unwrap();
        assert_eq!(trade.trade_amount, Some(200_000));
        assert_eq!(trade.buyers_security_deposit, Some(30_000));
        assert_eq!(trade.sellers_security_deposit, Some(30_000));
        assert_eq!(trade.deposit_tx_fee_rate.map(|r| f64::from_bits(r.bits)), Some(12.5));
        assert_eq!(trade.prepared_tx_fee_rate.map(|r| f64::from_bits(r.bits)), Some(10.0));
        let own = trade.swap_tx_input_sig_ctx.my_nonce_share.as_ref().unwrap();
        assert_eq!(own.pub_nonce.serialize().to_vec(), sellers_nonces.swap_tx_input_nonce_share);
    }

    let to_seller = PartialSignaturesRequest {
        trade_id: "trade".to_owned(),
        peers_nonce_shares: Some(buyers_nonces),
    };
    let to_buyer = PartialSignaturesRequest {
        trade_id: "trade".to_owned(),
        peers_nonce_shares: Some(sellers_nonces),
    };
    let sellers_sigs = service.get_partial_signatures(&mut sellers, &to_seller).unwrap();
    let buyers_sigs = service.get_partial_signatures(&mut buyers, &to_buyer).unwrap();
    assert_eq!(sellers_sigs.peers_redirect_tx_input_partial_signature.len(), 32);
    assert!(sellers_sigs.swap_tx_input_partial_signature.is_some());
    {
        let trade = sellers.get_trade_model("trade").unwrap();
        let own = trade.buyers_redirect_tx_input_sig_ctx.my_partial_sig.unwrap();
        let sent = &sellers_sigs.peers_redirect_tx_input_partial_signature;
        assert_eq!(&own.serialize().to_vec(), sent);
    }
    assert!(matches!(
        service.get_partial_signatures(&mut sellers, &to_seller),
        Err(Status::Internal(InternalFailure::Protocol(ProtocolErrorKind::NonceReuse)))
    ));

    let publish = PublishDepositTxRequest { trade_id: "trade".to_owned() };
    assert!(!sellers.get_trade_model("trade").unwrap().is_deposit_signed());
    assert!(matches!(
        service.publish_deposit_tx(&sellers, &publish),
        Err(Status::Internal(InternalFailure::DepositNotSigned))
    ));

    // The buyer holds its partial signature on the swap transaction back.
    let buyers_swap_sig = buyers_sigs.swap_tx_input_partial_signature.clone().unwrap();
    let to_seller = DepositTxSignatureRequest {
        trade_id: "trade".to_owned(),
        peers_partial_signatures: Some(without_swap(&buyers_sigs)),
    };
    let to_buyer = DepositTxSignatureRequest {
        trade_id: "trade".to_owned(),
        peers_partial_signatures: Some(sellers_sigs),
    };
    let deposit = service.sign_deposit_tx(&mut sellers, &to_seller).unwrap();
    assert_eq!(deposit.deposit_psbt, b"deposit_psbt");
    let deposit = service.sign_deposit_tx(&mut buyers, &to_buyer).unwrap();
    assert_eq!(deposit.deposit_psbt, b"deposit_psbt");
    let buyers_trade = buyers.get_trade_model("trade").unwrap();
    assert!(buyers_trade.swap_tx_input_sig_ctx.aggregated_sig.is_some());
    let sellers_trade = sellers.get_trade_model("trade").unwrap();
    assert!(sellers_trade.swap_tx_input_sig_ctx.aggregated_sig.is_none());

    let publish = PublishDepositTxRequest { trade_id: "trade".to_owned() };
    assert!(sellers.get_trade_model("trade").unwrap().is_deposit_signed());
    assert!(buyers.get_trade_model("trade").unwrap().is_deposit_signed());
    let confirmation = service.publish_deposit_tx(&sellers, &publish).unwrap();
    assert_eq!(confirmation.tx, b"signed_deposit_tx");
    assert_eq!(confirmation.current_block_height, 900_001);
    assert_eq!(confirmation.num_confirmations, 1);

    let swap = SwapTxSignatureRequest {
        trade_id: "trade".to_owned(),
        swap_tx_input_peers_partial_signature: buyers_swap_sig,
    };
    let signed = service.sign_swap_tx(&mut sellers, &swap).unwrap();
    assert_eq!(signed.swap_tx, b"signed_swap_tx");
    assert_eq!(signed.peer_output_prv_key_share, ONE);
    let sellers_trade = sellers.get_trade_model("trade").unwrap();
    assert!(sellers_trade.swap_tx_input_sig_ctx.aggregated_sig.is_some());

    let close = CloseTradeRequest {
        trade_id: "trade".to_owned(),
        my_output_peers_prv_key_share: Some(signed.peer_output_prv_key_share),
    };
    let closed = service.close_trade(&mut buyers, &close).unwrap();
    assert_eq!(closed.peer_output_prv_key_share, ONE);
    let trade = buyers.get_trade_model("trade").unwrap();
    let key = trade.buyer_output_key_ctx.aggregated_key.as_ref().unwrap();
    assert!(key.prv_key.unwrap().base_point_mul() == key.pub_key);

    let close =
        CloseTradeRequest { trade_id: "trade".to_owned(), my_output_peers_prv_key_share: None };
    assert_eq!(service.close_trade(&mut sellers, &close).unwrap().peer_output_prv_key_share, ONE);
    let trade = sellers.get_trade_model("trade").unwrap();
    assert!(trade.seller_output_key_ctx.aggregated_key.as_ref().unwrap().prv_key.is_none());
}

#[test]
fn unknown_role_is_out_of_range() {
    let service = MyMuSig::default();
    let mut store = TradeModelMemoryStore::new();
    let request = PubKeySharesRequest { trade_id: "trade".to_owned(), my_role: -3 };
    assert!(matches!(service.start_trade(request), Err(Status::OutOfRange { value: -3 })));
    let request = PubKeySharesRequest { trade_id: "trade".to_owned(), my_role: 3 };
    let (trade, response) = service.start_trade(request).ok().unwrap();
    assert_eq!(trade.trade_id, "trade");
    assert_eq!(trade.my_role, Role::BuyerAsTaker);
    assert_eq!(Role::default(), Role::SellerAsMaker);
    assert_eq!(
        response.seller_output_pub_key_share,
        trade.seller_output_key_ctx.my_key_share.as_ref().unwrap().pub_key.serialize()
    );
    let request = PubKeySharesRequest { trade_id: "trade".to_owned(), my_role: 9 };
    let refused = service.init_trade(&mut store, request);
    assert!(matches!(refused, Err(Status::OutOfRange { value: 9 })));
    assert_eq!(store.len(), 0);
}

#[test]
fn missing_trade_is_not_found() {
    let service = MyMuSig::default();
    let mut store = TradeModelMemoryStore::new();
    start(&service, &mut store, "trade", 0);
    let is_missing = |status: Status| match status {
        Status::NotFound(NotFound::Trade { trade_id }) => trade_id == "other",
        _ => false,
    };
    let request = nonce_shares_request("other");
    assert!(is_missing(service.get_nonce_shares(&mut store, &request).err().unwrap()));
    let request =
        PartialSignaturesRequest { trade_id: "other".to_owned(), peers_nonce_shares: None };
    assert!(is_missing(service.get_partial_signatures(&mut store, &request).err().unwrap()));
    let request =
        DepositTxSignatureRequest { trade_id: "other".to_owned(), peers_partial_signatures: None };
    assert!(is_missing(service.sign_deposit_tx(&mut store, &request).err().unwrap()));
    let request = PublishDepositTxRequest { trade_id: "other".to_owned() };
    assert!(is_missing(service.publish_deposit_tx(&store, &request).err().unwrap()));
    let request = SwapTxSignatureRequest {
        trade_id: "other".to_owned(),
        swap_tx_input_peers_partial_signature: ONE.to_vec(),
    };
    assert!(is_missing(service.sign_swap_tx(&mut store, &request).err().unwrap()));
    let request =
        CloseTradeRequest { trade_id: "other".to_owned(), my_output_peers_prv_key_share: None };
    assert!(is_missing(service.close_trade(&mut store, &request).err().unwrap()));
    assert_eq!(store.len(), 1);
}

#[test]
fn requests_that_do_not_decode_change_nothing() {
    let service = MyMuSig::default();
    let mut store = TradeModelMemoryStore::new();
    start(&service, &mut store, "trade", 2);

    let mut request = nonce_shares_request("trade");
    request.seller_output_peers_pub_key_share = vec![2u8; 32];
    assert!(matches!(
        service.get_nonce_shares(&mut store, &request),
        Err(Status::InvalidArgument(DecodeFailure::Point))
    ));
    assert!(store.get_trade_model("trade").unwrap().buyer_output_key_ctx.peers_key_share.is_none());

    let request =
        PartialSignaturesRequest { trade_id: "trade".to_owned(), peers_nonce_shares: None };
    assert!(matches!(
        service.get_partial_signatures(&mut store, &request),
        Err(Status::NotFound(NotFound::PeersNonceShares))
    ));
    let nonces = NonceSharesMessage {
        warning_tx_fee_bump_address: String::new(),
        redirect_tx_fee_bump_address: String::new(),
        half_deposit_psbt: vec![],
        swap_tx_input_nonce_share: vec![0u8; 66],
        buyers_warning_tx_buyer_input_nonce_share: vec![],
        buyers_warning_tx_seller_input_nonce_share: vec![],
        sellers_warning_tx_buyer_input_nonce_share: vec![],
        sellers_warning_tx_seller_input_nonce_share: vec![],
        buyers_redirect_tx_input_nonce_share: vec![],
        sellers_redirect_tx_input_nonce_share: vec![],
    };
    let request =
        PartialSignaturesRequest { trade_id: "trade".to_owned(), peers_nonce_shares: Some(nonces) };
    assert!(matches!(
        service.get_partial_signatures(&mut store, &request),
        Err(Status::InvalidArgument(DecodeFailure::PubNonce))
    ));

    let request =
        DepositTxSignatureRequest { trade_id: "trade".to_owned(), peers_partial_signatures: None };
    assert!(matches!(
        service.sign_deposit_tx(&mut store, &request),
        Err(Status::NotFound(NotFound::PeersPartialSignatures))
    ));
    let sigs = PartialSignaturesMessage {
        peers_warning_tx_buyer_input_partial_signature: ONE.to_vec(),
        peers_warning_tx_seller_input_partial_signature: ONE.to_vec(),
        peers_redirect_tx_input_partial_signature: ONE.to_vec(),
        swap_tx_input_partial_signature: Some(vec![0xFF; 32]),
    };
    let request = DepositTxSignatureRequest {
        trade_id: "trade".to_owned(),
        peers_partial_signatures: Some(sigs),
    };
    assert!(matches!(
        service.sign_deposit_tx(&mut store, &request),
        Err(Status::InvalidArgument(DecodeFailure::Scalar))
    ));
    let trade = store.get_trade_model("trade").unwrap();
    assert!(trade.buyers_warning_tx_buyer_input_sig_ctx.peers_partial_sig.is_none());

    let request = SwapTxSignatureRequest {
        trade_id: "trade".to_owned(),
        swap_tx_input_peers_partial_signature: vec![1u8; 31],
    };
    assert!(matches!(
        service.sign_swap_tx(&mut store, &request),
        Err(Status::InvalidArgument(DecodeFailure::Scalar))
    ));
    let request = CloseTradeRequest {
        trade_id: "trade".to_owned(),
        my_output_peers_prv_key_share: Some(vec![0u8; 32]),
    };
    assert!(matches!(
        service.close_trade(&mut store, &request),
        Err(Status::InvalidArgument(DecodeFailure::Scalar))
    ));
}

#[test]
fn protocol_errors_are_internal() {
    let service = MyMuSig::default();
    let mut store = TradeModelMemoryStore::new();
    start(&service, &mut store, "trade", 1);

    let sigs = PartialSignaturesMessage {
        peers_warning_tx_buyer_input_partial_signature: ONE.to_vec(),
        peers_warning_tx_seller_input_partial_signature: ONE.to_vec(),
        peers_redirect_tx_input_partial_signature: ONE.to_vec(),
        swap_tx_input_partial_signature: None,
    };
    let request = DepositTxSignatureRequest {
        trade_id: "trade".to_owned(),
        peers_partial_signatures: Some(sigs),
    };
    assert!(matches!(
        service.sign_deposit_tx(&mut store, &request),
        Err(Status::Internal(InternalFailure::Protocol(ProtocolErrorKind::MissingAggPubKey)))
    ));
    // The request that failed has changed nothing.
    let trade = store.get_trade_model("trade").unwrap();
    assert!(trade.sellers_warning_tx_buyer_input_sig_ctx.peers_partial_sig.is_none());
    assert!(trade.sellers_warning_tx_buyer_input_sig_ctx.aggregated_sig.is_none());

    let request = SwapTxSignatureRequest {
        trade_id: "trade".to_owned(),
        swap_tx_input_peers_partial_signature: ONE.to_vec(),
    };
    assert!(matches!(
        service.sign_swap_tx(&mut store, &request),
        Err(Status::Internal(InternalFailure::Protocol(ProtocolErrorKind::MissingAggPubKey)))
    ));
    let request = CloseTradeRequest {
        trade_id: "trade".to_owned(),
        my_output_peers_prv_key_share: Some(ONE.to_vec()),
    };
    assert!(matches!(
        service.close_trade(&mut store, &request),
        Err(Status::Internal(InternalFailure::Protocol(ProtocolErrorKind::MissingKeyShare)))
    ));

    service.get_nonce_shares(&mut store, &nonce_shares_request("trade")).unwrap();
    assert!(matches!(
        service.get_nonce_shares(&mut store, &nonce_shares_request("trade")),
        Err(Status::Internal(InternalFailure::Protocol(ProtocolErrorKind::NonceReuse)))
    ));
    let request = SwapTxSignatureRequest {
        trade_id: "trade".to_owned(),
        swap_tx_input_peers_partial_signature: ONE.to_vec(),
    };
    assert!(matches!(
        service.sign_swap_tx(&mut store, &request),
        Err(Status::Internal(InternalFailure::Protocol(ProtocolErrorKind::MissingAggNonce)))
    ));
    let trade = store.get_trade_model("trade").unwrap();
    assert!(trade.swap_tx_input_sig_ctx.peers_partial_sig.is_none());
    let mut two = ONE;
    two[31] = 2;
    let request = CloseTradeRequest {
        trade_id: "trade".to_owned(),
        my_output_peers_prv_key_share: Some(two.to_vec()),
    };
    assert!(matches!(
        service.close_trade(&mut store, &request),
        Err(Status::Internal(InternalFailure::Protocol(ProtocolErrorKind::MismatchedKeyPair)))
    ));
}

#[test]
fn starting_a_trade_again_replaces_it() {
    let service = MyMuSig::default();
    let mut store = TradeModelMemoryStore::new();
    start(&service, &mut store, "trade", 0);
    service.get_nonce_shares(&mut store, &nonce_shares_request("trade")).unwrap();
    assert!(store.get_trade_model("trade").unwrap().trade_amount.is_some());
    start(&service, &mut store, "trade", 2);
    assert_eq!(store.len(), 1);
    let trade = store.get_trade_model("trade").unwrap();
    assert_eq!(trade.my_role, Role::BuyerAsMaker);
    assert!(trade.trade_amount.is_none());
}

#[test]
fn closing_a_trade_without_key_shares_is_an_internal_failure() {
    let service = MyMuSig::default();
    let mut trade = TradeModel::new("trade".to_owned(), Role::SellerAsMaker);
    let request =
        CloseTradeRequest { trade_id: "trade".to_owned(), my_output_peers_prv_key_share: None };
    assert!(matches!(
        service.close_trade_of(&mut trade, &request),
        Err(Status::Internal(InternalFailure::MissingPrivateKeyShare))
    ));
    assert!(matches!(
        service.publish_deposit_tx_of(&trade),
        Err(Status::Internal(InternalFailure::DepositNotSigned))
    ));
    trade.init_my_key_shares();
    let closed = service.close_trade_of(&mut trade, &request).unwrap();
    assert_eq!(closed.peer_output_prv_key_share, ONE);
}

#[test]
fn statuses_tell_themselves() {
    let text = |status: Status| status.message().unwrap();
    assert_eq!(text(Status::InvalidArgument(DecodeFailure::Point)), "could not decode point");
    assert_eq!(
        text(Status::InvalidArgument(DecodeFailure::PubNonce)),
        "could not decode pub nonce"
    );
    assert_eq!(text(Status::InvalidArgument(DecodeFailure::Scalar)), "could not decode scalar");
    assert_eq!(text(Status::OutOfRange { value: 0 }), "unknown enum value: 0");
    assert_eq!(text(Status::OutOfRange { value: 7 }), "unknown enum value: 7");
    assert_eq!(text(Status::OutOfRange { value: 10 }), "unknown enum value: 10");
    assert_eq!(text(Status::OutOfRange { value: 90210 }), "unknown enum value: 90210");
    assert_eq!(text(Status::OutOfRange { value: -1 }), "unknown enum value: -1");
    assert_eq!(text(Status::OutOfRange { value: i32::MAX }), "unknown enum value: 2147483647");
    assert_eq!(text(Status::OutOfRange { value: i32::MIN }), "unknown enum value: -2147483648");
    assert_eq!(
        text(Status::NotFound(NotFound::Trade { trade_id: "t-1".to_owned() })),
        "missing trade with id: t-1"
    );
    assert_eq!(
        text(Status::NotFound(NotFound::PeersNonceShares)),
        "missing request.peers_nonce_shares"
    );
    assert_eq!(
        text(Status::NotFound(NotFound::PeersPartialSignatures)),
        "missing request.peers_partial_signatures"
    );
    assert_eq!(text(Status::Internal(InternalFailure::MissingKeyShares)), "missing key shares");
    assert_eq!(
        text(Status::Internal(InternalFailure::MissingNonceShares)),
        "missing nonce shares"
    );
    assert_eq!(
        text(Status::Internal(InternalFailure::MissingPartialSignatures)),
        "missing partial signatures"
    );
    assert_eq!(
        text(Status::Internal(InternalFailure::MissingPrivateKeyShare)),
        "missing private key share"
    );
    assert_eq!(
        text(Status::Internal(InternalFailure::DepositNotSigned)),
        "missing aggregated signatures"
    );
    let protocol = |e: ProtocolErrorKind| Status::from_protocol_error(e).message();
    assert_eq!(protocol(ProtocolErrorKind::MissingKeyShare).unwrap(), "missing key share");
    assert_eq!(protocol(ProtocolErrorKind::MissingNonceShare).unwrap(), "missing nonce share");
    assert_eq!(
        protocol(ProtocolErrorKind::MissingPartialSig).unwrap(),
        "missing partial signature"
    );
    assert_eq!(protocol(ProtocolErrorKind::MissingAggPubKey).unwrap(), "missing aggregated pubkey");
    assert_eq!(protocol(ProtocolErrorKind::MissingAggNonce).unwrap(), "missing aggregated nonce");
    assert_eq!(protocol(ProtocolErrorKind::NonceReuse).unwrap(), "nonce has already been used");
    assert_eq!(
        protocol(ProtocolErrorKind::MismatchedKeyPair).unwrap(),
        "public-private key mismatch"
    );
    assert_eq!(
        protocol(ProtocolErrorKind::ZeroAggNonce).unwrap(),
        "aggregated nonce has a point at infinity"
    );
    assert!(protocol(ProtocolErrorKind::KeyAgg(musig2::errors::KeyAggError)).is_none());
    assert!(ProtocolErrorKind::Verify(musig2::errors::VerifyError::BadSignature)
        .message()
        .is_none());
}
