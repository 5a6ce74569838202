use crate::curve::{
    is_maybe_scalar_encoding, is_pub_nonce_encoding, is_scalar_encoding, spec_point_from_slice,
};
use crate::curve::{PartialSignature, Point, PubNonce, Scalar};
use crate::error::{ProtocolErrorKind, StepOutcome};
use crate::store::TradeModelStore;
use crate::storage::ByVal;
use crate::trade::{ExchangedNonces, ExchangedSigs, FeeRate, NonceSeedBytes, TradeModel};
use crate::Role;
use vstd::prelude::*;
use vstd::slice::slice_to_vec;
use vstd::string::StringExecFns;
use vstd::string::StringSliceAdditionalSpecFns;

verus! {

/// What could not be decoded from the bytes of a request.
#[derive(Clone, Copy, Debug, PartialEq, Eq, Structural)]
pub enum DecodeFailure {
    Point,
    PubNonce,
    Scalar,
}

/// What a request names or should hold, and which is not there.
#[derive(Debug)]
pub enum NotFound {
    /// No trade has the id of the request.
    Trade { trade_id: String },
    /// The request holds no nonce shares of the peer.
    PeersNonceShares,
    /// The request holds no partial signatures of the peer.
    PeersPartialSignatures,
}

/// What went wrong inside the service.
#[derive(Debug)]
pub enum InternalFailure {
    /// A step of the protocol failed.
    Protocol(ProtocolErrorKind),
    /// The trade has no own key shares.
    MissingKeyShares,
    /// The trade has no own nonce shares.
    MissingNonceShares,
    /// The trade has no own partial signatures.
    MissingPartialSignatures,
    /// The trade has no own private key share.
    MissingPrivateKeyShare,
    /// The signatures that the deposit waits for have not all been added
    /// up.
    DepositNotSigned,
}

/// Why a request is answered with an error: the status code, and what it
/// is about.
#[derive(Debug)]
pub enum Status {
    /// Bytes of the request do not decode.
    InvalidArgument(DecodeFailure),
    /// A number of the request stands for no value of its enumeration.
    OutOfRange { value: i32 },
    /// Something that the request names or should hold is not there.
    NotFound(NotFound),
    /// The service failed.
    Internal(InternalFailure),
}

/// The decimal digit of a number below ten.
pub open spec fn spec_digit(digit: nat) -> Seq<char> {
    if digit == 0 {
        "0"@
    } else if digit == 1 {
        "1"@
    } else if digit == 2 {
        "2"@
    } else if digit == 3 {
        "3"@
    } else if digit == 4 {
        "4"@
    } else if digit == 5 {
        "5"@
    } else if digit == 6 {
        "6"@
    } else if digit == 7 {
        "7"@
    } else if digit == 8 {
        "8"@
    } else {
        "9"@
    }
}

/// The decimal digits of a number, the most significant first.
pub open spec fn spec_decimal(number: nat) -> Seq<char>
    decreases number,
{
    if number < 10 {
        spec_digit(number)
    } else {
        spec_decimal(number / 10) + spec_digit(number % 10)
    }
}

/// A number of the wire in decimal digits, with a minus sign before them
/// where it is negative.
pub open spec fn spec_signed_decimal(number: i32) -> Seq<char> {
    if number < 0 {
        "-"@ + spec_decimal((-number) as nat)
    } else {
        spec_decimal(number as nat)
    }
}

/// The decimal digit of a number below ten.
fn digit_text(number: u64) -> (r: &'static str)
    requires
        number < 10,
    ensures
        r@ == spec_digit(number as nat),
{
    if number == 0 {
        "0"
    } else if number == 1 {
        "1"
    } else if number == 2 {
        "2"
    } else if number == 3 {
        "3"
    } else if number == 4 {
        "4"
    } else if number == 5 {
        "5"
    } else if number == 6 {
        "6"
    } else if number == 7 {
        "7"
    } else if number == 8 {
        "8"
    } else {
        "9"
    }
}

/// The decimal digits of a number.
fn decimal(number: u64) -> (r: String)
    ensures
        r@ == spec_decimal(number as nat),
    decreases number,
{
    if number < 10 {
        String::from_str(digit_text(number))
    } else {
        decimal(number / 10).concat(digit_text(number % 10))
    }
}

/// A number of the wire in decimal digits.
fn signed_decimal(number: i32) -> (r: String)
    ensures
        r@ == spec_signed_decimal(number),
{
    if number < 0 {
        let magnitude: i64 = -(number as i64);
        String::from_str("-").concat(decimal(magnitude as u64).as_str())
    } else {
        decimal(number as u64)
    }
}

impl DecodeFailure {
    /// The text that tells what did not decode.
    pub open spec fn spec_message(&self) -> Seq<char> {
        match self {
            DecodeFailure::Point => "could not decode point"@,
            DecodeFailure::PubNonce => "could not decode pub nonce"@,
            DecodeFailure::Scalar => "could not decode scalar"@,
        }
    }
}

impl NotFound {
    /// The text that tells what is not there.
    pub open spec fn spec_message(&self) -> Seq<char> {
        match self {
            NotFound::Trade { trade_id } => "missing trade with id: "@ + trade_id@,
            NotFound::PeersNonceShares => "missing request.peers_nonce_shares"@,
            NotFound::PeersPartialSignatures => "missing request.peers_partial_signatures"@,
        }
    }
}

impl InternalFailure {
    /// The text that tells the failure; `None` for an error of the curve
    /// library, which tells itself.
    pub open spec fn spec_message(&self) -> Option<Seq<char>> {
        match self {
            InternalFailure::Protocol(e) => e.spec_message(),
            InternalFailure::MissingKeyShares => Some("missing key shares"@),
            InternalFailure::MissingNonceShares => Some("missing nonce shares"@),
            InternalFailure::MissingPartialSignatures => Some("missing partial signatures"@),
            InternalFailure::MissingPrivateKeyShare => Some("missing private key share"@),
            InternalFailure::DepositNotSigned => Some("missing aggregated signatures"@),
        }
    }
}

impl Status {
    /// The text of the status; `None` where the status reports an error of
    /// the curve library, which tells itself.
    pub open spec fn spec_message(&self) -> Option<Seq<char>> {
        match self {
            Status::InvalidArgument(failure) => Some(failure.spec_message()),
            Status::OutOfRange { value } => Some(
                "unknown enum value: "@ + spec_signed_decimal(*value),
            ),
            Status::NotFound(missing) => Some(missing.spec_message()),
            Status::Internal(failure) => failure.spec_message(),
        }
    }

    /// The text of the status, for every status that does not report an
    /// error of the curve library.
    pub fn message(&self) -> (r: Option<String>)
        ensures
            r is Some <==> self.spec_message() is Some,
            r matches Some(text) ==> Some(text@) == self.spec_message(),
    {
        match self {
            Status::InvalidArgument(DecodeFailure::Point) => Some(
                String::from_str("could not decode point"),
            ),
            Status::InvalidArgument(DecodeFailure::PubNonce) => Some(
                String::from_str("could not decode pub nonce"),
            ),
            Status::InvalidArgument(DecodeFailure::Scalar) => Some(
                String::from_str("could not decode scalar"),
            ),
            Status::OutOfRange { value } => Some(
                String::from_str("unknown enum value: ").concat(signed_decimal(*value).as_str()),
            ),
            Status::NotFound(NotFound::Trade { trade_id }) => Some(
                String::from_str("missing trade with id: ").concat(trade_id.as_str()),
            ),
            Status::NotFound(NotFound::PeersNonceShares) => Some(
                String::from_str("missing request.peers_nonce_shares"),
            ),
            Status::NotFound(NotFound::PeersPartialSignatures) => Some(
                String::from_str("missing request.peers_partial_signatures"),
            ),
            Status::Internal(InternalFailure::Protocol(e)) => e.message(),
            Status::Internal(InternalFailure::MissingKeyShares) => Some(
                String::from_str("missing key shares"),
            ),
            Status::Internal(InternalFailure::MissingNonceShares) => Some(
                String::from_str("missing nonce shares"),
            ),
            Status::Internal(InternalFailure::MissingPartialSignatures) => Some(
                String::from_str("missing partial signatures"),
            ),
            Status::Internal(InternalFailure::MissingPrivateKeyShare) => Some(
                String::from_str("missing private key share"),
            ),
            Status::Internal(InternalFailure::DepositNotSigned) => Some(
                String::from_str("missing aggregated signatures"),
            ),
        }
    }

    /// The status that reports the error of a step of the protocol: an
    /// internal failure.
    pub fn from_protocol_error(e: ProtocolErrorKind) -> (r: Status)
        ensures
            r == Status::Internal(InternalFailure::Protocol(e)),
    {
        Status::Internal(InternalFailure::Protocol(e))
    }
}

/// The role that a number of the wire stands for.
pub open spec fn spec_role(value: i32) -> Option<Role> {
    if value == 0 {
        Some(Role::SellerAsMaker)
    } else if value == 1 {
        Some(Role::SellerAsTaker)
    } else if value == 2 {
        Some(Role::BuyerAsMaker)
    } else if value == 3 {
        Some(Role::BuyerAsTaker)
    } else {
        None
    }
}

/// Decodes a role from its number on the wire.
pub fn decode_role(value: i32) -> (r: Result<Role, Status>)
    ensures
        spec_role(value) matches Some(role) ==> r == Ok::<Role, Status>(role),
        spec_role(value) is None ==> r == Err::<Role, Status>((Status::OutOfRange { value })),
{
    if value == 0 {
        Ok(Role::SellerAsMaker)
    } else if value == 1 {
        Ok(Role::SellerAsTaker)
    } else if value == 2 {
        Ok(Role::BuyerAsMaker)
    } else if value == 3 {
        Ok(Role::BuyerAsTaker)
    } else {
        Err(Status::OutOfRange { value })
    }
}

/// The curve point that the 33 bytes of its compressed encoding stand
/// for; `None` for other bytes.
pub open spec fn spec_decode_point(bytes: Seq<u8>) -> Option<Point> {
    if bytes.len() == 33 {
        Point::spec_from_slice(bytes)
    } else {
        None
    }
}

/// Decodes a curve point from the bytes of a request: the 33 bytes of its
/// compressed encoding.
pub fn decode_point(bytes: &[u8]) -> (r: Result<Point, Status>)
    ensures
        r is Ok <==> bytes@.len() == 33 && spec_point_from_slice(bytes@) is Some,
        r matches Ok(point) ==> spec_point_from_slice(bytes@) == Some(point@)
            && spec_decode_point(bytes@) == Some(point),
        r is Err ==> (r matches Err(Status::InvalidArgument(DecodeFailure::Point)))
            && spec_decode_point(bytes@) is None,
{
    if bytes.len() != 33 {
        return Err(Status::InvalidArgument(DecodeFailure::Point));
    }
    match Point::from_slice(bytes) {
        Some(point) => Ok(point),
        None => Err(Status::InvalidArgument(DecodeFailure::Point)),
    }
}

/// Decodes a public nonce from the bytes of a request.
pub fn decode_pub_nonce(bytes: &[u8]) -> (r: Result<PubNonce, Status>)
    ensures
        r is Ok <==> is_pub_nonce_encoding(bytes@),
        r matches Ok(nonce) ==> nonce@ == bytes@ && PubNonce::spec_from_bytes(bytes@) == Some(
            nonce,
        ),
        r is Err ==> (r matches Err(Status::InvalidArgument(DecodeFailure::PubNonce)))
            && PubNonce::spec_from_bytes(bytes@) is None,
{
    match PubNonce::from_bytes(bytes) {
        Some(nonce) => Ok(nonce),
        None => Err(Status::InvalidArgument(DecodeFailure::PubNonce)),
    }
}

/// Decodes a non-zero scalar, a private key, from the bytes of a request.
pub fn decode_scalar(bytes: &[u8]) -> (r: Result<Scalar, Status>)
    ensures
        r is Ok <==> is_scalar_encoding(bytes@),
        r matches Ok(scalar) ==> scalar@ == bytes@ && Scalar::spec_from_slice(bytes@) == Some(
            scalar,
        ),
        r is Err ==> (r matches Err(Status::InvalidArgument(DecodeFailure::Scalar)))
            && Scalar::spec_from_slice(bytes@) is None,
{
    match Scalar::from_slice(bytes) {
        Some(scalar) => Ok(scalar),
        None => Err(Status::InvalidArgument(DecodeFailure::Scalar)),
    }
}

/// Decodes a partial signature, a scalar that may be zero, from the bytes
/// of a request.
pub fn decode_partial_signature(bytes: &[u8]) -> (r: Result<PartialSignature, Status>)
    ensures
        r is Ok <==> is_maybe_scalar_encoding(bytes@),
        r matches Ok(sig) ==> sig@ == bytes@ && PartialSignature::spec_from_slice(bytes@) == Some(
            sig,
        ),
        r is Err ==> (r matches Err(Status::InvalidArgument(DecodeFailure::Scalar)))
            && PartialSignature::spec_from_slice(bytes@) is None,
{
    match PartialSignature::from_slice(bytes) {
        Some(sig) => Ok(sig),
        None => Err(Status::InvalidArgument(DecodeFailure::Scalar)),
    }
}

/// Decodes a partial signature that a request may hold.
pub fn decode_optional_partial_signature(bytes: &Option<Vec<u8>>) -> (r: Result<
    Option<PartialSignature>,
    Status,
>)
    ensures
        bytes is None ==> r matches Ok(None),
        bytes matches Some(b) ==> (r is Ok <==> is_maybe_scalar_encoding(b@)),
        bytes matches Some(b) ==> (r matches Ok(decoded) ==> decoded is Some && decoded->0@ == b@
            && decoded == PartialSignature::spec_from_slice(b@)),
        r is Err ==> (r matches Err(Status::InvalidArgument(DecodeFailure::Scalar)))
            && bytes is Some && PartialSignature::spec_from_slice(bytes->0@) is None,
{
    match bytes {
        Some(b) => {
            let sig = decode_partial_signature(b.as_slice())?;
            Ok(Some(sig))
        },
        None => Ok(None),
    }
}

/// Decodes a private key that a request may hold.
pub fn decode_optional_scalar(bytes: &Option<Vec<u8>>) -> (r: Result<Option<Scalar>, Status>)
    ensures
        bytes is None ==> r matches Ok(None),
        bytes matches Some(b) ==> (r is Ok <==> is_scalar_encoding(b@)),
        bytes matches Some(b) ==> (r matches Ok(decoded) ==> decoded is Some && decoded->0@ == b@
            && decoded == Scalar::spec_from_slice(b@)),
        r is Err ==> (r matches Err(Status::InvalidArgument(DecodeFailure::Scalar)))
            && bytes is Some && Scalar::spec_from_slice(bytes->0@) is None,
{
    match bytes {
        Some(b) => {
            let scalar = decode_scalar(b.as_slice())?;
            Ok(Some(scalar))
        },
        None => Ok(None),
    }
}

/// The answer to a greeting.
pub struct HelloReply {
    pub message: String,
}

/// The service that greets.
#[derive(Debug, Default)]
pub struct MyGreeter {}

impl MyGreeter {
    /// Greets by name.
    pub fn say_hello(&self, name: &str) -> (r: HelloReply)
        ensures
            r.message@ == "Hello, "@ + name@ + "!"@,
    {
        let message = String::from_str("Hello, ").concat(name).concat("!");
        HelloReply { message }
    }
}


/// Asks to start a trade in a role.
pub struct PubKeySharesRequest {
    pub trade_id: String,
    pub my_role: i32,
}

/// The own public key shares of a trade that was started.
pub struct PubKeySharesResponse {
    pub buyer_output_pub_key_share: Vec<u8>,
    pub seller_output_pub_key_share: Vec<u8>,
    pub current_block_height: u32,
}

/// Hands over the peer's public key shares and the amounts of the trade,
/// and asks for the own nonce shares.
pub struct NonceSharesRequest {
    pub trade_id: String,
    pub buyer_output_peers_pub_key_share: Vec<u8>,
    pub seller_output_peers_pub_key_share: Vec<u8>,
    pub deposit_tx_fee_rate: FeeRate,
    pub prepared_tx_fee_rate: FeeRate,
    pub trade_amount: u64,
    pub buyers_security_deposit: u64,
    pub sellers_security_deposit: u64,
}

/// The public nonce shares of one party, with what it adds for the deposit.
pub struct NonceSharesMessage {
    pub warning_tx_fee_bump_address: String,
    pub redirect_tx_fee_bump_address: String,
    pub half_deposit_psbt: Vec<u8>,
    pub swap_tx_input_nonce_share: Vec<u8>,
    pub buyers_warning_tx_buyer_input_nonce_share: Vec<u8>,
    pub buyers_warning_tx_seller_input_nonce_share: Vec<u8>,
    pub sellers_warning_tx_buyer_input_nonce_share: Vec<u8>,
    pub sellers_warning_tx_seller_input_nonce_share: Vec<u8>,
    pub buyers_redirect_tx_input_nonce_share: Vec<u8>,
    pub sellers_redirect_tx_input_nonce_share: Vec<u8>,
}

/// Hands over the peer's nonce shares, and asks for the own partial
/// signatures.
pub struct PartialSignaturesRequest {
    pub trade_id: String,
    pub peers_nonce_shares: Option<NonceSharesMessage>,
}

/// The partial signatures of one party on the other's transactions, and,
/// where it is not held back, on the swap transaction.
pub struct PartialSignaturesMessage {
    pub peers_warning_tx_buyer_input_partial_signature: Vec<u8>,
    pub peers_warning_tx_seller_input_partial_signature: Vec<u8>,
    pub peers_redirect_tx_input_partial_signature: Vec<u8>,
    pub swap_tx_input_partial_signature: Option<Vec<u8>>,
}

/// Hands over the peer's partial signatures, and asks for the deposit.
pub struct DepositTxSignatureRequest {
    pub trade_id: String,
    pub peers_partial_signatures: Option<PartialSignaturesMessage>,
}

/// The deposit transaction, to be signed.
pub struct DepositPsbt {
    pub deposit_psbt: Vec<u8>,
}

/// Asks to publish the deposit transaction of a trade.
pub struct PublishDepositTxRequest {
    pub trade_id: String,
}

/// How far a published transaction is confirmed.
pub struct TxConfirmationStatus {
    pub tx: Vec<u8>,
    pub current_block_height: u32,
    pub num_confirmations: u32,
}

/// Hands over the peer's partial signature on the swap transaction.
pub struct SwapTxSignatureRequest {
    pub trade_id: String,
    pub swap_tx_input_peers_partial_signature: Vec<u8>,
}

/// The signed swap transaction, and the own private key share of the
/// peer's output.
pub struct SwapTxSignatureResponse {
    pub swap_tx: Vec<u8>,
    pub peer_output_prv_key_share: Vec<u8>,
}

/// Asks to close a trade, with the peer's private key share of the own
/// output where the peer has released it.
pub struct CloseTradeRequest {
    pub trade_id: String,
    pub my_output_peers_prv_key_share: Option<Vec<u8>>,
}

/// The own private key share of the peer's output.
pub struct CloseTradeResponse {
    pub peer_output_prv_key_share: Vec<u8>,
}

/// Whether `r` reports, as an internal failure, the error of a step of the
/// protocol that ends as `outcome` tells.
pub open spec fn is_failure_of<T>(r: Result<T, Status>, outcome: StepOutcome) -> bool {
    &&& !(outcome is Done)
    &&& r matches Err(Status::Internal(InternalFailure::Protocol(e)))
    &&& outcome.is_outcome_of(Err::<(), ProtocolErrorKind>(e))
}

/// Whether `r` says that nothing decodes as the thing that `failure` names.
pub open spec fn is_undecodable<T>(r: Result<T, Status>, failure: DecodeFailure) -> bool {
    r matches Err(Status::InvalidArgument(f)) && f == failure
}

/// The encoding of a public nonce, as a request or a response holds it.
fn nonce_bytes(nonce: &PubNonce) -> (r: Vec<u8>)
    ensures
        r@ == nonce@,
{
    slice_to_vec(nonce.serialize().as_slice())
}

/// The encoding of a private key, as a request or a response holds it.
fn scalar_bytes(scalar: &Scalar) -> (r: Vec<u8>)
    ensures
        r@ == scalar@,
{
    slice_to_vec(scalar.serialize().as_slice())
}

/// The encoding of a partial signature, as a request or a response holds
/// it.
fn signature_bytes(sig: &PartialSignature) -> (r: Vec<u8>)
    ensures
        r@ == sig@,
{
    slice_to_vec(sig.serialize().as_slice())
}

/// The bytes of a text: what stands for a transaction that is not built
/// here.
fn text_bytes(text: &str) -> (r: Vec<u8>)
    ensures
        r@ == text.spec_bytes(),
{
    slice_to_vec(text.as_bytes())
}

impl PubKeySharesResponse {
    /// Whether the response holds the own public key shares of `trade`.
    pub open spec fn is_reply_of(&self, trade: &TradeModel) -> bool {
        &&& trade.buyer_output_key_ctx.my_key_share matches Some(buyer_pair)
        &&& trade.seller_output_key_ctx.my_key_share matches Some(seller_pair)
        &&& self.buyer_output_pub_key_share@ == buyer_pair.pub_key@
        &&& self.seller_output_pub_key_share@ == seller_pair.pub_key@
        &&& self.current_block_height == 900_000
    }
}

impl NonceSharesRequest {
    /// The peer's public key shares that the request holds, if both decode.
    pub open spec fn spec_peers_key_shares(&self) -> Option<(Point, Point)> {
        if spec_decode_point(self.buyer_output_peers_pub_key_share@) is Some && spec_decode_point(
            self.seller_output_peers_pub_key_share@,
        ) is Some {
            Some(
                (
                    spec_decode_point(self.buyer_output_peers_pub_key_share@)->0,
                    spec_decode_point(self.seller_output_peers_pub_key_share@)->0,
                ),
            )
        } else {
            None
        }
    }
}

impl NonceSharesMessage {
    /// Whether the message holds the own public nonces of `trade`.
    pub open spec fn is_reply_of(&self, trade: &TradeModel) -> bool {
        &&& self.warning_tx_fee_bump_address@ == "address1"@
        &&& self.redirect_tx_fee_bump_address@ == "address2"@
        &&& self.half_deposit_psbt@.len() == 0
        &&& trade.swap_tx_input_sig_ctx.my_nonce_share matches Some(swap_nonce)
        &&& self.swap_tx_input_nonce_share@ == swap_nonce.pub_nonce@
        &&& trade.buyers_warning_tx_buyer_input_sig_ctx.my_nonce_share matches Some(second_nonce)
        &&& self.buyers_warning_tx_buyer_input_nonce_share@ == second_nonce.pub_nonce@
        &&& trade.buyers_warning_tx_seller_input_sig_ctx.my_nonce_share matches Some(third_nonce)
        &&& self.buyers_warning_tx_seller_input_nonce_share@ == third_nonce.pub_nonce@
        &&& trade.sellers_warning_tx_buyer_input_sig_ctx.my_nonce_share matches Some(fourth_nonce)
        &&& self.sellers_warning_tx_buyer_input_nonce_share@ == fourth_nonce.pub_nonce@
        &&& trade.sellers_warning_tx_seller_input_sig_ctx.my_nonce_share matches Some(fifth_nonce)
        &&& self.sellers_warning_tx_seller_input_nonce_share@ == fifth_nonce.pub_nonce@
        &&& trade.buyers_redirect_tx_input_sig_ctx.my_nonce_share matches Some(sixth_nonce)
        &&& self.buyers_redirect_tx_input_nonce_share@ == sixth_nonce.pub_nonce@
        &&& trade.sellers_redirect_tx_input_sig_ctx.my_nonce_share matches Some(seventh_nonce)
        &&& self.sellers_redirect_tx_input_nonce_share@ == seventh_nonce.pub_nonce@
    }

    /// Whether all seven nonce shares of the message decode.
    pub open spec fn decodes(&self) -> bool {
        &&& PubNonce::spec_from_bytes(self.swap_tx_input_nonce_share@) is Some
        &&& PubNonce::spec_from_bytes(self.buyers_warning_tx_buyer_input_nonce_share@) is Some
        &&& PubNonce::spec_from_bytes(self.buyers_warning_tx_seller_input_nonce_share@) is Some
        &&& PubNonce::spec_from_bytes(self.sellers_warning_tx_buyer_input_nonce_share@) is Some
        &&& PubNonce::spec_from_bytes(self.sellers_warning_tx_seller_input_nonce_share@) is Some
        &&& PubNonce::spec_from_bytes(self.buyers_redirect_tx_input_nonce_share@) is Some
        &&& PubNonce::spec_from_bytes(self.sellers_redirect_tx_input_nonce_share@) is Some
    }

    /// `trade` after the nonce shares of the message have been set as the
    /// peer's.
    pub open spec fn set_as_peers(&self, trade: TradeModel) -> TradeModel {
        trade.with_peer_nonce_shares(
            PubNonce::spec_from_bytes(self.swap_tx_input_nonce_share@)->0,
            PubNonce::spec_from_bytes(self.buyers_warning_tx_buyer_input_nonce_share@)->0,
            PubNonce::spec_from_bytes(self.buyers_warning_tx_seller_input_nonce_share@)->0,
            PubNonce::spec_from_bytes(self.sellers_warning_tx_buyer_input_nonce_share@)->0,
            PubNonce::spec_from_bytes(self.sellers_warning_tx_seller_input_nonce_share@)->0,
            PubNonce::spec_from_bytes(self.buyers_redirect_tx_input_nonce_share@)->0,
            PubNonce::spec_from_bytes(self.sellers_redirect_tx_input_nonce_share@)->0,
        )
    }
}

impl PartialSignaturesMessage {
    /// Whether the message holds the own partial signatures of `trade` on
    /// the peer's transactions and on the swap transaction.
    pub open spec fn is_reply_of(&self, trade: &TradeModel) -> bool {
        let (warning_tx_buyer_input, warning_tx_seller_input, redirect_tx_input) =
            if trade.spec_am_buyer() {
            (
                trade.sellers_warning_tx_buyer_input_sig_ctx,
                trade.sellers_warning_tx_seller_input_sig_ctx,
                trade.sellers_redirect_tx_input_sig_ctx,
            )
        } else {
            (
                trade.buyers_warning_tx_buyer_input_sig_ctx,
                trade.buyers_warning_tx_seller_input_sig_ctx,
                trade.buyers_redirect_tx_input_sig_ctx,
            )
        };
        &&& warning_tx_buyer_input.my_partial_sig matches Some(first_sig)
        &&& self.peers_warning_tx_buyer_input_partial_signature@ == first_sig@
        &&& warning_tx_seller_input.my_partial_sig matches Some(second_sig)
        &&& self.peers_warning_tx_seller_input_partial_signature@ == second_sig@
        &&& redirect_tx_input.my_partial_sig matches Some(third_sig)
        &&& self.peers_redirect_tx_input_partial_signature@ == third_sig@
        &&& trade.swap_tx_input_sig_ctx.my_partial_sig matches Some(swap_sig)
        &&& self.swap_tx_input_partial_signature matches Some(swap)
        &&& swap@ == swap_sig@
    }

    /// Whether all partial signatures of the message decode.
    pub open spec fn decodes(&self) -> bool {
        &&& PartialSignature::spec_from_slice(
            self.peers_warning_tx_buyer_input_partial_signature@,
        ) is Some
        &&& PartialSignature::spec_from_slice(
            self.peers_warning_tx_seller_input_partial_signature@,
        ) is Some
        &&& PartialSignature::spec_from_slice(self.peers_redirect_tx_input_partial_signature@)
            is Some
        &&& self.swap_tx_input_partial_signature matches Some(swap)
            ==> PartialSignature::spec_from_slice(swap@) is Some
    }

    /// `trade` after the partial signatures of the message have been set as
    /// the peer's on the own transactions.
    pub open spec fn set_as_peers(&self, trade: TradeModel) -> TradeModel {
        trade.with_peer_partial_signatures_on_my_txs(
            PartialSignature::spec_from_slice(
                self.peers_warning_tx_buyer_input_partial_signature@,
            )->0,
            PartialSignature::spec_from_slice(
                self.peers_warning_tx_seller_input_partial_signature@,
            )->0,
            PartialSignature::spec_from_slice(self.peers_redirect_tx_input_partial_signature@)->0,
            if self.swap_tx_input_partial_signature is Some {
                PartialSignature::spec_from_slice(self.swap_tx_input_partial_signature->0@)
            } else {
                None
            },
        )
    }
}

/// The service that signs the transactions of trades.
#[derive(Debug, Default)]
pub struct MyMuSig {}

impl MyMuSig {
    /// Whether `post` and `response` are what starting a trade in `role`
    /// gives: a new trade with the stand-in key shares, and their public
    /// keys.
    pub open spec fn is_trade_start(
        post: &TradeModel,
        trade_id: String,
        role: Role,
        response: &PubKeySharesResponse,
    ) -> bool {
        &&& response.is_reply_of(post)
        &&& post.is_stand_in_key_init_of(&TradeModel::spec_new(trade_id, role))
    }

    /// Starts a trade: makes a trade of the id and in the role of the
    /// request, with its own key shares, and returns it with their public
    /// keys.
    pub fn start_trade(&self, request: PubKeySharesRequest) -> (r: Result<
        (TradeModel, PubKeySharesResponse),
        Status,
    >)
        ensures
            spec_role(request.my_role) is None ==> r == Err::<
                (TradeModel, PubKeySharesResponse),
                Status,
            >((Status::OutOfRange { value: request.my_role })),
            spec_role(request.my_role) matches Some(role) ==> (r matches Ok(started)
                && started.0.trade_id == request.trade_id && Self::is_trade_start(
                &started.0,
                request.trade_id,
                role,
                &started.1,
            )),
    {
        let role = decode_role(request.my_role)?;
        let mut trade_model = TradeModel::new(request.trade_id, role);
        trade_model.init_my_key_shares();
        let response = match trade_model.get_my_key_shares() {
            Some(my_key_shares) => PubKeySharesResponse {
                buyer_output_pub_key_share: slice_to_vec(
                    my_key_shares[0].pub_key.serialize().as_slice(),
                ),
                seller_output_pub_key_share: slice_to_vec(
                    my_key_shares[1].pub_key.serialize().as_slice(),
                ),
                current_block_height: 900_000,
            },
            None => return Err(Status::Internal(InternalFailure::MissingKeyShares)),
        };
        Ok((trade_model, response))
    }

    /// Starts a trade and puts it into the store, in place of any trade of
    /// the same id.
    pub fn init_trade<S: TradeModelStore>(
        &self,
        store: &mut S,
        request: PubKeySharesRequest,
    ) -> (r: Result<PubKeySharesResponse, Status>)
        ensures
            spec_role(request.my_role) is None ==> r == Err::<PubKeySharesResponse, Status>(
                (Status::OutOfRange { value: request.my_role }),
            ) && final(store).trades() == old(store).trades(),
            spec_role(request.my_role) is Some ==> r is Ok,
            r is Ok ==> final(store).trades().contains_key(request.trade_id@),
            r is Ok ==> final(store).trades() == old(store).trades().insert(
                request.trade_id@,
                final(store).trades()[request.trade_id@],
            ),
            r matches Ok(response) ==> Self::is_trade_start(
                &final(store).trades()[request.trade_id@],
                request.trade_id,
                spec_role(request.my_role)->0,
                &response,
            ),
    {
        let (trade_model, response) = self.start_trade(request)?;
        store.add_trade_model(trade_model);
        Ok(response)
    }

    /// Whether `post` and `r` are what handing the peer's key shares and
    /// the amounts of `request` to the trade `pre` gives. The key shares are
    /// decoded and aggregated with the own, and the nonce pairs made from
    /// the stand-in seed, once; then the amounts are kept and the own public
    /// nonces returned. A request that fails at any of this changes
    /// nothing.
    pub open spec fn is_nonce_shares_result(
        pre: TradeModel,
        post: TradeModel,
        request: &NonceSharesRequest,
        r: Result<NonceSharesMessage, Status>,
    ) -> bool {
        if request.spec_peers_key_shares() is None {
            is_undecodable(r, DecodeFailure::Point) && post == pre
        } else {
            let (buyer_output_pub_key, seller_output_pub_key) = request.spec_peers_key_shares()->0;
            let with_keys = pre.with_peer_key_shares(buyer_output_pub_key, seller_output_pub_key);
            if !(with_keys.key_aggregation_outcome() is Done) {
                is_failure_of(r, with_keys.key_aggregation_outcome()) && post == pre
            } else if pre.spec_holds_a_nonce_pair() {
                is_failure_of(r, StepOutcome::Refused(ProtocolErrorKind::NonceReuse)) && post
                    == pre
            } else {
                &&& r matches Ok(response)
                &&& response.is_reply_of(&post)
                &&& exists|aggregated: TradeModel, nonced: TradeModel|
                    #![trigger nonced.is_nonce_init_of(&aggregated, &NonceSeedBytes::zero())]
                    aggregated.is_key_aggregation_of(&with_keys) && nonced.is_nonce_init_of(
                        &aggregated,
                        &NonceSeedBytes::zero(),
                    ) && post == nonced.with_amounts(
                        request.trade_amount,
                        request.buyers_security_deposit,
                        request.sellers_security_deposit,
                        request.deposit_tx_fee_rate,
                        request.prepared_tx_fee_rate,
                    )
            }
        }
    }

    /// Takes the peer's key shares and the amounts of a trade, aggregates
    /// the keys, makes the own nonce pairs and returns their public nonces.
    /// A request that fails changes nothing.
    pub fn get_nonce_shares_of(
        &self,
        trade_model: &mut TradeModel,
        request: &NonceSharesRequest,
    ) -> (r: Result<NonceSharesMessage, Status>)
        ensures
            Self::is_nonce_shares_result(*old(trade_model), *final(trade_model), request, r),
            r is Err ==> *final(trade_model) == *old(trade_model),
            final(trade_model).trade_id == old(trade_model).trade_id,
    {
        let buyer_output_pub_key = decode_point(
            request.buyer_output_peers_pub_key_share.as_slice(),
        )?;
        let seller_output_pub_key = decode_point(
            request.seller_output_peers_pub_key_share.as_slice(),
        )?;
        let buyer_output_agg_ctx =
            match trade_model.buyer_output_key_ctx.compute_key_aggregation_with(
            buyer_output_pub_key,
        ) {
            Ok(ctx) => ctx,
            Err(e) => return Err(Status::from_protocol_error(e)),
        };
        let seller_output_agg_ctx =
            match trade_model.seller_output_key_ctx.compute_key_aggregation_with(
            seller_output_pub_key,
        ) {
            Ok(ctx) => ctx,
            Err(e) => return Err(Status::from_protocol_error(e)),
        };
        if trade_model.holds_a_nonce_pair() {
            return Err(Status::from_protocol_error(ProtocolErrorKind::NonceReuse));
        }
        trade_model.set_peer_key_shares(buyer_output_pub_key, seller_output_pub_key);
        let ghost with_keys = *trade_model;
        trade_model.buyer_output_key_ctx.set_key_aggregation(buyer_output_agg_ctx);
        trade_model.seller_output_key_ctx.set_key_aggregation(seller_output_agg_ctx);
        let ghost aggregated = *trade_model;
        assert(aggregated.is_key_aggregation_of(&with_keys));
        match trade_model.init_my_nonce_shares() {
            Ok(()) => {},
            Err(e) => return Err(Status::from_protocol_error(e)),
        }
        let ghost nonced = *trade_model;
        trade_model.trade_amount = Some(request.trade_amount);
        trade_model.buyers_security_deposit = Some(request.buyers_security_deposit);
        trade_model.sellers_security_deposit = Some(request.sellers_security_deposit);
        trade_model.deposit_tx_fee_rate = Some(request.deposit_tx_fee_rate);
        trade_model.prepared_tx_fee_rate = Some(request.prepared_tx_fee_rate);
        assert(nonced.is_nonce_init_of(&aggregated, &NonceSeedBytes::zero()));
        let my_nonce_shares = match trade_model.get_my_nonce_shares() {
            Some(my_nonce_shares) => my_nonce_shares,
            None => return Err(Status::Internal(InternalFailure::MissingNonceShares)),
        };
        Ok(
            NonceSharesMessage {
                warning_tx_fee_bump_address: String::from_str("address1"),
                redirect_tx_fee_bump_address: String::from_str("address2"),
                half_deposit_psbt: Vec::new(),
                swap_tx_input_nonce_share: nonce_bytes(my_nonce_shares.swap_tx_input_nonce_share),
                buyers_warning_tx_buyer_input_nonce_share: nonce_bytes(
                    my_nonce_shares.buyers_warning_tx_buyer_input_nonce_share,
                ),
                buyers_warning_tx_seller_input_nonce_share: nonce_bytes(
                    my_nonce_shares.buyers_warning_tx_seller_input_nonce_share,
                ),
                sellers_warning_tx_buyer_input_nonce_share: nonce_bytes(
                    my_nonce_shares.sellers_warning_tx_buyer_input_nonce_share,
                ),
                sellers_warning_tx_seller_input_nonce_share: nonce_bytes(
                    my_nonce_shares.sellers_warning_tx_seller_input_nonce_share,
                ),
                buyers_redirect_tx_input_nonce_share: nonce_bytes(
                    my_nonce_shares.buyers_redirect_tx_input_nonce_share,
                ),
                sellers_redirect_tx_input_nonce_share: nonce_bytes(
                    my_nonce_shares.sellers_redirect_tx_input_nonce_share,
                ),
            },
        )
    }

    /// Whether `post` and `r` are what handing the peer's nonce shares of
    /// `request` to the trade `pre` gives. The nonce shares are decoded, set
    /// and added up, and the seven inputs signed; then the own partial
    /// signatures for the peer are returned. A request that fails at any of
    /// this changes nothing.
    pub open spec fn is_partial_signatures_result(
        pre: TradeModel,
        post: TradeModel,
        request: &PartialSignaturesRequest,
        r: Result<PartialSignaturesMessage, Status>,
    ) -> bool {
        if request.peers_nonce_shares is None {
            (r matches Err(Status::NotFound(NotFound::PeersNonceShares))) && post == pre
        } else if !request.peers_nonce_shares->0.decodes() {
            is_undecodable(r, DecodeFailure::PubNonce) && post == pre
        } else {
            let with_nonces = request.peers_nonce_shares->0.set_as_peers(pre);
            if !(with_nonces.nonce_aggregation_outcome() is Done) {
                is_failure_of(r, with_nonces.nonce_aggregation_outcome()) && post == pre
            } else {
                exists|aggregated: TradeModel| #[trigger]
                    aggregated.is_nonce_aggregation_of(&with_nonces) && (if !(
                    aggregated.signing_outcome() is Done) {
                        is_failure_of(r, aggregated.signing_outcome()) && post == pre
                    } else {
                        &&& post.is_partial_signing_of(&aggregated)
                        &&& r matches Ok(response)
                        &&& response.is_reply_of(&post)
                    })
            }
        }
    }

    /// Takes the peer's nonce shares, adds up the nonces, signs the seven
    /// inputs partially and returns the partial signatures for the peer. A
    /// request that fails changes nothing.
    pub fn get_partial_signatures_of(
        &self,
        trade_model: &mut TradeModel,
        request: &PartialSignaturesRequest,
    ) -> (r: Result<PartialSignaturesMessage, Status>)
        ensures
            Self::is_partial_signatures_result(*old(trade_model), *final(trade_model), request, r),
            r is Err ==> *final(trade_model) == *old(trade_model),
            final(trade_model).trade_id == old(trade_model).trade_id,
    {
        let peer_nonce_shares = match &request.peers_nonce_shares {
            Some(peer_nonce_shares) => peer_nonce_shares,
            None => return Err(Status::NotFound(NotFound::PeersNonceShares)),
        };
        let swap_tx_input_nonce_share = decode_pub_nonce(
            peer_nonce_shares.swap_tx_input_nonce_share.as_slice(),
        )?;
        let buyers_warning_tx_buyer_input_nonce_share = decode_pub_nonce(
            peer_nonce_shares.buyers_warning_tx_buyer_input_nonce_share.as_slice(),
        )?;
        let buyers_warning_tx_seller_input_nonce_share = decode_pub_nonce(
            peer_nonce_shares.buyers_warning_tx_seller_input_nonce_share.as_slice(),
        )?;
        let sellers_warning_tx_buyer_input_nonce_share = decode_pub_nonce(
            peer_nonce_shares.sellers_warning_tx_buyer_input_nonce_share.as_slice(),
        )?;
        let sellers_warning_tx_seller_input_nonce_share = decode_pub_nonce(
            peer_nonce_shares.sellers_warning_tx_seller_input_nonce_share.as_slice(),
        )?;
        let buyers_redirect_tx_input_nonce_share = decode_pub_nonce(
            peer_nonce_shares.buyers_redirect_tx_input_nonce_share.as_slice(),
        )?;
        let sellers_redirect_tx_input_nonce_share = decode_pub_nonce(
            peer_nonce_shares.sellers_redirect_tx_input_nonce_share.as_slice(),
        )?;
        let received_before = trade_model.received();
        trade_model.set_peer_nonce_shares(
            ExchangedNonces::<ByVal> {
                swap_tx_input_nonce_share,
                buyers_warning_tx_buyer_input_nonce_share,
                buyers_warning_tx_seller_input_nonce_share,
                sellers_warning_tx_buyer_input_nonce_share,
                sellers_warning_tx_seller_input_nonce_share,
                buyers_redirect_tx_input_nonce_share,
                sellers_redirect_tx_input_nonce_share,
            },
        );
        match trade_model.aggregate_nonce_shares() {
            Ok(()) => {},
            Err(e) => {
                trade_model.restore_received(&received_before);
                return Err(Status::from_protocol_error(e));
            },
        }
        let ghost aggregated = *trade_model;
        assert(aggregated.is_nonce_aggregation_of(
            &request.peers_nonce_shares->0.set_as_peers(*old(trade_model)),
        ));
        match trade_model.sign_partial() {
            Ok(()) => {},
            Err(e) => {
                trade_model.restore_received(&received_before);
                return Err(Status::from_protocol_error(e));
            },
        }
        let my_partial_signatures = match trade_model.get_my_partial_signatures_on_peer_txs() {
            Some(my_partial_signatures) => my_partial_signatures,
            None => return Err(Status::Internal(InternalFailure::MissingPartialSignatures)),
        };
        let swap_tx_input_partial_signature =
            match my_partial_signatures.swap_tx_input_partial_signature {
            Some(sig) => Some(signature_bytes(sig)),
            None => None,
        };
        Ok(
            PartialSignaturesMessage {
                peers_warning_tx_buyer_input_partial_signature: signature_bytes(
                    my_partial_signatures.peers_warning_tx_buyer_input_partial_signature,
                ),
                peers_warning_tx_seller_input_partial_signature: signature_bytes(
                    my_partial_signatures.peers_warning_tx_seller_input_partial_signature,
                ),
                peers_redirect_tx_input_partial_signature: signature_bytes(
                    my_partial_signatures.peers_redirect_tx_input_partial_signature,
                ),
                swap_tx_input_partial_signature,
            },
        )
    }

    /// Whether `post` and `r` are what handing the peer's partial
    /// signatures of `request` to the trade `pre` gives. The signatures are
    /// decoded and set, those on the own transactions are added up, and the
    /// deposit is returned. A request that fails at any of this changes
    /// nothing.
    pub open spec fn is_deposit_tx_result(
        pre: TradeModel,
        post: TradeModel,
        request: &DepositTxSignatureRequest,
        r: Result<DepositPsbt, Status>,
    ) -> bool {
        if request.peers_partial_signatures is None {
            (r matches Err(Status::NotFound(NotFound::PeersPartialSignatures))) && post == pre
        } else if !request.peers_partial_signatures->0.decodes() {
            is_undecodable(r, DecodeFailure::Scalar) && post == pre
        } else {
            let with_sigs = request.peers_partial_signatures->0.set_as_peers(pre);
            if !(with_sigs.aggregation_outcome() is Done) {
                is_failure_of(r, with_sigs.aggregation_outcome()) && post == pre
            } else {
                &&& post.is_sig_aggregation_of(&with_sigs)
                &&& r matches Ok(deposit)
                &&& deposit.deposit_psbt@ == "deposit_psbt".spec_bytes()
            }
        }
    }

    /// Takes the peer's partial signatures, adds up the signatures on the
    /// own transactions and returns the deposit transaction. A request that
    /// fails changes nothing.
    pub fn sign_deposit_tx_of(
        &self,
        trade_model: &mut TradeModel,
        request: &DepositTxSignatureRequest,
    ) -> (r: Result<DepositPsbt, Status>)
        ensures
            Self::is_deposit_tx_result(*old(trade_model), *final(trade_model), request, r),
            r is Err ==> *final(trade_model) == *old(trade_model),
            final(trade_model).trade_id == old(trade_model).trade_id,
    {
        let peers_partial_signatures = match &request.peers_partial_signatures {
            Some(peers_partial_signatures) => peers_partial_signatures,
            None => return Err(Status::NotFound(NotFound::PeersPartialSignatures)),
        };
        let peers_warning_tx_buyer_input_partial_signature = decode_partial_signature(
            peers_partial_signatures.peers_warning_tx_buyer_input_partial_signature.as_slice(),
        )?;
        let peers_warning_tx_seller_input_partial_signature = decode_partial_signature(
            peers_partial_signatures.peers_warning_tx_seller_input_partial_signature.as_slice(),
        )?;
        let peers_redirect_tx_input_partial_signature = decode_partial_signature(
            peers_partial_signatures.peers_redirect_tx_input_partial_signature.as_slice(),
        )?;
        let swap_tx_input_partial_signature = decode_optional_partial_signature(
            &peers_partial_signatures.swap_tx_input_partial_signature,
        )?;
        let received_before = trade_model.received();
        trade_model.set_peer_partial_signatures_on_my_txs(
            &ExchangedSigs::<ByVal> {
                peers_warning_tx_buyer_input_partial_signature,
                peers_warning_tx_seller_input_partial_signature,
                peers_redirect_tx_input_partial_signature,
                swap_tx_input_partial_signature,
            },
        );
        match trade_model.aggregate_partial_signatures() {
            Ok(()) => {},
            Err(e) => {
                trade_model.restore_received(&received_before);
                return Err(Status::from_protocol_error(e));
            },
        }
        Ok(DepositPsbt { deposit_psbt: text_bytes("deposit_psbt") })
    }

    /// Whether `r` is the own private key share of the peer's output of
    /// `trade`, or says that there is none.
    pub open spec fn is_key_share_release(trade: &TradeModel, r: Result<Seq<u8>, Status>) -> bool {
        if trade.spec_peer_key_ctx().my_key_share is None {
            r matches Err(Status::Internal(InternalFailure::MissingPrivateKeyShare))
        } else {
            r matches Ok(prv_key) && prv_key == trade.spec_peer_key_ctx().my_key_share->0.prv_key@
        }
    }

    /// Whether `post` and `r` are what handing the peer's partial signature
    /// on the swap transaction to the trade `pre` gives. The signature is
    /// decoded and set, the signature on the swap transaction is added up
    /// under the key of the seller's output, and the own private key share
    /// of the peer's output returned. A request that fails at any of this
    /// changes nothing.
    pub open spec fn is_swap_tx_result(
        pre: TradeModel,
        post: TradeModel,
        request: &SwapTxSignatureRequest,
        r: Result<SwapTxSignatureResponse, Status>,
    ) -> bool {
        let decoded = PartialSignature::spec_from_slice(
            request.swap_tx_input_peers_partial_signature@,
        );
        if decoded is None {
            is_undecodable(r, DecodeFailure::Scalar) && post == pre
        } else {
            let with_sig = pre.with_swap_tx_input_sig_ctx(
                pre.swap_tx_input_sig_ctx.with_peers_partial_sig(decoded),
            );
            let outcome = with_sig.swap_tx_input_sig_ctx.aggregation_outcome(
                &with_sig.seller_output_key_ctx,
            );
            if !(outcome is Done) {
                is_failure_of(r, outcome) && post == pre
            } else if pre.spec_my_prv_key_for_peer() is None {
                (r matches Err(Status::Internal(InternalFailure::MissingPrivateKeyShare))) && post
                    == pre
            } else {
                &&& post.is_swap_sig_aggregation_of(&with_sig)
                &&& r matches Ok(response)
                &&& response.swap_tx@ == "signed_swap_tx".spec_bytes()
                &&& response.peer_output_prv_key_share@ == pre.spec_my_prv_key_for_peer()->0@
            }
        }
    }

    /// Takes the peer's partial signature on the swap transaction, adds up
    /// the signature and releases the own private key share of the peer's
    /// output. A request that fails changes nothing.
    pub fn sign_swap_tx_of(
        &self,
        trade_model: &mut TradeModel,
        request: &SwapTxSignatureRequest,
    ) -> (r: Result<SwapTxSignatureResponse, Status>)
        ensures
            Self::is_swap_tx_result(*old(trade_model), *final(trade_model), request, r),
            r is Err ==> *final(trade_model) == *old(trade_model),
            final(trade_model).trade_id == old(trade_model).trade_id,
    {
        let sig = decode_partial_signature(
            request.swap_tx_input_peers_partial_signature.as_slice(),
        )?;
        let received_before = trade_model.received();
        trade_model.set_swap_tx_input_peers_partial_signature(sig);
        match trade_model.aggregate_swap_tx_partial_signatures() {
            Ok(()) => {},
            Err(e) => {
                trade_model.restore_received(&received_before);
                return Err(Status::from_protocol_error(e));
            },
        }
        let peer_output_prv_key_share =
            match trade_model.get_my_private_key_share_for_peer_output() {
            Some(prv_key_share) => Some(scalar_bytes(prv_key_share)),
            None => None,
        };
        match peer_output_prv_key_share {
            Some(peer_output_prv_key_share) => Ok(
                SwapTxSignatureResponse {
                    swap_tx: text_bytes("signed_swap_tx"),
                    peer_output_prv_key_share,
                },
            ),
            None => {
                trade_model.restore_received(&received_before);
                Err(Status::Internal(InternalFailure::MissingPrivateKeyShare))
            },
        }
    }

    /// The trade after the peer's private key share `released` of the own
    /// output has been set and the private key of the own output
    /// aggregated to `key`.
    pub open spec fn closed_with(pre: TradeModel, released: Scalar, key: Scalar) -> TradeModel {
        let with_share = pre.with_my_key_ctx(pre.spec_my_key_ctx().with_peers_prv_key(released));
        with_share.with_my_key_ctx(with_share.spec_my_key_ctx().with_aggregated_prv_key(key))
    }

    /// Whether `post` and `r` are what closing the trade `pre` gives. Where
    /// the request holds the peer's private key share of the own output, it
    /// is decoded and set, if it is the one of the peer's public key share,
    /// and the private key of the own output is aggregated and kept. Then
    /// the own private key share of the peer's output is returned. A
    /// request that fails at any of this changes nothing.
    pub open spec fn is_close_trade_result(
        pre: TradeModel,
        post: TradeModel,
        request: &CloseTradeRequest,
        r: Result<CloseTradeResponse, Status>,
    ) -> bool {
        let release = match r {
            Ok(response) => Ok::<Seq<u8>, Status>(response.peer_output_prv_key_share@),
            Err(e) => Err::<Seq<u8>, Status>(e),
        };
        if request.my_output_peers_prv_key_share is None {
            post == pre && Self::is_key_share_release(&pre, release)
        } else {
            let decoded = Scalar::spec_from_slice(request.my_output_peers_prv_key_share->0@);
            if decoded is None {
                is_undecodable(r, DecodeFailure::Scalar) && post == pre
            } else {
                let released = decoded->0;
                let share_outcome = pre.spec_my_key_ctx().peers_prv_key_outcome(released);
                let with_share = pre.with_my_key_ctx(
                    pre.spec_my_key_ctx().with_peers_prv_key(released),
                );
                let key_outcome = with_share.spec_my_key_ctx().prv_key_aggregation_outcome();
                if !(share_outcome is Done) {
                    is_failure_of(r, share_outcome) && post == pre
                } else if !(key_outcome is Done) {
                    is_failure_of(r, key_outcome) && post == pre
                } else if pre.spec_my_prv_key_for_peer() is None {
                    (r matches Err(Status::Internal(InternalFailure::MissingPrivateKeyShare)))
                        && post == pre
                } else {
                    &&& post.spec_my_key_ctx().aggregated_key is Some
                    &&& post.spec_my_key_ctx().aggregated_key->0.prv_key matches Some(key)
                    &&& Some(key@) == with_share.spec_my_key_ctx().spec_aggregated_prv_key()
                    &&& post == Self::closed_with(pre, released, key)
                    &&& Self::is_key_share_release(&post, release)
                }
            }
        }
    }

    /// Closes a trade: takes the peer's private key share of the own
    /// output, where the request holds it, and aggregates the private key
    /// of the own output; then releases the own private key share of the
    /// peer's output. A request that fails changes nothing.
    pub fn close_trade_of(
        &self,
        trade_model: &mut TradeModel,
        request: &CloseTradeRequest,
    ) -> (r: Result<CloseTradeResponse, Status>)
        ensures
            Self::is_close_trade_result(*old(trade_model), *final(trade_model), request, r),
            r is Err ==> *final(trade_model) == *old(trade_model),
            final(trade_model).trade_id == old(trade_model).trade_id,
    {
        let released = decode_optional_scalar(&request.my_output_peers_prv_key_share)?;
        let keys_before = trade_model.received_prv_keys_of_my_output();
        match released {
            Some(peer_prv_key_share) => {
                match trade_model.set_peer_private_key_share_for_my_output(peer_prv_key_share) {
                    Ok(()) => {},
                    Err(e) => return Err(Status::from_protocol_error(e)),
                }
                match trade_model.aggregate_private_keys_for_my_output() {
                    Ok(_) => {},
                    Err(e) => {
                        trade_model.restore_received_prv_keys_of_my_output(keys_before);
                        return Err(Status::from_protocol_error(e));
                    },
                }
            },
            None => {},
        }
        let peer_output_prv_key_share =
            match trade_model.get_my_private_key_share_for_peer_output() {
            Some(prv_key_share) => Some(scalar_bytes(prv_key_share)),
            None => None,
        };
        match peer_output_prv_key_share {
            Some(peer_output_prv_key_share) => Ok(CloseTradeResponse { peer_output_prv_key_share }),
            None => {
                trade_model.restore_received_prv_keys_of_my_output(keys_before);
                Err(Status::Internal(InternalFailure::MissingPrivateKeyShare))
            },
        }
    }

    /// Handles a request for nonce shares for the trade of its id in the
    /// store.
    pub fn get_nonce_shares<S: TradeModelStore>(
        &self,
        store: &mut S,
        request: &NonceSharesRequest,
    ) -> (r: Result<NonceSharesMessage, Status>)
        ensures
            !old(store).trades().contains_key(request.trade_id@) ==> is_missing_trade(
                r,
                request.trade_id,
            ) && final(store).trades() == old(store).trades(),
            r is Err ==> final(store).trades() == old(store).trades(),
            old(store).trades().contains_key(request.trade_id@) ==> is_step_of_trade(
                old(store).trades(),
                final(store).trades(),
                request.trade_id@,
            ) && Self::is_nonce_shares_result(
                old(store).trades()[request.trade_id@],
                final(store).trades()[request.trade_id@],
                request,
                r,
            ),
    {
        let mut trade_model = match store.take_trade_model(request.trade_id.as_str()) {
            Some(trade_model) => trade_model,
            None => {
                assert(old(store).trades().remove(request.trade_id@) =~= old(store).trades());
                return Err(missing_trade(&request.trade_id));
            },
        };
        let r = self.get_nonce_shares_of(&mut trade_model, request);
        let ghost post = trade_model;
        store.add_trade_model(trade_model);
        assert(final(store).trades() =~= old(store).trades().insert(request.trade_id@, post));
        assert(r is Err ==> final(store).trades() =~= old(store).trades());
        r
    }

    /// Handles a request for partial signatures for the trade of its id in
    /// the store.
    pub fn get_partial_signatures<S: TradeModelStore>(
        &self,
        store: &mut S,
        request: &PartialSignaturesRequest,
    ) -> (r: Result<PartialSignaturesMessage, Status>)
        ensures
            !old(store).trades().contains_key(request.trade_id@) ==> is_missing_trade(
                r,
                request.trade_id,
            ) && final(store).trades() == old(store).trades(),
            r is Err ==> final(store).trades() == old(store).trades(),
            old(store).trades().contains_key(request.trade_id@) ==> is_step_of_trade(
                old(store).trades(),
                final(store).trades(),
                request.trade_id@,
            ) && Self::is_partial_signatures_result(
                old(store).trades()[request.trade_id@],
                final(store).trades()[request.trade_id@],
                request,
                r,
            ),
    {
        let mut trade_model = match store.take_trade_model(request.trade_id.as_str()) {
            Some(trade_model) => trade_model,
            None => {
                assert(old(store).trades().remove(request.trade_id@) =~= old(store).trades());
                return Err(missing_trade(&request.trade_id));
            },
        };
        let r = self.get_partial_signatures_of(&mut trade_model, request);
        let ghost post = trade_model;
        store.add_trade_model(trade_model);
        assert(final(store).trades() =~= old(store).trades().insert(request.trade_id@, post));
        assert(r is Err ==> final(store).trades() =~= old(store).trades());
        r
    }

    /// Handles a request for the deposit transaction for the trade of its id
    /// in the store.
    pub fn sign_deposit_tx<S: TradeModelStore>(
        &self,
        store: &mut S,
        request: &DepositTxSignatureRequest,
    ) -> (r: Result<DepositPsbt, Status>)
        ensures
            !old(store).trades().contains_key(request.trade_id@) ==> is_missing_trade(
                r,
                request.trade_id,
            ) && final(store).trades() == old(store).trades(),
            r is Err ==> final(store).trades() == old(store).trades(),
            old(store).trades().contains_key(request.trade_id@) ==> is_step_of_trade(
                old(store).trades(),
                final(store).trades(),
                request.trade_id@,
            ) && Self::is_deposit_tx_result(
                old(store).trades()[request.trade_id@],
                final(store).trades()[request.trade_id@],
                request,
                r,
            ),
    {
        let mut trade_model = match store.take_trade_model(request.trade_id.as_str()) {
            Some(trade_model) => trade_model,
            None => {
                assert(old(store).trades().remove(request.trade_id@) =~= old(store).trades());
                return Err(missing_trade(&request.trade_id));
            },
        };
        let r = self.sign_deposit_tx_of(&mut trade_model, request);
        let ghost post = trade_model;
        store.add_trade_model(trade_model);
        assert(final(store).trades() =~= old(store).trades().insert(request.trade_id@, post));
        assert(r is Err ==> final(store).trades() =~= old(store).trades());
        r
    }

    /// Handles a request to sign the swap transaction for the trade of its id
    /// in the store.
    pub fn sign_swap_tx<S: TradeModelStore>(
        &self,
        store: &mut S,
        request: &SwapTxSignatureRequest,
    ) -> (r: Result<SwapTxSignatureResponse, Status>)
        ensures
            !old(store).trades().contains_key(request.trade_id@) ==> is_missing_trade(
                r,
                request.trade_id,
            ) && final(store).trades() == old(store).trades(),
            r is Err ==> final(store).trades() == old(store).trades(),
            old(store).trades().contains_key(request.trade_id@) ==> is_step_of_trade(
                old(store).trades(),
                final(store).trades(),
                request.trade_id@,
            ) && Self::is_swap_tx_result(
                old(store).trades()[request.trade_id@],
                final(store).trades()[request.trade_id@],
                request,
                r,
            ),
    {
        let mut trade_model = match store.take_trade_model(request.trade_id.as_str()) {
            Some(trade_model) => trade_model,
            None => {
                assert(old(store).trades().remove(request.trade_id@) =~= old(store).trades());
                return Err(missing_trade(&request.trade_id));
            },
        };
        let r = self.sign_swap_tx_of(&mut trade_model, request);
        let ghost post = trade_model;
        store.add_trade_model(trade_model);
        assert(final(store).trades() =~= old(store).trades().insert(request.trade_id@, post));
        assert(r is Err ==> final(store).trades() =~= old(store).trades());
        r
    }

    /// Handles a request to close the trade of its id in the store.
    pub fn close_trade<S: TradeModelStore>(
        &self,
        store: &mut S,
        request: &CloseTradeRequest,
    ) -> (r: Result<CloseTradeResponse, Status>)
        ensures
            !old(store).trades().contains_key(request.trade_id@) ==> is_missing_trade(
                r,
                request.trade_id,
            ) && final(store).trades() == old(store).trades(),
            r is Err ==> final(store).trades() == old(store).trades(),
            old(store).trades().contains_key(request.trade_id@) ==> is_step_of_trade(
                old(store).trades(),
                final(store).trades(),
                request.trade_id@,
            ) && Self::is_close_trade_result(
                old(store).trades()[request.trade_id@],
                final(store).trades()[request.trade_id@],
                request,
                r,
            ),
    {
        let mut trade_model = match store.take_trade_model(request.trade_id.as_str()) {
            Some(trade_model) => trade_model,
            None => {
                assert(old(store).trades().remove(request.trade_id@) =~= old(store).trades());
                return Err(missing_trade(&request.trade_id));
            },
        };
        let r = self.close_trade_of(&mut trade_model, request);
        let ghost post = trade_model;
        store.add_trade_model(trade_model);
        assert(final(store).trades() =~= old(store).trades().insert(request.trade_id@, post));
        assert(r is Err ==> final(store).trades() =~= old(store).trades());
        r
    }

    /// Whether `r` is what publishing the deposit of `trade` gives: its
    /// first confirmation, if the trade has added up every signature that
    /// the deposit waits for.
    pub open spec fn is_publication_result(
        trade: &TradeModel,
        r: Result<TxConfirmationStatus, Status>,
    ) -> bool {
        if trade.spec_is_deposit_signed() {
            &&& r matches Ok(status)
            &&& status.tx@ == "signed_deposit_tx".spec_bytes()
            &&& status.current_block_height == 900_001
            &&& status.num_confirmations == 1
        } else {
            r matches Err(Status::Internal(InternalFailure::DepositNotSigned))
        }
    }

    /// Confirms that the trade has added up every signature that the
    /// deposit waits for, and reports the first confirmation of the deposit
    /// transaction. The transaction is published elsewhere; the trade
    /// stays as it is.
    pub fn publish_deposit_tx_of(&self, trade_model: &TradeModel) -> (r: Result<
        TxConfirmationStatus,
        Status,
    >)
        ensures
            Self::is_publication_result(trade_model, r),
    {
        if !trade_model.is_deposit_signed() {
            return Err(Status::Internal(InternalFailure::DepositNotSigned));
        }
        Ok(
            TxConfirmationStatus {
                tx: text_bytes("signed_deposit_tx"),
                current_block_height: 900_001,
                num_confirmations: 1,
            },
        )
    }

    /// Handles a request to publish the deposit transaction of the trade of
    /// its id in the store.
    pub fn publish_deposit_tx<S: TradeModelStore>(
        &self,
        store: &S,
        request: &PublishDepositTxRequest,
    ) -> (r: Result<TxConfirmationStatus, Status>)
        ensures
            !store.trades().contains_key(request.trade_id@) ==> is_missing_trade(
                r,
                request.trade_id,
            ),
            store.trades().contains_key(request.trade_id@) ==> Self::is_publication_result(
                &store.trades()[request.trade_id@],
                r,
            ),
    {
        match store.get_trade_model(request.trade_id.as_str()) {
            Some(trade_model) => self.publish_deposit_tx_of(trade_model),
            None => Err(missing_trade(&request.trade_id)),
        }
    }
}

/// The status that says that no trade has the id `trade_id`.
fn missing_trade(trade_id: &String) -> (r: Status)
    ensures
        is_missing_trade(Err::<(), Status>(r), *trade_id),
{
    Status::NotFound(NotFound::Trade { trade_id: trade_id.clone() })
}

/// Whether `r` says that no trade has the id `trade_id`.
pub open spec fn is_missing_trade<T>(r: Result<T, Status>, trade_id: String) -> bool {
    r matches Err(Status::NotFound(NotFound::Trade { trade_id: missing })) && missing == trade_id
}

/// Whether the trades `post` are the trades `pre` but for the trade of the
/// id `trade_id`, which both hold.
pub open spec fn is_step_of_trade(
    pre: Map<Seq<char>, TradeModel>,
    post: Map<Seq<char>, TradeModel>,
    trade_id: Seq<char>,
) -> bool {
    &&& pre.contains_key(trade_id)
    &&& post.contains_key(trade_id)
    &&& post == pre.insert(trade_id, post[trade_id])
}

} // verus!
