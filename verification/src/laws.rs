use crate::curve::{spec_adaptor_signature_verifies, spec_base_point_mul};
use crate::curve::{MaybePoint, PartialSignature, Point, PubNonce, Scalar};
use crate::error::{ProtocolErrorKind, StepOutcome};
use crate::keys::KeyCtx;
use crate::signing::{SigCtx, Stage};
use crate::trade::{NonceSeedBytes, TradeModel};
use vstd::prelude::*;

verus! {

/// Every step of a signing context leaves a well-formed context well
/// formed, and leaves what the context holds of its own making: the context
/// after the step follows the context before it.
pub proof fn law_steps_follow(
    pre: SigCtx,
    post: SigCtx,
    key_ctx: KeyCtx,
    seed: Seq<u8>,
    message: Seq<u8>,
    nonce: PubNonce,
    sig: Option<PartialSignature>,
    adaptor_point: MaybePoint,
)
    requires
        pre.well_formed(),
        ({
            ||| post == pre
            ||| post == pre.with_adaptor_point(adaptor_point)
            ||| post.is_nonce_init_of(&pre, &key_ctx, seed)
            ||| post == pre.with_peers_nonce_share(nonce)
            ||| post.is_nonce_aggregation_of(&pre)
            ||| post.is_partial_signing_of(&pre, &key_ctx, message)
            ||| post == pre.with_peers_partial_sig(sig)
            ||| post.is_sig_aggregation_of(&pre, &key_ctx)
        }),
    ensures
        post.well_formed(),
        post.follows(&pre),
        SigCtx::spec_new(pre.am_buyer).well_formed(),
{
}

/// What follows a context, and what follows that, follows the context; and
/// a context follows itself.
pub proof fn law_follows_is_a_preorder(first: SigCtx, second: SigCtx, third: SigCtx)
    ensures
        first.follows(&first),
        second.follows(&first) && third.follows(&second) ==> third.follows(&first),
{
}

/// Whether each context of a run follows the one before it.
pub open spec fn is_run(run: Seq<SigCtx>) -> bool {
    forall|i: int| 0 <= i < run.len() - 1 ==> (#[trigger] run[i + 1]).follows(&run[i])
}

/// In a run, each context follows every earlier one.
pub proof fn law_runs_follow(run: Seq<SigCtx>, from: int, to: int)
    requires
        is_run(run),
        0 <= from <= to < run.len(),
    ensures
        run[to].follows(&run[from]),
    decreases to - from,
{
    if from < to {
        law_runs_follow(run, from, to - 1);
        assert(run[to - 1 + 1].follows(&run[to - 1]));
        law_follows_is_a_preorder(run[from], run[to - 1], run[to]);
    } else {
        law_follows_is_a_preorder(run[from], run[from], run[from]);
    }
}

/// A signing context signs at most once. After it has signed, whatever
/// steps follow, it keeps its partial signature and the message, and
/// refuses every further signature, whatever the keys and the message;
/// with keys that are complete, the error is `NonceReuse`. It also refuses
/// to make a nonce pair again.
pub proof fn law_sign_partial_at_most_once(
    pre: SigCtx,
    signed: SigCtx,
    later: SigCtx,
    key_ctx: KeyCtx,
    message: Seq<u8>,
    next_key_ctx: KeyCtx,
    next_message: Seq<u8>,
)
    requires
        signed.is_partial_signing_of(&pre, &key_ctx, message),
        later.follows(&signed),
    ensures
        later.nonce_is_spent(),
        later.my_partial_sig == signed.my_partial_sig,
        later.message == signed.message,
        later.signing_outcome(&next_key_ctx, next_message) is Refused,
        later.nonce_init_outcome(&next_key_ctx) is Refused,
        next_key_ctx.key_agg_ctx is Some && next_key_ctx.my_key_share is Some
            ==> later.signing_outcome(&next_key_ctx, next_message) == StepOutcome::Refused(
            ProtocolErrorKind::NonceReuse,
        ),
        signed.signing_outcome(&key_ctx, next_message) == StepOutcome::Refused(
            ProtocolErrorKind::NonceReuse,
        ),
{
}

/// Over any run of a signing context, at most one signing succeeds: where
/// one step of the run is a signing, no later step is one.
pub proof fn law_runs_sign_at_most_once(
    run: Seq<SigCtx>,
    first: int,
    second: int,
    first_key_ctx: KeyCtx,
    first_message: Seq<u8>,
    second_key_ctx: KeyCtx,
    second_message: Seq<u8>,
)
    requires
        is_run(run),
        0 <= first < second < run.len() - 1,
        run[first + 1].is_partial_signing_of(&run[first], &first_key_ctx, first_message),
    ensures
        !run[second + 1].is_partial_signing_of(&run[second], &second_key_ctx, second_message),
{
    law_runs_follow(run, first + 1, second);
    law_sign_partial_at_most_once(
        run[first],
        run[first + 1],
        run[second],
        first_key_ctx,
        first_message,
        second_key_ctx,
        second_message,
    );
}

/// A trade signs its seven inputs at most once: after it has signed them,
/// whatever steps follow, it refuses to sign again and to make its nonce
/// pairs again; right after the signing, with `NonceReuse`.
pub proof fn law_trade_signs_at_most_once(pre: TradeModel, signed: TradeModel, later: TradeModel)
    requires
        signed.is_partial_signing_of(&pre),
        later.follows(&signed),
    ensures
        later.signing_outcome() is Refused,
        later.nonce_init_outcome() is Refused,
        signed.signing_outcome() == StepOutcome::Refused(ProtocolErrorKind::NonceReuse),
{
}

/// A step that is refused because something is missing, or because a
/// secret nonce would be used twice, is refused with an error of that kind.
pub proof fn law_refusals_are_out_of_order_errors(
    sig_ctx: SigCtx,
    key_ctx: KeyCtx,
    message: Seq<u8>,
    trade: TradeModel,
)
    ensures
        sig_ctx.signing_outcome(&key_ctx, message) matches StepOutcome::Refused(e)
            ==> e.is_out_of_order(),
        sig_ctx.aggregation_outcome(&key_ctx) matches StepOutcome::Refused(e)
            ==> e.is_out_of_order(),
        sig_ctx.nonce_aggregation_outcome() matches StepOutcome::Refused(e)
            ==> e.is_out_of_order(),
        sig_ctx.nonce_init_outcome(&key_ctx) matches StepOutcome::Refused(e)
            ==> e.is_out_of_order(),
        trade.nonce_init_outcome() matches StepOutcome::Refused(e) ==> e.is_out_of_order(),
        key_ctx.key_aggregation_outcome() matches StepOutcome::Refused(e) ==> e.is_out_of_order(),
        key_ctx.prv_key_aggregation_outcome() matches StepOutcome::Refused(e)
            ==> e.is_out_of_order(),
        trade.key_aggregation_outcome() matches StepOutcome::Refused(e) ==> e.is_out_of_order(),
        trade.nonce_aggregation_outcome() matches StepOutcome::Refused(e) ==> e.is_out_of_order(),
        trade.signing_outcome() matches StepOutcome::Refused(e) ==> e.is_out_of_order(),
        trade.aggregation_outcome() matches StepOutcome::Refused(e) ==> e.is_out_of_order(),
{
}

/// The two parties aggregate the same key: where the buyer's key context
/// and the seller's hold each other's public key shares, the keys that they
/// aggregate are the same, byte for byte, and one aggregation succeeds
/// exactly if the other does.
pub proof fn law_key_aggregation_is_symmetric(
    buyer_pre: KeyCtx,
    buyer_post: KeyCtx,
    seller_pre: KeyCtx,
    seller_post: KeyCtx,
)
    requires
        buyer_pre.am_buyer,
        !seller_pre.am_buyer,
        buyer_pre.my_key_share is Some,
        seller_pre.my_key_share is Some,
        buyer_pre.peers_key_share matches Some(share) && share.pub_key
            == seller_pre.my_key_share->0.pub_key,
        seller_pre.peers_key_share matches Some(share) && share.pub_key
            == buyer_pre.my_key_share->0.pub_key,
    ensures
        buyer_pre.spec_key_shares() == seller_pre.spec_key_shares(),
        buyer_pre.spec_key_aggregation() == seller_pre.spec_key_aggregation(),
        buyer_post.is_key_aggregation_of(&buyer_pre) && seller_post.is_key_aggregation_of(
            &seller_pre,
        ) ==> buyer_post.aggregated_key->0.pub_key@ == seller_post.aggregated_key->0.pub_key@
            && buyer_post.key_agg_ctx->0.spec_first() == seller_post.key_agg_ctx->0.spec_first()
            && buyer_post.key_agg_ctx->0.spec_second() == seller_post.key_agg_ctx->0.spec_second(),
{
}

/// The two parties aggregate the same nonce: where the buyer's signing
/// context and the seller's hold each other's public nonces, the nonces
/// that they aggregate are the same, byte for byte.
pub proof fn law_nonce_aggregation_is_symmetric(
    buyer_pre: SigCtx,
    buyer_post: SigCtx,
    seller_pre: SigCtx,
    seller_post: SigCtx,
)
    requires
        buyer_pre.am_buyer,
        !seller_pre.am_buyer,
        buyer_pre.my_nonce_share is Some,
        seller_pre.my_nonce_share is Some,
        buyer_pre.peers_nonce_share == Some(seller_pre.my_nonce_share->0.pub_nonce),
        seller_pre.peers_nonce_share == Some(buyer_pre.my_nonce_share->0.pub_nonce),
        buyer_post.is_nonce_aggregation_of(&buyer_pre),
        seller_post.is_nonce_aggregation_of(&seller_pre),
    ensures
        buyer_post.aggregated_nonce->0@ == seller_post.aggregated_nonce->0@,
{
}

/// A private key share of the peer is kept exactly if it is the private key
/// of the public key share that the peer gave before: a scalar whose base
/// point multiple is another point is refused as mismatched, whatever else
/// the trade holds; and after a private key share has been kept, the base
/// point times it is the peer's public key share.
pub proof fn law_peer_private_key_share_is_consistent(pre: TradeModel, prv_key_share: Scalar)
    requires
        pre.spec_my_key_ctx().peers_key_share is Some,
    ensures
        ({
            let pub_key = pre.spec_my_key_ctx().peers_key_share->0.pub_key;
            let outcome = pre.spec_my_key_ctx().peers_prv_key_outcome(prv_key_share);
            let post = pre.with_my_key_ctx(
                pre.spec_my_key_ctx().with_peers_prv_key(prv_key_share),
            );
            &&& spec_base_point_mul(prv_key_share@) != pub_key@ <==> outcome is Mismatched
            &&& spec_base_point_mul(prv_key_share@) == pub_key@ <==> outcome is Done
            &&& outcome is Done ==> post.spec_my_key_ctx().peers_key_share == Some(
                (crate::keys::KeyPair::<crate::storage::ByOptVal> {
                    pub_key,
                    prv_key: Some(prv_key_share),
                }),
            )
        }),
{
}

/// Both parties sign the swap transaction under the same adaptor point, the
/// public key of the seller's key share of the buyer's output: the seller
/// sets it when it makes its key shares, the buyer when it receives them,
/// and receiving the buyer's key shares does not change it at the seller.
pub proof fn law_adaptor_point_agrees(
    seller_new: TradeModel,
    seller_with_keys: TradeModel,
    buyer_before: TradeModel,
    buyer_prv_key: Scalar,
    seller_prv_key: Scalar,
    buyers_buyer_output_pub_key: Point,
    buyers_seller_output_pub_key: Point,
)
    requires
        !seller_new.spec_am_buyer(),
        buyer_before.spec_am_buyer(),
        seller_with_keys.is_key_init_of(&seller_new, buyer_prv_key, seller_prv_key),
    ensures
        ({
            let sellers_share = seller_with_keys.buyer_output_key_ctx.my_key_share->0.pub_key;
            let seller_after = seller_with_keys.with_peer_key_shares(
                buyers_buyer_output_pub_key,
                buyers_seller_output_pub_key,
            );
            let buyer_after = buyer_before.with_peer_key_shares(
                sellers_share,
                seller_with_keys.seller_output_key_ctx.my_key_share->0.pub_key,
            );
            &&& sellers_share@ == spec_base_point_mul(buyer_prv_key@)
            &&& seller_after.swap_tx_input_sig_ctx.adaptor_point == MaybePoint::Valid(sellers_share)
            &&& buyer_after.swap_tx_input_sig_ctx.adaptor_point == MaybePoint::Valid(sellers_share)
        }),
{
}

/// An aggregated signature that was made under the point at infinity is an
/// ordinary Schnorr signature: it verifies under the aggregated key of the
/// keys it was added up with, on the message that the context signed.
pub proof fn law_aggregated_signature_verifies(pre: SigCtx, post: SigCtx, key_ctx: KeyCtx)
    requires
        post.is_sig_aggregation_of(&pre, &key_ctx),
    ensures
        spec_adaptor_signature_verifies(
            key_ctx.key_agg_ctx->0.spec_aggregated_pubkey()@,
            post.aggregated_sig->0@,
            post.message->0@,
            post.adaptor_point@,
        ),
        pre.adaptor_point is Infinity ==> spec_adaptor_signature_verifies(
            key_ctx.key_agg_ctx->0.spec_aggregated_pubkey()@,
            post.aggregated_sig->0@,
            post.message->0@,
            None,
        ),
{
}

/// The adaptor signature on the swap transaction verifies under the
/// aggregated key of the seller's output, for which its partial signatures
/// were made, the swap message and the adaptor point of the swap
/// transaction: that which the buyer adds up with the signatures on its own
/// transactions, and that which either party adds up alone.
pub proof fn law_swap_adaptor_signature_verifies(pre: TradeModel, post: TradeModel)
    requires
        (pre.spec_am_buyer() && post.is_sig_aggregation_of(&pre))
            || post.is_swap_sig_aggregation_of(&pre),
    ensures
        spec_adaptor_signature_verifies(
            pre.seller_output_key_ctx.key_agg_ctx->0.spec_aggregated_pubkey()@,
            post.swap_tx_input_sig_ctx.aggregated_sig->0@,
            post.swap_tx_input_sig_ctx.message->0@,
            post.swap_tx_input_sig_ctx.adaptor_point@,
        ),
{
}

/// Every step keeps a trade well formed: its contexts stay on the side of
/// its role, the own key shares stay key pairs, no input but that of the
/// swap transaction gets an adaptor point, and the adaptor point of the
/// swap transaction stays the public key of the seller's key share of the
/// buyer's output. And the trade after the step follows the trade before
/// it.
pub proof fn law_steps_keep_trades_well_formed(
    pre: TradeModel,
    post: TradeModel,
    prv_keys: (Scalar, Scalar),
    pub_keys: (Point, Point),
    seeds: NonceSeedBytes,
    nonces: (PubNonce, PubNonce, PubNonce, PubNonce, PubNonce, PubNonce, PubNonce),
    sigs: (PartialSignature, PartialSignature, PartialSignature, Option<PartialSignature>),
    prv_key_share: Scalar,
)
    requires
        pre.well_formed(),
        ({
            ||| post.is_key_init_of(&pre, prv_keys.0, prv_keys.1)
            ||| post == pre.with_peer_key_shares(pub_keys.0, pub_keys.1)
            ||| post.is_key_aggregation_of(&pre)
            ||| post.is_nonce_init_of(&pre, &seeds)
            ||| post == pre.with_peer_nonce_shares(
                nonces.0,
                nonces.1,
                nonces.2,
                nonces.3,
                nonces.4,
                nonces.5,
                nonces.6,
            )
            ||| post.is_nonce_aggregation_of(&pre)
            ||| post.is_partial_signing_of(&pre)
            ||| post == pre.with_peer_partial_signatures_on_my_txs(sigs.0, sigs.1, sigs.2, sigs.3)
            ||| post.is_sig_aggregation_of(&pre)
            ||| post == pre.with_swap_tx_input_sig_ctx(
                pre.swap_tx_input_sig_ctx.with_peers_partial_sig(sigs.3),
            )
            ||| post.is_swap_sig_aggregation_of(&pre)
            ||| (pre.spec_my_key_ctx().peers_key_share is Some && post == pre.with_my_key_ctx(
                pre.spec_my_key_ctx().with_peers_prv_key(prv_key_share),
            ))
            ||| (pre.spec_my_key_ctx().aggregated_key is Some && post == pre.with_my_key_ctx(
                pre.spec_my_key_ctx().with_aggregated_prv_key(prv_key_share),
            ))
        }),
    ensures
        post.well_formed(),
        post.follows(&pre),
        post.trade_id == pre.trade_id,
        post.my_role == pre.my_role,
{
}

/// What follows a trade, and what follows that, follows the trade; and a
/// trade follows itself.
pub proof fn law_trades_follow_in_a_preorder(
    first: TradeModel,
    second: TradeModel,
    third: TradeModel,
)
    ensures
        first.follows(&first),
        second.follows(&first) && third.follows(&second) ==> third.follows(&first),
{
}

/// In a well-formed trade, the private key that the seller releases for the
/// buyer's output is the secret of the adaptor point of the swap
/// transaction, which is never the point at infinity once the key shares
/// are made.
pub proof fn law_sellers_release_is_the_adaptor_secret(seller: TradeModel)
    requires
        seller.well_formed(),
        !seller.spec_am_buyer(),
        seller.spec_my_prv_key_for_peer() is Some,
    ensures
        seller.swap_tx_input_sig_ctx.adaptor_point@ == Some(
            spec_base_point_mul(seller.spec_my_prv_key_for_peer()->0@),
        ),
{
}


/// What the buyer recovers from the published signature of the swap
/// transaction is the private key of the seller's key share of the buyer's
/// output, which closes the trade for the buyer: where the adaptor point is
/// the public key of that share, what [`SigCtx::reveal_adaptor_secret`]
/// returns is accepted as the peer's private key share.
pub proof fn law_revealed_secret_is_the_sellers_key_share(
    buyer: TradeModel,
    final_signature: Seq<u8>,
    secret: Scalar,
)
    requires
        buyer.spec_am_buyer(),
        buyer.buyer_output_key_ctx.peers_key_share matches Some(share)
            && buyer.swap_tx_input_sig_ctx.adaptor_point == MaybePoint::Valid(share.pub_key),
        buyer.swap_tx_input_sig_ctx.spec_adaptor_secret(final_signature) == Some(secret@),
    ensures
        spec_base_point_mul(secret@) == buyer.buyer_output_key_ctx.peers_key_share->0.pub_key@,
        buyer.spec_my_key_ctx().peers_prv_key_outcome(secret) is Done,
{
}


/// A signing session goes through its stages in their order and never
/// back: whatever steps are taken, the session is at the stage it was at or
/// further on. Each step leaves it at the stage that the step is named
/// after, or further on; and a session that a step takes from the stage
/// before arrives at the stage of the step.
pub proof fn law_stages_are_monotonic(
    pre: SigCtx,
    post: SigCtx,
    key_ctx: KeyCtx,
    seed: Seq<u8>,
    message: Seq<u8>,
    nonce: PubNonce,
    sig: Option<PartialSignature>,
    adaptor_point: MaybePoint,
)
    ensures
        post.follows(&pre) ==> post.spec_stage().rank() >= pre.spec_stage().rank(),
        post.is_nonce_init_of(&pre, &key_ctx, seed) ==> post.spec_stage().rank()
            >= Stage::Nonced.rank() && (pre.spec_stage() is Empty ==> post.spec_stage() is Nonced),
        post.is_nonce_aggregation_of(&pre) ==> post.spec_stage().rank()
            >= Stage::AggNonced.rank() && (pre.spec_stage() is Nonced
            ==> post.spec_stage() is AggNonced),
        post.is_partial_signing_of(&pre, &key_ctx, message) ==> post.spec_stage().rank()
            >= Stage::PartiallySigned.rank() && (pre.spec_stage() is AggNonced
            ==> post.spec_stage() is PartiallySigned),
        post.is_sig_aggregation_of(&pre, &key_ctx) ==> post.spec_stage() is Aggregated,
        post == pre.with_peers_nonce_share(nonce) || post == pre.with_peers_partial_sig(sig)
            || post == pre.with_adaptor_point(adaptor_point) ==> post.spec_stage()
            == pre.spec_stage(),
        SigCtx::spec_new(pre.am_buyer).spec_stage() is Empty,
{
}


/// Both parties of a trade aggregate the same keys. Where the seller and
/// the buyer have set each other's public key shares and both have
/// aggregated, the aggregated key of each output is the same on both sides,
/// byte for byte: the aggregate of the buyer's share and the seller's share
/// of that output, in this order.
pub proof fn law_trades_aggregate_the_same_keys(
    seller: TradeModel,
    buyer: TradeModel,
    seller_aggregated: TradeModel,
    buyer_aggregated: TradeModel,
)
    requires
        !seller.spec_am_buyer(),
        buyer.spec_am_buyer(),
        seller.sides_agree(),
        buyer.sides_agree(),
        seller.buyer_output_key_ctx.my_key_share is Some,
        seller.seller_output_key_ctx.my_key_share is Some,
        buyer.buyer_output_key_ctx.my_key_share is Some,
        buyer.seller_output_key_ctx.my_key_share is Some,
        seller_aggregated.is_key_aggregation_of(
            &seller.with_peer_key_shares(
                buyer.buyer_output_key_ctx.my_key_share->0.pub_key,
                buyer.seller_output_key_ctx.my_key_share->0.pub_key,
            ),
        ),
        buyer_aggregated.is_key_aggregation_of(
            &buyer.with_peer_key_shares(
                seller.buyer_output_key_ctx.my_key_share->0.pub_key,
                seller.seller_output_key_ctx.my_key_share->0.pub_key,
            ),
        ),
    ensures
        seller_aggregated.buyer_output_key_ctx.aggregated_key->0.pub_key@
            == buyer_aggregated.buyer_output_key_ctx.aggregated_key->0.pub_key@,
        seller_aggregated.seller_output_key_ctx.aggregated_key->0.pub_key@
            == buyer_aggregated.seller_output_key_ctx.aggregated_key->0.pub_key@,
        Some(buyer_aggregated.buyer_output_key_ctx.aggregated_key->0.pub_key@)
            == crate::curve::spec_aggregated_pubkey(
            buyer.buyer_output_key_ctx.my_key_share->0.pub_key@,
            seller.buyer_output_key_ctx.my_key_share->0.pub_key@,
        ),
        Some(buyer_aggregated.seller_output_key_ctx.aggregated_key->0.pub_key@)
            == crate::curve::spec_aggregated_pubkey(
            buyer.seller_output_key_ctx.my_key_share->0.pub_key@,
            seller.seller_output_key_ctx.my_key_share->0.pub_key@,
        ),
{
}

/// The signatures that a party adds up on its own warning and redirect
/// transactions are ordinary Schnorr signatures: in a well-formed trade,
/// each verifies under the aggregated key of the output that its input
/// spends, on the message that its context signed.
pub proof fn law_own_aggregated_signatures_verify(pre: TradeModel, post: TradeModel)
    requires
        pre.well_formed(),
        post.is_sig_aggregation_of(&pre),
    ensures
        ({
            let buyer_output_key =
                pre.buyer_output_key_ctx.key_agg_ctx->0.spec_aggregated_pubkey()@;
            let seller_output_key =
                pre.seller_output_key_ctx.key_agg_ctx->0.spec_aggregated_pubkey()@;
            let (warning_tx_buyer_input, warning_tx_seller_input, redirect_tx_input, redirect_key) =
                if pre.spec_am_buyer() {
                (
                    post.buyers_warning_tx_buyer_input_sig_ctx,
                    post.buyers_warning_tx_seller_input_sig_ctx,
                    post.buyers_redirect_tx_input_sig_ctx,
                    buyer_output_key,
                )
            } else {
                (
                    post.sellers_warning_tx_buyer_input_sig_ctx,
                    post.sellers_warning_tx_seller_input_sig_ctx,
                    post.sellers_redirect_tx_input_sig_ctx,
                    seller_output_key,
                )
            };
            &&& spec_adaptor_signature_verifies(
                buyer_output_key,
                warning_tx_buyer_input.aggregated_sig->0@,
                warning_tx_buyer_input.message->0@,
                None,
            )
            &&& spec_adaptor_signature_verifies(
                seller_output_key,
                warning_tx_seller_input.aggregated_sig->0@,
                warning_tx_seller_input.message->0@,
                None,
            )
            &&& spec_adaptor_signature_verifies(
                redirect_key,
                redirect_tx_input.aggregated_sig->0@,
                redirect_tx_input.message->0@,
                None,
            )
        }),
{
}

/// Closing a trade gives a party the private key of its own output, and of
/// that output only: where the private keys of the own output have been
/// aggregated, the key context of the own output holds the private key of
/// its aggregated key, and the key context of the peer's output is as it
/// was.
pub proof fn law_closing_gives_the_key_of_the_own_output_only(
    pre: TradeModel,
    post: TradeModel,
    key: Scalar,
)
    requires
        pre.spec_my_key_ctx().prv_key_aggregation_outcome() is Done,
        pre.spec_my_key_ctx().spec_aggregated_prv_key() == Some(key@),
        post == pre.with_my_key_ctx(pre.spec_my_key_ctx().with_aggregated_prv_key(key)),
    ensures
        post.spec_my_key_ctx().aggregated_key->0.prv_key == Some(key),
        spec_base_point_mul(key@) == post.spec_my_key_ctx().aggregated_key->0.pub_key@,
        post.spec_peer_key_ctx() == pre.spec_peer_key_ctx(),
{
}

} // verus!
