use crate::curve::{MaybePoint, PartialSignature, Point, PubNonce, Scalar};
use crate::error::{ProtocolErrorKind, StepOutcome};
use crate::keys::KeyCtx;
use crate::signing::{zero_seed, Received, SigCtx};
use crate::storage::{ByRef, ByVal, Storage};
use crate::Role;
use vstd::prelude::*;
use vstd::slice::slice_to_vec;
use vstd::string::StringSliceAdditionalSpecFns;

verus! {

/// One public nonce for each of the seven inputs that a trade signs.
pub struct ExchangedNonces<'a, S: Storage<'a, PubNonce>> {
    pub swap_tx_input_nonce_share: S::Store,
    pub buyers_warning_tx_buyer_input_nonce_share: S::Store,
    pub buyers_warning_tx_seller_input_nonce_share: S::Store,
    pub sellers_warning_tx_buyer_input_nonce_share: S::Store,
    pub sellers_warning_tx_seller_input_nonce_share: S::Store,
    pub buyers_redirect_tx_input_nonce_share: S::Store,
    pub sellers_redirect_tx_input_nonce_share: S::Store,
}

/// The partial signatures that one party hands to the other: those on the
/// receiver's warning and redirect transactions, and that on the swap
/// transaction where it is not held back.
pub struct ExchangedSigs<'a, S: Storage<'a, PartialSignature>> {
    pub peers_warning_tx_buyer_input_partial_signature: S::Store,
    pub peers_warning_tx_seller_input_partial_signature: S::Store,
    pub peers_redirect_tx_input_partial_signature: S::Store,
    pub swap_tx_input_partial_signature: Option<S::Store>,
}

/// What the seven signing sessions of a trade have received from the peer
/// and added up.
#[derive(Clone, Copy)]
pub struct ReceivedOfAll {
    pub swap_tx_input: Received,
    pub buyers_warning_tx_buyer_input: Received,
    pub buyers_warning_tx_seller_input: Received,
    pub sellers_warning_tx_buyer_input: Received,
    pub sellers_warning_tx_seller_input: Received,
    pub buyers_redirect_tx_input: Received,
    pub sellers_redirect_tx_input: Received,
}

/// One nonce seed for each of the seven inputs that a trade signs. Each
/// must be fresh random bytes.
pub struct NonceSeeds {
    pub swap_tx_input: [u8; 32],
    pub buyers_warning_tx_buyer_input: [u8; 32],
    pub buyers_warning_tx_seller_input: [u8; 32],
    pub sellers_warning_tx_buyer_input: [u8; 32],
    pub sellers_warning_tx_seller_input: [u8; 32],
    pub buyers_redirect_tx_input: [u8; 32],
    pub sellers_redirect_tx_input: [u8; 32],
}

/// A fee rate, held as the bit pattern of its 64-bit binary fraction.
#[derive(Clone, Copy, Debug, PartialEq, Eq, Structural)]
pub struct FeeRate {
    pub bits: u64,
}

/// One party's side of a trade: its role, the amounts, the keys of the two
/// outputs of the deposit, and a signing session for each of the seven
/// inputs that spend them.
pub struct TradeModel {
    pub trade_id: String,
    pub my_role: Role,
    pub trade_amount: Option<u64>,
    pub buyers_security_deposit: Option<u64>,
    pub sellers_security_deposit: Option<u64>,
    pub deposit_tx_fee_rate: Option<FeeRate>,
    pub prepared_tx_fee_rate: Option<FeeRate>,
    pub buyer_output_key_ctx: KeyCtx,
    pub seller_output_key_ctx: KeyCtx,
    pub swap_tx_input_sig_ctx: SigCtx,
    pub buyers_warning_tx_buyer_input_sig_ctx: SigCtx,
    pub buyers_warning_tx_seller_input_sig_ctx: SigCtx,
    pub sellers_warning_tx_buyer_input_sig_ctx: SigCtx,
    pub sellers_warning_tx_seller_input_sig_ctx: SigCtx,
    pub buyers_redirect_tx_input_sig_ctx: SigCtx,
    pub sellers_redirect_tx_input_sig_ctx: SigCtx,
}

impl TradeModel {
    /// Whether the party is the buyer.
    pub open spec fn spec_am_buyer(&self) -> bool {
        self.my_role.is_buyer()
    }

    /// Whether every key and signing context is on the side that the role
    /// tells.
    pub open spec fn sides_agree(&self) -> bool {
        let am_buyer = self.spec_am_buyer();
        &&& self.buyer_output_key_ctx.am_buyer == am_buyer
        &&& self.seller_output_key_ctx.am_buyer == am_buyer
        &&& self.swap_tx_input_sig_ctx.am_buyer == am_buyer
        &&& self.buyers_warning_tx_buyer_input_sig_ctx.am_buyer == am_buyer
        &&& self.buyers_warning_tx_seller_input_sig_ctx.am_buyer == am_buyer
        &&& self.sellers_warning_tx_buyer_input_sig_ctx.am_buyer == am_buyer
        &&& self.sellers_warning_tx_seller_input_sig_ctx.am_buyer == am_buyer
        &&& self.buyers_redirect_tx_input_sig_ctx.am_buyer == am_buyer
        &&& self.sellers_redirect_tx_input_sig_ctx.am_buyer == am_buyer
    }

    /// Whether only the swap transaction can have an adaptor point: the
    /// other six inputs are signed under the point at infinity.
    pub open spec fn only_swap_is_adapted(&self) -> bool {
        &&& self.buyers_warning_tx_buyer_input_sig_ctx.adaptor_point is Infinity
        &&& self.buyers_warning_tx_seller_input_sig_ctx.adaptor_point is Infinity
        &&& self.sellers_warning_tx_buyer_input_sig_ctx.adaptor_point is Infinity
        &&& self.sellers_warning_tx_seller_input_sig_ctx.adaptor_point is Infinity
        &&& self.buyers_redirect_tx_input_sig_ctx.adaptor_point is Infinity
        &&& self.sellers_redirect_tx_input_sig_ctx.adaptor_point is Infinity
    }

    /// The public key of the seller's key share of the buyer's output, as
    /// far as the party has it: the seller of its own making, the buyer
    /// from the seller.
    pub open spec fn spec_sellers_share_of_buyers_output(&self) -> Option<Point> {
        if self.spec_am_buyer() {
            match self.buyer_output_key_ctx.peers_key_share {
                Some(share) => Some(share.pub_key),
                None => None,
            }
        } else {
            match self.buyer_output_key_ctx.my_key_share {
                Some(pair) => Some(pair.pub_key),
                None => None,
            }
        }
    }

    /// Whether the adaptor point of the swap transaction is the public key
    /// of the seller's key share of the buyer's output: never the point at
    /// infinity once the party has that key share.
    pub open spec fn swap_is_adapted_to_sellers_share(&self) -> bool {
        match self.spec_sellers_share_of_buyers_output() {
            Some(pub_key) => self.swap_tx_input_sig_ctx.adaptor_point == MaybePoint::Valid(pub_key),
            None => self.swap_tx_input_sig_ctx.adaptor_point is Infinity,
        }
    }

    /// What holds of a trade from its making on, whatever steps are taken:
    /// its contexts are on the side of its role, the own key shares are key
    /// pairs, only the swap transaction has an adaptor point, the public
    /// key of the seller's key share of the buyer's output, and every
    /// signing context is well formed.
    pub open spec fn well_formed(&self) -> bool {
        &&& self.sides_agree()
        &&& self.only_swap_is_adapted()
        &&& self.buyer_output_key_ctx.my_key_share_is_a_pair()
        &&& self.seller_output_key_ctx.my_key_share_is_a_pair()
        &&& self.swap_is_adapted_to_sellers_share()
        &&& self.swap_tx_input_sig_ctx.well_formed()
        &&& self.buyers_warning_tx_buyer_input_sig_ctx.well_formed()
        &&& self.buyers_warning_tx_seller_input_sig_ctx.well_formed()
        &&& self.sellers_warning_tx_buyer_input_sig_ctx.well_formed()
        &&& self.sellers_warning_tx_seller_input_sig_ctx.well_formed()
        &&& self.buyers_redirect_tx_input_sig_ctx.well_formed()
        &&& self.sellers_redirect_tx_input_sig_ctx.well_formed()
    }

    /// Whether `self` can be what `pre` has become by steps of the
    /// protocol: it is the same trade in the same role, and each signing
    /// context follows what it was.
    pub open spec fn follows(&self, pre: &TradeModel) -> bool {
        &&& self.trade_id == pre.trade_id
        &&& self.my_role == pre.my_role
        &&& self.swap_tx_input_sig_ctx.follows(&pre.swap_tx_input_sig_ctx)
        &&& self.buyers_warning_tx_buyer_input_sig_ctx.follows(
            &pre.buyers_warning_tx_buyer_input_sig_ctx,
        )
        &&& self.buyers_warning_tx_seller_input_sig_ctx.follows(
            &pre.buyers_warning_tx_seller_input_sig_ctx,
        )
        &&& self.sellers_warning_tx_buyer_input_sig_ctx.follows(
            &pre.sellers_warning_tx_buyer_input_sig_ctx,
        )
        &&& self.sellers_warning_tx_seller_input_sig_ctx.follows(
            &pre.sellers_warning_tx_seller_input_sig_ctx,
        )
        &&& self.buyers_redirect_tx_input_sig_ctx.follows(&pre.buyers_redirect_tx_input_sig_ctx)
        &&& self.sellers_redirect_tx_input_sig_ctx.follows(&pre.sellers_redirect_tx_input_sig_ctx)
    }

    /// Whether `self` is `pre` after the key shares of both outputs have
    /// been aggregated.
    pub open spec fn is_key_aggregation_of(&self, pre: &TradeModel) -> bool {
        &&& self.buyer_output_key_ctx.is_key_aggregation_of(&pre.buyer_output_key_ctx)
        &&& self.seller_output_key_ctx.is_key_aggregation_of(&pre.seller_output_key_ctx)
        &&& self.same_but_key_ctxs(pre)
    }

    /// How aggregating the key shares of both outputs ends: the buyer's
    /// output is taken first.
    pub open spec fn key_aggregation_outcome(&self) -> StepOutcome {
        self.buyer_output_key_ctx.key_aggregation_outcome().and_then(
            self.seller_output_key_ctx.key_aggregation_outcome(),
        )
    }

    /// Whether `self` is `pre` after the own key shares have been made from
    /// the stand-in private key 1.
    pub open spec fn is_stand_in_key_init_of(&self, pre: &TradeModel) -> bool {
        &&& self.buyer_output_key_ctx.my_key_share matches Some(buyer_pair)
        &&& self.seller_output_key_ctx.my_key_share matches Some(seller_pair)
        &&& buyer_pair.prv_key@ == crate::curve::one_encoding()
        &&& seller_pair.prv_key@ == crate::curve::one_encoding()
        &&& self.is_key_init_of(pre, buyer_pair.prv_key, seller_pair.prv_key)
    }

    /// The trade of an id and a role in which nothing has happened yet.
    pub open spec fn spec_new(trade_id: String, my_role: Role) -> TradeModel {
        let am_buyer = my_role.is_buyer();
        TradeModel {
            trade_id,
            my_role,
            trade_amount: None,
            buyers_security_deposit: None,
            sellers_security_deposit: None,
            deposit_tx_fee_rate: None,
            prepared_tx_fee_rate: None,
            buyer_output_key_ctx: KeyCtx::spec_new(am_buyer),
            seller_output_key_ctx: KeyCtx::spec_new(am_buyer),
            swap_tx_input_sig_ctx: SigCtx::spec_new(am_buyer),
            buyers_warning_tx_buyer_input_sig_ctx: SigCtx::spec_new(am_buyer),
            buyers_warning_tx_seller_input_sig_ctx: SigCtx::spec_new(am_buyer),
            sellers_warning_tx_buyer_input_sig_ctx: SigCtx::spec_new(am_buyer),
            sellers_warning_tx_seller_input_sig_ctx: SigCtx::spec_new(am_buyer),
            buyers_redirect_tx_input_sig_ctx: SigCtx::spec_new(am_buyer),
            sellers_redirect_tx_input_sig_ctx: SigCtx::spec_new(am_buyer),
        }
    }

    /// Whether `self` differs from `pre` in the two key contexts at most.
    pub open spec fn same_but_key_ctxs(&self, pre: &TradeModel) -> bool {
        *self == (TradeModel {
            buyer_output_key_ctx: self.buyer_output_key_ctx,
            seller_output_key_ctx: self.seller_output_key_ctx,
            ..*pre
        })
    }

    /// Whether `self` differs from `pre` in the seven signing contexts at
    /// most.
    pub open spec fn same_but_sig_ctxs(&self, pre: &TradeModel) -> bool {
        *self == (TradeModel {
            swap_tx_input_sig_ctx: self.swap_tx_input_sig_ctx,
            buyers_warning_tx_buyer_input_sig_ctx: self.buyers_warning_tx_buyer_input_sig_ctx,
            buyers_warning_tx_seller_input_sig_ctx: self.buyers_warning_tx_seller_input_sig_ctx,
            sellers_warning_tx_buyer_input_sig_ctx: self.sellers_warning_tx_buyer_input_sig_ctx,
            sellers_warning_tx_seller_input_sig_ctx: self.sellers_warning_tx_seller_input_sig_ctx,
            buyers_redirect_tx_input_sig_ctx: self.buyers_redirect_tx_input_sig_ctx,
            sellers_redirect_tx_input_sig_ctx: self.sellers_redirect_tx_input_sig_ctx,
            ..*pre
        })
    }

    /// The trade after the own key shares have been made from two private
    /// keys: the seller takes the public key of its share of the buyer's
    /// output for the adaptor point of the swap transaction.
    pub open spec fn is_key_init_of(
        &self,
        pre: &TradeModel,
        buyer_output_prv_key: Scalar,
        seller_output_prv_key: Scalar,
    ) -> bool {
        &&& self.buyer_output_key_ctx.is_key_init_of(
            &pre.buyer_output_key_ctx,
            buyer_output_prv_key,
        )
        &&& self.seller_output_key_ctx.is_key_init_of(
            &pre.seller_output_key_ctx,
            seller_output_prv_key,
        )
        &&& *self == (TradeModel {
            buyer_output_key_ctx: self.buyer_output_key_ctx,
            seller_output_key_ctx: self.seller_output_key_ctx,
            swap_tx_input_sig_ctx: if pre.spec_am_buyer() {
                pre.swap_tx_input_sig_ctx
            } else {
                pre.swap_tx_input_sig_ctx.with_adaptor_point(
                    MaybePoint::Valid(self.buyer_output_key_ctx.my_key_share->0.pub_key),
                )
            },
            ..*pre
        })
    }

    /// The trade after the peer's public key shares have been set: the
    /// buyer takes the seller's share of the buyer's output for the adaptor
    /// point of the swap transaction.
    pub open spec fn with_peer_key_shares(
        self,
        buyer_output_pub_key: Point,
        seller_output_pub_key: Point,
    ) -> TradeModel {
        TradeModel {
            buyer_output_key_ctx: self.buyer_output_key_ctx.with_peers_pub_key(
                buyer_output_pub_key,
            ),
            seller_output_key_ctx: self.seller_output_key_ctx.with_peers_pub_key(
                seller_output_pub_key,
            ),
            swap_tx_input_sig_ctx: if self.spec_am_buyer() {
                self.swap_tx_input_sig_ctx.with_adaptor_point(
                    MaybePoint::Valid(buyer_output_pub_key),
                )
            } else {
                self.swap_tx_input_sig_ctx
            },
            ..self
        }
    }

    /// The trade with these amounts and fee rates.
    pub open spec fn with_amounts(
        self,
        trade_amount: u64,
        buyers_security_deposit: u64,
        sellers_security_deposit: u64,
        deposit_tx_fee_rate: FeeRate,
        prepared_tx_fee_rate: FeeRate,
    ) -> TradeModel {
        TradeModel {
            trade_amount: Some(trade_amount),
            buyers_security_deposit: Some(buyers_security_deposit),
            sellers_security_deposit: Some(sellers_security_deposit),
            deposit_tx_fee_rate: Some(deposit_tx_fee_rate),
            prepared_tx_fee_rate: Some(prepared_tx_fee_rate),
            ..self
        }
    }

    /// A trade in which nothing has happened yet.
    pub fn new(trade_id: String, my_role: Role) -> (r: TradeModel)
        ensures
            r == TradeModel::spec_new(trade_id, my_role),
            r.well_formed(),
    {
        let am_buyer = my_role.am_buyer();
        TradeModel {
            trade_id,
            my_role,
            trade_amount: None,
            buyers_security_deposit: None,
            sellers_security_deposit: None,
            deposit_tx_fee_rate: None,
            prepared_tx_fee_rate: None,
            buyer_output_key_ctx: KeyCtx::new(am_buyer),
            seller_output_key_ctx: KeyCtx::new(am_buyer),
            swap_tx_input_sig_ctx: SigCtx::new(am_buyer),
            buyers_warning_tx_buyer_input_sig_ctx: SigCtx::new(am_buyer),
            buyers_warning_tx_seller_input_sig_ctx: SigCtx::new(am_buyer),
            sellers_warning_tx_buyer_input_sig_ctx: SigCtx::new(am_buyer),
            sellers_warning_tx_seller_input_sig_ctx: SigCtx::new(am_buyer),
            buyers_redirect_tx_input_sig_ctx: SigCtx::new(am_buyer),
            sellers_redirect_tx_input_sig_ctx: SigCtx::new(am_buyer),
        }
    }

    /// Tells whether the party is the buyer.
    pub fn am_buyer(&self) -> (r: bool)
        ensures
            r == self.spec_am_buyer(),
    {
        self.my_role.am_buyer()
    }

    /// Makes the own key share for each output from the stand-in private
    /// key 1. The seller sets the adaptor point of the swap transaction.
    pub fn init_my_key_shares(&mut self)
        requires
            old(self).buyer_output_key_ctx.my_key_share is None,
            old(self).seller_output_key_ctx.my_key_share is None,
        ensures
            final(self).is_stand_in_key_init_of(old(self)),
    {
        let am_buyer = self.am_buyer();
        let buyer_output_pub_key = self.buyer_output_key_ctx.init_my_key_share();
        self.seller_output_key_ctx.init_my_key_share();
        if !am_buyer {
            self.swap_tx_input_sig_ctx.adaptor_point = MaybePoint::Valid(buyer_output_pub_key);
        }
    }

    /// Makes the own key share for each output from a private key, which
    /// the caller has drawn at random. The seller sets the adaptor point of
    /// the swap transaction.
    pub fn init_my_key_shares_with(
        &mut self,
        buyer_output_prv_key: Scalar,
        seller_output_prv_key: Scalar,
    )
        requires
            old(self).buyer_output_key_ctx.my_key_share is None,
            old(self).seller_output_key_ctx.my_key_share is None,
        ensures
            final(self).is_key_init_of(old(self), buyer_output_prv_key, seller_output_prv_key),
    {
        let am_buyer = self.am_buyer();
        let buyer_output_pub_key = self.buyer_output_key_ctx.init_my_key_share_with(
            buyer_output_prv_key,
        );
        self.seller_output_key_ctx.init_my_key_share_with(seller_output_prv_key);
        if !am_buyer {
            self.swap_tx_input_sig_ctx.adaptor_point = MaybePoint::Valid(buyer_output_pub_key);
        }
    }

    /// The own key shares: that of the buyer's output, then that of the
    /// seller's output.
    pub fn get_my_key_shares(&self) -> (r: Option<[&crate::keys::KeyPair; 2]>)
        ensures
            r is Some <==> self.buyer_output_key_ctx.my_key_share is Some
                && self.seller_output_key_ctx.my_key_share is Some,
            r matches Some(shares) ==> *shares[0] == self.buyer_output_key_ctx.my_key_share->0
                && *shares[1] == self.seller_output_key_ctx.my_key_share->0,
    {
        let buyer_share = match &self.buyer_output_key_ctx.my_key_share {
            Some(pair) => pair,
            None => return None,
        };
        let seller_share = match &self.seller_output_key_ctx.my_key_share {
            Some(pair) => pair,
            None => return None,
        };
        Some([buyer_share, seller_share])
    }

    /// Sets the public keys of the peer's key shares. The buyer sets the
    /// adaptor point of the swap transaction.
    pub fn set_peer_key_shares(&mut self, buyer_output_pub_key: Point, seller_output_pub_key: Point)
        ensures
            *final(self) == old(self).with_peer_key_shares(
                buyer_output_pub_key,
                seller_output_pub_key,
            ),
    {
        self.buyer_output_key_ctx.peers_key_share = Some(
            crate::keys::KeyPair::from_public(buyer_output_pub_key),
        );
        self.seller_output_key_ctx.peers_key_share = Some(
            crate::keys::KeyPair::from_public(seller_output_pub_key),
        );
        if self.am_buyer() {
            self.swap_tx_input_sig_ctx.adaptor_point = MaybePoint::Valid(buyer_output_pub_key);
        }
    }

    /// Aggregates the key shares of both outputs. A call that fails
    /// changes nothing.
    pub fn aggregate_key_shares(&mut self) -> (r: Result<(), ProtocolErrorKind>)
        ensures
            old(self).key_aggregation_outcome().is_outcome_of(r),
            r is Err ==> *final(self) == *old(self),
            r is Ok ==> final(self).is_key_aggregation_of(old(self)),
    {
        let buyer_output_agg_ctx = self.buyer_output_key_ctx.compute_key_aggregation()?;
        let seller_output_agg_ctx = self.seller_output_key_ctx.compute_key_aggregation()?;
        self.buyer_output_key_ctx.set_key_aggregation(buyer_output_agg_ctx);
        self.seller_output_key_ctx.set_key_aggregation(seller_output_agg_ctx);
        Ok(())
    }

    /// The trade after the peer's public nonces have been set.
    pub open spec fn with_peer_nonce_shares(
        self,
        swap_tx_input: PubNonce,
        buyers_warning_tx_buyer_input: PubNonce,
        buyers_warning_tx_seller_input: PubNonce,
        sellers_warning_tx_buyer_input: PubNonce,
        sellers_warning_tx_seller_input: PubNonce,
        buyers_redirect_tx_input: PubNonce,
        sellers_redirect_tx_input: PubNonce,
    ) -> TradeModel {
        TradeModel {
            swap_tx_input_sig_ctx: self.swap_tx_input_sig_ctx.with_peers_nonce_share(swap_tx_input),
            buyers_warning_tx_buyer_input_sig_ctx:
                self.buyers_warning_tx_buyer_input_sig_ctx.with_peers_nonce_share(
                buyers_warning_tx_buyer_input,
            ),
            buyers_warning_tx_seller_input_sig_ctx:
                self.buyers_warning_tx_seller_input_sig_ctx.with_peers_nonce_share(
                buyers_warning_tx_seller_input,
            ),
            sellers_warning_tx_buyer_input_sig_ctx:
                self.sellers_warning_tx_buyer_input_sig_ctx.with_peers_nonce_share(
                sellers_warning_tx_buyer_input,
            ),
            sellers_warning_tx_seller_input_sig_ctx:
                self.sellers_warning_tx_seller_input_sig_ctx.with_peers_nonce_share(
                sellers_warning_tx_seller_input,
            ),
            buyers_redirect_tx_input_sig_ctx:
                self.buyers_redirect_tx_input_sig_ctx.with_peers_nonce_share(
                buyers_redirect_tx_input,
            ),
            sellers_redirect_tx_input_sig_ctx:
                self.sellers_redirect_tx_input_sig_ctx.with_peers_nonce_share(
                sellers_redirect_tx_input,
            ),
            ..self
        }
    }

    /// How making the nonce pairs of the seven signing contexts ends: the
    /// contexts are taken in a fixed order, those that sign for the key of
    /// the buyer's output first, and the first that cannot make its nonce
    /// pair decides.
    pub open spec fn nonce_init_outcome(&self) -> StepOutcome {
        let buyer_key_ctx = &self.buyer_output_key_ctx;
        let seller_key_ctx = &self.seller_output_key_ctx;
        self.buyers_warning_tx_buyer_input_sig_ctx.nonce_init_outcome(buyer_key_ctx).and_then(
            self.sellers_warning_tx_buyer_input_sig_ctx.nonce_init_outcome(buyer_key_ctx),
        ).and_then(
            self.buyers_redirect_tx_input_sig_ctx.nonce_init_outcome(buyer_key_ctx),
        ).and_then(
            self.swap_tx_input_sig_ctx.nonce_init_outcome(seller_key_ctx),
        ).and_then(
            self.buyers_warning_tx_seller_input_sig_ctx.nonce_init_outcome(seller_key_ctx),
        ).and_then(
            self.sellers_warning_tx_seller_input_sig_ctx.nonce_init_outcome(seller_key_ctx),
        ).and_then(self.sellers_redirect_tx_input_sig_ctx.nonce_init_outcome(seller_key_ctx))
    }

    /// Whether `self` is `pre` after every signing context has made its
    /// nonce pair from its seed: three for the key of the buyer's output,
    /// four for the key of the seller's output.
    pub open spec fn is_nonce_init_of(&self, pre: &TradeModel, seeds: &NonceSeedBytes) -> bool {
        let buyer_key_ctx = &pre.buyer_output_key_ctx;
        let seller_key_ctx = &pre.seller_output_key_ctx;
        &&& self.same_but_sig_ctxs(pre)
        &&& self.buyers_warning_tx_buyer_input_sig_ctx.is_nonce_init_of(
            &pre.buyers_warning_tx_buyer_input_sig_ctx,
            buyer_key_ctx,
            seeds.buyers_warning_tx_buyer_input,
        )
        &&& self.sellers_warning_tx_buyer_input_sig_ctx.is_nonce_init_of(
            &pre.sellers_warning_tx_buyer_input_sig_ctx,
            buyer_key_ctx,
            seeds.sellers_warning_tx_buyer_input,
        )
        &&& self.buyers_redirect_tx_input_sig_ctx.is_nonce_init_of(
            &pre.buyers_redirect_tx_input_sig_ctx,
            buyer_key_ctx,
            seeds.buyers_redirect_tx_input,
        )
        &&& self.swap_tx_input_sig_ctx.is_nonce_init_of(
            &pre.swap_tx_input_sig_ctx,
            seller_key_ctx,
            seeds.swap_tx_input,
        )
        &&& self.buyers_warning_tx_seller_input_sig_ctx.is_nonce_init_of(
            &pre.buyers_warning_tx_seller_input_sig_ctx,
            seller_key_ctx,
            seeds.buyers_warning_tx_seller_input,
        )
        &&& self.sellers_warning_tx_seller_input_sig_ctx.is_nonce_init_of(
            &pre.sellers_warning_tx_seller_input_sig_ctx,
            seller_key_ctx,
            seeds.sellers_warning_tx_seller_input,
        )
        &&& self.sellers_redirect_tx_input_sig_ctx.is_nonce_init_of(
            &pre.sellers_redirect_tx_input_sig_ctx,
            seller_key_ctx,
            seeds.sellers_redirect_tx_input,
        )
    }

    /// How adding up the public nonces of the seven signing contexts ends:
    /// the contexts are taken in a fixed order, and the first whose nonces
    /// cannot be added up decides.
    pub open spec fn nonce_aggregation_outcome(&self) -> StepOutcome {
        self.swap_tx_input_sig_ctx.nonce_aggregation_outcome().and_then(
            self.buyers_warning_tx_buyer_input_sig_ctx.nonce_aggregation_outcome(),
        ).and_then(
            self.buyers_warning_tx_seller_input_sig_ctx.nonce_aggregation_outcome(),
        ).and_then(
            self.sellers_warning_tx_buyer_input_sig_ctx.nonce_aggregation_outcome(),
        ).and_then(
            self.sellers_warning_tx_seller_input_sig_ctx.nonce_aggregation_outcome(),
        ).and_then(self.buyers_redirect_tx_input_sig_ctx.nonce_aggregation_outcome()).and_then(
            self.sellers_redirect_tx_input_sig_ctx.nonce_aggregation_outcome(),
        )
    }

    /// Whether `self` is `pre` after every signing context has added up
    /// its two public nonces.
    pub open spec fn is_nonce_aggregation_of(&self, pre: &TradeModel) -> bool {
        &&& self.same_but_sig_ctxs(pre)
        &&& self.swap_tx_input_sig_ctx.is_nonce_aggregation_of(&pre.swap_tx_input_sig_ctx)
        &&& self.buyers_warning_tx_buyer_input_sig_ctx.is_nonce_aggregation_of(
            &pre.buyers_warning_tx_buyer_input_sig_ctx,
        )
        &&& self.buyers_warning_tx_seller_input_sig_ctx.is_nonce_aggregation_of(
            &pre.buyers_warning_tx_seller_input_sig_ctx,
        )
        &&& self.sellers_warning_tx_buyer_input_sig_ctx.is_nonce_aggregation_of(
            &pre.sellers_warning_tx_buyer_input_sig_ctx,
        )
        &&& self.sellers_warning_tx_seller_input_sig_ctx.is_nonce_aggregation_of(
            &pre.sellers_warning_tx_seller_input_sig_ctx,
        )
        &&& self.buyers_redirect_tx_input_sig_ctx.is_nonce_aggregation_of(
            &pre.buyers_redirect_tx_input_sig_ctx,
        )
        &&& self.sellers_redirect_tx_input_sig_ctx.is_nonce_aggregation_of(
            &pre.sellers_redirect_tx_input_sig_ctx,
        )
    }

    /// Makes the nonce pair of every signing context from its seed, bound
    /// to the aggregated key that the context signs for. The nonce pairs
    /// are made once. A call that fails changes nothing.
    pub fn init_my_nonce_shares_with(&mut self, seeds: &NonceSeeds) -> (r: Result<
        (),
        ProtocolErrorKind,
    >)
        ensures
            old(self).nonce_init_outcome().is_outcome_of(r),
            r is Err ==> *final(self) == *old(self),
            r is Ok ==> final(self).is_nonce_init_of(old(self), &seeds@),
    {
        self.buyers_warning_tx_buyer_input_sig_ctx.check_nonce_init(&self.buyer_output_key_ctx)?;
        self.sellers_warning_tx_buyer_input_sig_ctx.check_nonce_init(&self.buyer_output_key_ctx)?;
        self.buyers_redirect_tx_input_sig_ctx.check_nonce_init(&self.buyer_output_key_ctx)?;
        self.swap_tx_input_sig_ctx.check_nonce_init(&self.seller_output_key_ctx)?;
        self.buyers_warning_tx_seller_input_sig_ctx.check_nonce_init(&self.seller_output_key_ctx)?;
        self.sellers_warning_tx_seller_input_sig_ctx.check_nonce_init(
            &self.seller_output_key_ctx,
        )?;
        self.sellers_redirect_tx_input_sig_ctx.check_nonce_init(&self.seller_output_key_ctx)?;
        self.buyers_warning_tx_buyer_input_sig_ctx.init_my_nonce_share_with(
            &self.buyer_output_key_ctx,
            &seeds.buyers_warning_tx_buyer_input,
        )?;
        self.sellers_warning_tx_buyer_input_sig_ctx.init_my_nonce_share_with(
            &self.buyer_output_key_ctx,
            &seeds.sellers_warning_tx_buyer_input,
        )?;
        self.buyers_redirect_tx_input_sig_ctx.init_my_nonce_share_with(
            &self.buyer_output_key_ctx,
            &seeds.buyers_redirect_tx_input,
        )?;
        self.swap_tx_input_sig_ctx.init_my_nonce_share_with(
            &self.seller_output_key_ctx,
            &seeds.swap_tx_input,
        )?;
        self.buyers_warning_tx_seller_input_sig_ctx.init_my_nonce_share_with(
            &self.seller_output_key_ctx,
            &seeds.buyers_warning_tx_seller_input,
        )?;
        self.sellers_warning_tx_seller_input_sig_ctx.init_my_nonce_share_with(
            &self.seller_output_key_ctx,
            &seeds.sellers_warning_tx_seller_input,
        )?;
        self.sellers_redirect_tx_input_sig_ctx.init_my_nonce_share_with(
            &self.seller_output_key_ctx,
            &seeds.sellers_redirect_tx_input,
        )?;
        Ok(())
    }

    /// Makes the nonce pair of every signing context from the stand-in seed
    /// of 32 zero bytes, once. A call that fails changes nothing.
    pub fn init_my_nonce_shares(&mut self) -> (r: Result<(), ProtocolErrorKind>)
        ensures
            old(self).nonce_init_outcome().is_outcome_of(r),
            r is Err ==> *final(self) == *old(self),
            r is Ok ==> final(self).is_nonce_init_of(old(self), &NonceSeedBytes::zero()),
    {
        let seeds = NonceSeeds::zero();
        self.init_my_nonce_shares_with(&seeds)
    }

    /// The own public nonces, once every signing context has one.
    pub fn get_my_nonce_shares(&self) -> (r: Option<ExchangedNonces<'_, ByRef>>)
        ensures
            r is Some <==> self.swap_tx_input_sig_ctx.my_nonce_share is Some
                && self.buyers_warning_tx_buyer_input_sig_ctx.my_nonce_share is Some
                && self.buyers_warning_tx_seller_input_sig_ctx.my_nonce_share is Some
                && self.sellers_warning_tx_buyer_input_sig_ctx.my_nonce_share is Some
                && self.sellers_warning_tx_seller_input_sig_ctx.my_nonce_share is Some
                && self.buyers_redirect_tx_input_sig_ctx.my_nonce_share is Some
                && self.sellers_redirect_tx_input_sig_ctx.my_nonce_share is Some,
            r matches Some(n) ==> *n.swap_tx_input_nonce_share
                == self.swap_tx_input_sig_ctx.my_nonce_share->0.pub_nonce
                && *n.buyers_warning_tx_buyer_input_nonce_share
                == self.buyers_warning_tx_buyer_input_sig_ctx.my_nonce_share->0.pub_nonce
                && *n.buyers_warning_tx_seller_input_nonce_share
                == self.buyers_warning_tx_seller_input_sig_ctx.my_nonce_share->0.pub_nonce
                && *n.sellers_warning_tx_buyer_input_nonce_share
                == self.sellers_warning_tx_buyer_input_sig_ctx.my_nonce_share->0.pub_nonce
                && *n.sellers_warning_tx_seller_input_nonce_share
                == self.sellers_warning_tx_seller_input_sig_ctx.my_nonce_share->0.pub_nonce
                && *n.buyers_redirect_tx_input_nonce_share
                == self.buyers_redirect_tx_input_sig_ctx.my_nonce_share->0.pub_nonce
                && *n.sellers_redirect_tx_input_nonce_share
                == self.sellers_redirect_tx_input_sig_ctx.my_nonce_share->0.pub_nonce,
    {
        let swap_tx_input_nonce_share = match &self.swap_tx_input_sig_ctx.my_nonce_share {
            Some(pair) => &pair.pub_nonce,
            None => return None,
        };
        let buyers_warning_tx_buyer_input_nonce_share =
            match &self.buyers_warning_tx_buyer_input_sig_ctx.my_nonce_share {
            Some(pair) => &pair.pub_nonce,
            None => return None,
        };
        let buyers_warning_tx_seller_input_nonce_share =
            match &self.buyers_warning_tx_seller_input_sig_ctx.my_nonce_share {
            Some(pair) => &pair.pub_nonce,
            None => return None,
        };
        let sellers_warning_tx_buyer_input_nonce_share =
            match &self.sellers_warning_tx_buyer_input_sig_ctx.my_nonce_share {
            Some(pair) => &pair.pub_nonce,
            None => return None,
        };
        let sellers_warning_tx_seller_input_nonce_share =
            match &self.sellers_warning_tx_seller_input_sig_ctx.my_nonce_share {
            Some(pair) => &pair.pub_nonce,
            None => return None,
        };
        let buyers_redirect_tx_input_nonce_share =
            match &self.buyers_redirect_tx_input_sig_ctx.my_nonce_share {
            Some(pair) => &pair.pub_nonce,
            None => return None,
        };
        let sellers_redirect_tx_input_nonce_share =
            match &self.sellers_redirect_tx_input_sig_ctx.my_nonce_share {
            Some(pair) => &pair.pub_nonce,
            None => return None,
        };
        Some(
            ExchangedNonces {
                swap_tx_input_nonce_share,
                buyers_warning_tx_buyer_input_nonce_share,
                buyers_warning_tx_seller_input_nonce_share,
                sellers_warning_tx_buyer_input_nonce_share,
                sellers_warning_tx_seller_input_nonce_share,
                buyers_redirect_tx_input_nonce_share,
                sellers_redirect_tx_input_nonce_share,
            },
        )
    }

    /// Sets the peer's public nonce in every signing context.
    pub fn set_peer_nonce_shares(&mut self, peer_nonce_shares: ExchangedNonces<'_, ByVal>)
        ensures
            *final(self) == old(self).with_peer_nonce_shares(
                peer_nonce_shares.swap_tx_input_nonce_share,
                peer_nonce_shares.buyers_warning_tx_buyer_input_nonce_share,
                peer_nonce_shares.buyers_warning_tx_seller_input_nonce_share,
                peer_nonce_shares.sellers_warning_tx_buyer_input_nonce_share,
                peer_nonce_shares.sellers_warning_tx_seller_input_nonce_share,
                peer_nonce_shares.buyers_redirect_tx_input_nonce_share,
                peer_nonce_shares.sellers_redirect_tx_input_nonce_share,
            ),
    {
        self.swap_tx_input_sig_ctx.peers_nonce_share = Some(
            peer_nonce_shares.swap_tx_input_nonce_share,
        );
        self.buyers_warning_tx_buyer_input_sig_ctx.peers_nonce_share = Some(
            peer_nonce_shares.buyers_warning_tx_buyer_input_nonce_share,
        );
        self.buyers_warning_tx_seller_input_sig_ctx.peers_nonce_share = Some(
            peer_nonce_shares.buyers_warning_tx_seller_input_nonce_share,
        );
        self.sellers_warning_tx_buyer_input_sig_ctx.peers_nonce_share = Some(
            peer_nonce_shares.sellers_warning_tx_buyer_input_nonce_share,
        );
        self.sellers_warning_tx_seller_input_sig_ctx.peers_nonce_share = Some(
            peer_nonce_shares.sellers_warning_tx_seller_input_nonce_share,
        );
        self.buyers_redirect_tx_input_sig_ctx.peers_nonce_share = Some(
            peer_nonce_shares.buyers_redirect_tx_input_nonce_share,
        );
        self.sellers_redirect_tx_input_sig_ctx.peers_nonce_share = Some(
            peer_nonce_shares.sellers_redirect_tx_input_nonce_share,
        );
    }

    /// Adds up the two public nonces of every signing context. A call that
    /// fails changes nothing.
    pub fn aggregate_nonce_shares(&mut self) -> (r: Result<(), ProtocolErrorKind>)
        ensures
            old(self).nonce_aggregation_outcome().is_outcome_of(r),
            r is Err ==> *final(self) == *old(self),
            r is Ok ==> final(self).is_nonce_aggregation_of(old(self)),
    {
        let nonce_1 = self.swap_tx_input_sig_ctx.compute_aggregated_nonce()?;
        let nonce_2 = self.buyers_warning_tx_buyer_input_sig_ctx.compute_aggregated_nonce()?;
        let nonce_3 = self.buyers_warning_tx_seller_input_sig_ctx.compute_aggregated_nonce()?;
        let nonce_4 = self.sellers_warning_tx_buyer_input_sig_ctx.compute_aggregated_nonce()?;
        let nonce_5 = self.sellers_warning_tx_seller_input_sig_ctx.compute_aggregated_nonce()?;
        let nonce_6 = self.buyers_redirect_tx_input_sig_ctx.compute_aggregated_nonce()?;
        let nonce_7 = self.sellers_redirect_tx_input_sig_ctx.compute_aggregated_nonce()?;
        self.swap_tx_input_sig_ctx.set_aggregated_nonce(nonce_1);
        self.buyers_warning_tx_buyer_input_sig_ctx.set_aggregated_nonce(nonce_2);
        self.buyers_warning_tx_seller_input_sig_ctx.set_aggregated_nonce(nonce_3);
        self.sellers_warning_tx_buyer_input_sig_ctx.set_aggregated_nonce(nonce_4);
        self.sellers_warning_tx_seller_input_sig_ctx.set_aggregated_nonce(nonce_5);
        self.buyers_redirect_tx_input_sig_ctx.set_aggregated_nonce(nonce_6);
        self.sellers_redirect_tx_input_sig_ctx.set_aggregated_nonce(nonce_7);
        Ok(())
    }

    /// The trade after the peer's partial signatures on the own
    /// transactions have been set: on the buyer's side those on the buyer's
    /// warning and redirect transactions, on the seller's side those on the
    /// seller's; and that on the swap transaction, where there is one.
    pub open spec fn with_peer_partial_signatures_on_my_txs(
        self,
        warning_tx_buyer_input: PartialSignature,
        warning_tx_seller_input: PartialSignature,
        redirect_tx_input: PartialSignature,
        swap_tx_input: Option<PartialSignature>,
    ) -> TradeModel {
        if self.spec_am_buyer() {
            TradeModel {
                buyers_warning_tx_buyer_input_sig_ctx:
                    self.buyers_warning_tx_buyer_input_sig_ctx.with_peers_partial_sig(
                    Some(warning_tx_buyer_input),
                ),
                buyers_warning_tx_seller_input_sig_ctx:
                    self.buyers_warning_tx_seller_input_sig_ctx.with_peers_partial_sig(
                    Some(warning_tx_seller_input),
                ),
                buyers_redirect_tx_input_sig_ctx:
                    self.buyers_redirect_tx_input_sig_ctx.with_peers_partial_sig(
                    Some(redirect_tx_input),
                ),
                swap_tx_input_sig_ctx: self.swap_tx_input_sig_ctx.with_peers_partial_sig_if_some(
                    swap_tx_input,
                ),
                ..self
            }
        } else {
            TradeModel {
                sellers_warning_tx_buyer_input_sig_ctx:
                    self.sellers_warning_tx_buyer_input_sig_ctx.with_peers_partial_sig(
                    Some(warning_tx_buyer_input),
                ),
                sellers_warning_tx_seller_input_sig_ctx:
                    self.sellers_warning_tx_seller_input_sig_ctx.with_peers_partial_sig(
                    Some(warning_tx_seller_input),
                ),
                sellers_redirect_tx_input_sig_ctx:
                    self.sellers_redirect_tx_input_sig_ctx.with_peers_partial_sig(
                    Some(redirect_tx_input),
                ),
                swap_tx_input_sig_ctx: self.swap_tx_input_sig_ctx.with_peers_partial_sig_if_some(
                    swap_tx_input,
                ),
                ..self
            }
        }
    }

    /// How signing the seven inputs ends: the inputs are taken in a fixed
    /// order, those signed for the key of the buyer's output first, and the
    /// first that cannot be signed decides.
    pub open spec fn signing_outcome(&self) -> StepOutcome {
        let buyer_key_ctx = &self.buyer_output_key_ctx;
        let seller_key_ctx = &self.seller_output_key_ctx;
        self.buyers_warning_tx_buyer_input_sig_ctx.signing_outcome(
            buyer_key_ctx,
            buyers_warning_tx_buyer_input_message(),
        ).and_then(
            self.sellers_warning_tx_buyer_input_sig_ctx.signing_outcome(
                buyer_key_ctx,
                sellers_warning_tx_buyer_input_message(),
            ),
        ).and_then(
            self.buyers_redirect_tx_input_sig_ctx.signing_outcome(
                buyer_key_ctx,
                buyers_redirect_tx_input_message(),
            ),
        ).and_then(
            self.swap_tx_input_sig_ctx.signing_outcome(seller_key_ctx, swap_tx_input_message()),
        ).and_then(
            self.buyers_warning_tx_seller_input_sig_ctx.signing_outcome(
                seller_key_ctx,
                buyers_warning_tx_seller_input_message(),
            ),
        ).and_then(
            self.sellers_warning_tx_seller_input_sig_ctx.signing_outcome(
                seller_key_ctx,
                sellers_warning_tx_seller_input_message(),
            ),
        ).and_then(
            self.sellers_redirect_tx_input_sig_ctx.signing_outcome(
                seller_key_ctx,
                sellers_redirect_tx_input_message(),
            ),
        )
    }

    /// Whether `self` is `pre` after every signing context has signed its
    /// message with the own key share of the output that it spends.
    pub open spec fn is_partial_signing_of(&self, pre: &TradeModel) -> bool {
        let buyer_key_ctx = &pre.buyer_output_key_ctx;
        let seller_key_ctx = &pre.seller_output_key_ctx;
        &&& self.same_but_sig_ctxs(pre)
        &&& self.buyers_warning_tx_buyer_input_sig_ctx.is_partial_signing_of(
            &pre.buyers_warning_tx_buyer_input_sig_ctx,
            buyer_key_ctx,
            buyers_warning_tx_buyer_input_message(),
        )
        &&& self.sellers_warning_tx_buyer_input_sig_ctx.is_partial_signing_of(
            &pre.sellers_warning_tx_buyer_input_sig_ctx,
            buyer_key_ctx,
            sellers_warning_tx_buyer_input_message(),
        )
        &&& self.buyers_redirect_tx_input_sig_ctx.is_partial_signing_of(
            &pre.buyers_redirect_tx_input_sig_ctx,
            buyer_key_ctx,
            buyers_redirect_tx_input_message(),
        )
        &&& self.swap_tx_input_sig_ctx.is_partial_signing_of(
            &pre.swap_tx_input_sig_ctx,
            seller_key_ctx,
            swap_tx_input_message(),
        )
        &&& self.buyers_warning_tx_seller_input_sig_ctx.is_partial_signing_of(
            &pre.buyers_warning_tx_seller_input_sig_ctx,
            seller_key_ctx,
            buyers_warning_tx_seller_input_message(),
        )
        &&& self.sellers_warning_tx_seller_input_sig_ctx.is_partial_signing_of(
            &pre.sellers_warning_tx_seller_input_sig_ctx,
            seller_key_ctx,
            sellers_warning_tx_seller_input_message(),
        )
        &&& self.sellers_redirect_tx_input_sig_ctx.is_partial_signing_of(
            &pre.sellers_redirect_tx_input_sig_ctx,
            seller_key_ctx,
            sellers_redirect_tx_input_message(),
        )
    }

    /// How adding up the partial signatures on the own transactions ends.
    /// The buyer takes its warning transaction's two inputs, its redirect
    /// transaction and the swap transaction, in this order; the seller its
    /// warning transaction's two inputs and its redirect transaction. Each
    /// is added up under the key of the output that its input spends: the
    /// swap transaction under that of the seller's output. The first that
    /// cannot be added up decides.
    pub open spec fn aggregation_outcome(&self) -> StepOutcome {
        let buyer_key_ctx = &self.buyer_output_key_ctx;
        let seller_key_ctx = &self.seller_output_key_ctx;
        if self.spec_am_buyer() {
            self.buyers_warning_tx_buyer_input_sig_ctx.aggregation_outcome(buyer_key_ctx).and_then(
                self.buyers_warning_tx_seller_input_sig_ctx.aggregation_outcome(seller_key_ctx),
            ).and_then(
                self.buyers_redirect_tx_input_sig_ctx.aggregation_outcome(buyer_key_ctx),
            ).and_then(self.swap_tx_input_sig_ctx.aggregation_outcome(seller_key_ctx))
        } else {
            self.sellers_warning_tx_buyer_input_sig_ctx.aggregation_outcome(buyer_key_ctx).and_then(
                self.sellers_warning_tx_seller_input_sig_ctx.aggregation_outcome(seller_key_ctx),
            ).and_then(self.sellers_redirect_tx_input_sig_ctx.aggregation_outcome(seller_key_ctx))
        }
    }

    /// Whether `self` is `pre` after the partial signatures on the own
    /// transactions have been added up.
    pub open spec fn is_sig_aggregation_of(&self, pre: &TradeModel) -> bool {
        let buyer_key_ctx = &pre.buyer_output_key_ctx;
        let seller_key_ctx = &pre.seller_output_key_ctx;
        if pre.spec_am_buyer() {
            &&& self.buyers_warning_tx_buyer_input_sig_ctx.is_sig_aggregation_of(
                &pre.buyers_warning_tx_buyer_input_sig_ctx,
                buyer_key_ctx,
            )
            &&& self.buyers_warning_tx_seller_input_sig_ctx.is_sig_aggregation_of(
                &pre.buyers_warning_tx_seller_input_sig_ctx,
                seller_key_ctx,
            )
            &&& self.buyers_redirect_tx_input_sig_ctx.is_sig_aggregation_of(
                &pre.buyers_redirect_tx_input_sig_ctx,
                buyer_key_ctx,
            )
            &&& self.swap_tx_input_sig_ctx.is_sig_aggregation_of(
                &pre.swap_tx_input_sig_ctx,
                seller_key_ctx,
            )
            &&& *self == (TradeModel {
                buyers_warning_tx_buyer_input_sig_ctx: self.buyers_warning_tx_buyer_input_sig_ctx,
                buyers_warning_tx_seller_input_sig_ctx: self.buyers_warning_tx_seller_input_sig_ctx,
                buyers_redirect_tx_input_sig_ctx: self.buyers_redirect_tx_input_sig_ctx,
                swap_tx_input_sig_ctx: self.swap_tx_input_sig_ctx,
                ..*pre
            })
        } else {
            &&& self.sellers_warning_tx_buyer_input_sig_ctx.is_sig_aggregation_of(
                &pre.sellers_warning_tx_buyer_input_sig_ctx,
                buyer_key_ctx,
            )
            &&& self.sellers_warning_tx_seller_input_sig_ctx.is_sig_aggregation_of(
                &pre.sellers_warning_tx_seller_input_sig_ctx,
                seller_key_ctx,
            )
            &&& self.sellers_redirect_tx_input_sig_ctx.is_sig_aggregation_of(
                &pre.sellers_redirect_tx_input_sig_ctx,
                seller_key_ctx,
            )
            &&& *self == (TradeModel {
                sellers_warning_tx_buyer_input_sig_ctx: self.sellers_warning_tx_buyer_input_sig_ctx,
                sellers_warning_tx_seller_input_sig_ctx:
                    self.sellers_warning_tx_seller_input_sig_ctx,
                sellers_redirect_tx_input_sig_ctx: self.sellers_redirect_tx_input_sig_ctx,
                ..*pre
            })
        }
    }

    /// Whether `self` is `pre` after the partial signatures on the swap
    /// transaction have been added up, under the key of the seller's output.
    pub open spec fn is_swap_sig_aggregation_of(&self, pre: &TradeModel) -> bool {
        &&& self.swap_tx_input_sig_ctx.is_sig_aggregation_of(
            &pre.swap_tx_input_sig_ctx,
            &pre.seller_output_key_ctx,
        )
        &&& *self == pre.with_swap_tx_input_sig_ctx(self.swap_tx_input_sig_ctx)
    }

    /// Whether every signature that the party adds up before the deposit is
    /// there: those on its own warning and redirect transactions, and for
    /// the buyer the adaptor signature on the swap transaction.
    pub open spec fn spec_is_deposit_signed(&self) -> bool {
        if self.spec_am_buyer() {
            &&& self.buyers_warning_tx_buyer_input_sig_ctx.aggregated_sig is Some
            &&& self.buyers_warning_tx_seller_input_sig_ctx.aggregated_sig is Some
            &&& self.buyers_redirect_tx_input_sig_ctx.aggregated_sig is Some
            &&& self.swap_tx_input_sig_ctx.aggregated_sig is Some
        } else {
            &&& self.sellers_warning_tx_buyer_input_sig_ctx.aggregated_sig is Some
            &&& self.sellers_warning_tx_seller_input_sig_ctx.aggregated_sig is Some
            &&& self.sellers_redirect_tx_input_sig_ctx.aggregated_sig is Some
        }
    }

    /// What the seven signing sessions have received from the peer and
    /// added up.
    pub open spec fn spec_received(&self) -> ReceivedOfAll {
        ReceivedOfAll {
            swap_tx_input: self.swap_tx_input_sig_ctx.spec_received(),
            buyers_warning_tx_buyer_input:
                self.buyers_warning_tx_buyer_input_sig_ctx.spec_received(),
            buyers_warning_tx_seller_input:
                self.buyers_warning_tx_seller_input_sig_ctx.spec_received(),
            sellers_warning_tx_buyer_input:
                self.sellers_warning_tx_buyer_input_sig_ctx.spec_received(),
            sellers_warning_tx_seller_input:
                self.sellers_warning_tx_seller_input_sig_ctx.spec_received(),
            buyers_redirect_tx_input: self.buyers_redirect_tx_input_sig_ctx.spec_received(),
            sellers_redirect_tx_input: self.sellers_redirect_tx_input_sig_ctx.spec_received(),
        }
    }

    /// The trade with something else received from the peer and added up in
    /// its seven signing sessions.
    pub open spec fn with_received(self, received: ReceivedOfAll) -> TradeModel {
        TradeModel {
            swap_tx_input_sig_ctx: self.swap_tx_input_sig_ctx.with_received(
                received.swap_tx_input,
            ),
            buyers_warning_tx_buyer_input_sig_ctx:
                self.buyers_warning_tx_buyer_input_sig_ctx.with_received(
                received.buyers_warning_tx_buyer_input,
            ),
            buyers_warning_tx_seller_input_sig_ctx:
                self.buyers_warning_tx_seller_input_sig_ctx.with_received(
                received.buyers_warning_tx_seller_input,
            ),
            sellers_warning_tx_buyer_input_sig_ctx:
                self.sellers_warning_tx_buyer_input_sig_ctx.with_received(
                received.sellers_warning_tx_buyer_input,
            ),
            sellers_warning_tx_seller_input_sig_ctx:
                self.sellers_warning_tx_seller_input_sig_ctx.with_received(
                received.sellers_warning_tx_seller_input,
            ),
            buyers_redirect_tx_input_sig_ctx:
                self.buyers_redirect_tx_input_sig_ctx.with_received(
                received.buyers_redirect_tx_input,
            ),
            sellers_redirect_tx_input_sig_ctx:
                self.sellers_redirect_tx_input_sig_ctx.with_received(
                received.sellers_redirect_tx_input,
            ),
            ..self
        }
    }

    /// Whether one of the seven signing sessions holds a nonce pair.
    pub open spec fn spec_holds_a_nonce_pair(&self) -> bool {
        ||| self.swap_tx_input_sig_ctx.my_nonce_share is Some
        ||| self.buyers_warning_tx_buyer_input_sig_ctx.my_nonce_share is Some
        ||| self.buyers_warning_tx_seller_input_sig_ctx.my_nonce_share is Some
        ||| self.sellers_warning_tx_buyer_input_sig_ctx.my_nonce_share is Some
        ||| self.sellers_warning_tx_seller_input_sig_ctx.my_nonce_share is Some
        ||| self.buyers_redirect_tx_input_sig_ctx.my_nonce_share is Some
        ||| self.sellers_redirect_tx_input_sig_ctx.my_nonce_share is Some
    }

    /// The key context of the own output: the buyer's output for the buyer,
    /// the seller's for the seller.
    pub open spec fn spec_my_key_ctx(&self) -> KeyCtx {
        if self.spec_am_buyer() {
            self.buyer_output_key_ctx
        } else {
            self.seller_output_key_ctx
        }
    }

    /// The key context of the peer's output.
    pub open spec fn spec_peer_key_ctx(&self) -> KeyCtx {
        if self.spec_am_buyer() {
            self.seller_output_key_ctx
        } else {
            self.buyer_output_key_ctx
        }
    }

    /// The private key of the own key share of the peer's output, once the
    /// share is made.
    pub open spec fn spec_my_prv_key_for_peer(&self) -> Option<Scalar> {
        match self.spec_peer_key_ctx().my_key_share {
            Some(pair) => Some(pair.prv_key),
            None => None,
        }
    }

    /// The aggregated public key of the own output, once the key shares are
    /// aggregated.
    pub open spec fn spec_my_aggregated_pub_key(&self) -> Option<Seq<u8>> {
        match self.spec_my_key_ctx().aggregated_key {
            Some(key) => Some(key.pub_key@),
            None => None,
        }
    }

    /// The trade with another key context of the own output.
    pub open spec fn with_my_key_ctx(self, key_ctx: KeyCtx) -> TradeModel {
        if self.spec_am_buyer() {
            TradeModel { buyer_output_key_ctx: key_ctx, ..self }
        } else {
            TradeModel { seller_output_key_ctx: key_ctx, ..self }
        }
    }

    /// The trade with another signing context of the swap transaction.
    pub open spec fn with_swap_tx_input_sig_ctx(self, sig_ctx: SigCtx) -> TradeModel {
        TradeModel { swap_tx_input_sig_ctx: sig_ctx, ..self }
    }

    /// Signs the seven inputs partially, each with its fixed message and
    /// the own key share of the output that it spends. The partial signature
    /// on the swap transaction is made under its adaptor point. A call that
    /// fails changes nothing.
    pub fn sign_partial(&mut self) -> (r: Result<(), ProtocolErrorKind>)
        ensures
            old(self).signing_outcome().is_outcome_of(r),
            r is Err ==> *final(self) == *old(self),
            r is Ok ==> final(self).is_partial_signing_of(old(self)),
    {
        let message_1 = message_bytes("buyer's warning tx buyer input");
        let message_2 = message_bytes("seller's warning tx buyer input");
        let message_3 = message_bytes("buyer's redirect tx input");
        let message_4 = message_bytes("swap tx input");
        let message_5 = message_bytes("buyer's warning tx seller input");
        let message_6 = message_bytes("seller's warning tx seller input");
        let message_7 = message_bytes("seller's redirect tx input");
        let sig_1 = self.buyers_warning_tx_buyer_input_sig_ctx.compute_partial_signature(
            &self.buyer_output_key_ctx,
            message_1.as_slice(),
        )?;
        let sig_2 = self.sellers_warning_tx_buyer_input_sig_ctx.compute_partial_signature(
            &self.buyer_output_key_ctx,
            message_2.as_slice(),
        )?;
        let sig_3 = self.buyers_redirect_tx_input_sig_ctx.compute_partial_signature(
            &self.buyer_output_key_ctx,
            message_3.as_slice(),
        )?;
        let sig_4 = self.swap_tx_input_sig_ctx.compute_partial_signature(
            &self.seller_output_key_ctx,
            message_4.as_slice(),
        )?;
        let sig_5 = self.buyers_warning_tx_seller_input_sig_ctx.compute_partial_signature(
            &self.seller_output_key_ctx,
            message_5.as_slice(),
        )?;
        let sig_6 = self.sellers_warning_tx_seller_input_sig_ctx.compute_partial_signature(
            &self.seller_output_key_ctx,
            message_6.as_slice(),
        )?;
        let sig_7 = self.sellers_redirect_tx_input_sig_ctx.compute_partial_signature(
            &self.seller_output_key_ctx,
            message_7.as_slice(),
        )?;
        self.buyers_warning_tx_buyer_input_sig_ctx.commit_partial_signature(message_1, sig_1);
        self.sellers_warning_tx_buyer_input_sig_ctx.commit_partial_signature(message_2, sig_2);
        self.buyers_redirect_tx_input_sig_ctx.commit_partial_signature(message_3, sig_3);
        self.swap_tx_input_sig_ctx.commit_partial_signature(message_4, sig_4);
        self.buyers_warning_tx_seller_input_sig_ctx.commit_partial_signature(message_5, sig_5);
        self.sellers_warning_tx_seller_input_sig_ctx.commit_partial_signature(message_6, sig_6);
        self.sellers_redirect_tx_input_sig_ctx.commit_partial_signature(message_7, sig_7);
        Ok(())
    }

    /// The own partial signatures on the peer's warning and redirect
    /// transactions and on the swap transaction, once all four are made.
    pub fn get_my_partial_signatures_on_peer_txs(&self) -> (r: Option<ExchangedSigs<'_, ByRef>>)
        ensures
            self.spec_am_buyer() ==> (r is Some
                <==> self.sellers_warning_tx_buyer_input_sig_ctx.my_partial_sig is Some
                && self.sellers_warning_tx_seller_input_sig_ctx.my_partial_sig is Some
                && self.sellers_redirect_tx_input_sig_ctx.my_partial_sig is Some
                && self.swap_tx_input_sig_ctx.my_partial_sig is Some),
            !self.spec_am_buyer() ==> (r is Some
                <==> self.buyers_warning_tx_buyer_input_sig_ctx.my_partial_sig is Some
                && self.buyers_warning_tx_seller_input_sig_ctx.my_partial_sig is Some
                && self.buyers_redirect_tx_input_sig_ctx.my_partial_sig is Some
                && self.swap_tx_input_sig_ctx.my_partial_sig is Some),
            r matches Some(sigs) ==> sigs.swap_tx_input_partial_signature matches Some(sig)
                && *sig == self.swap_tx_input_sig_ctx.my_partial_sig->0,
            self.spec_am_buyer() ==> (r matches Some(sigs)
                ==> *sigs.peers_warning_tx_buyer_input_partial_signature
                == self.sellers_warning_tx_buyer_input_sig_ctx.my_partial_sig->0
                && *sigs.peers_warning_tx_seller_input_partial_signature
                == self.sellers_warning_tx_seller_input_sig_ctx.my_partial_sig->0
                && *sigs.peers_redirect_tx_input_partial_signature
                == self.sellers_redirect_tx_input_sig_ctx.my_partial_sig->0),
            !self.spec_am_buyer() ==> (r matches Some(sigs)
                ==> *sigs.peers_warning_tx_buyer_input_partial_signature
                == self.buyers_warning_tx_buyer_input_sig_ctx.my_partial_sig->0
                && *sigs.peers_warning_tx_seller_input_partial_signature
                == self.buyers_warning_tx_seller_input_sig_ctx.my_partial_sig->0
                && *sigs.peers_redirect_tx_input_partial_signature
                == self.buyers_redirect_tx_input_sig_ctx.my_partial_sig->0),
    {
        let (warning_tx_buyer_input, warning_tx_seller_input, redirect_tx_input) =
            if self.am_buyer() {
            (
                &self.sellers_warning_tx_buyer_input_sig_ctx,
                &self.sellers_warning_tx_seller_input_sig_ctx,
                &self.sellers_redirect_tx_input_sig_ctx,
            )
        } else {
            (
                &self.buyers_warning_tx_buyer_input_sig_ctx,
                &self.buyers_warning_tx_seller_input_sig_ctx,
                &self.buyers_redirect_tx_input_sig_ctx,
            )
        };
        let peers_warning_tx_buyer_input_partial_signature =
            match &warning_tx_buyer_input.my_partial_sig {
            Some(sig) => sig,
            None => return None,
        };
        let peers_warning_tx_seller_input_partial_signature =
            match &warning_tx_seller_input.my_partial_sig {
            Some(sig) => sig,
            None => return None,
        };
        let peers_redirect_tx_input_partial_signature = match &redirect_tx_input.my_partial_sig {
            Some(sig) => sig,
            None => return None,
        };
        let swap_tx_input_partial_signature = match &self.swap_tx_input_sig_ctx.my_partial_sig {
            Some(sig) => sig,
            None => return None,
        };
        Some(
            ExchangedSigs {
                peers_warning_tx_buyer_input_partial_signature,
                peers_warning_tx_seller_input_partial_signature,
                peers_redirect_tx_input_partial_signature,
                swap_tx_input_partial_signature: Some(swap_tx_input_partial_signature),
            },
        )
    }

    /// Sets the peer's partial signatures on the own warning and redirect
    /// transactions, and that on the swap transaction where the peer sent
    /// it: while the peer holds it back, what the trade has of it stays.
    pub fn set_peer_partial_signatures_on_my_txs(&mut self, sigs: &ExchangedSigs<'_, ByVal>)
        ensures
            *final(self) == old(self).with_peer_partial_signatures_on_my_txs(
                sigs.peers_warning_tx_buyer_input_partial_signature,
                sigs.peers_warning_tx_seller_input_partial_signature,
                sigs.peers_redirect_tx_input_partial_signature,
                sigs.swap_tx_input_partial_signature,
            ),
    {
        if self.am_buyer() {
            self.buyers_warning_tx_buyer_input_sig_ctx.peers_partial_sig = Some(
                sigs.peers_warning_tx_buyer_input_partial_signature,
            );
            self.buyers_warning_tx_seller_input_sig_ctx.peers_partial_sig = Some(
                sigs.peers_warning_tx_seller_input_partial_signature,
            );
            self.buyers_redirect_tx_input_sig_ctx.peers_partial_sig = Some(
                sigs.peers_redirect_tx_input_partial_signature,
            );
            if sigs.swap_tx_input_partial_signature.is_some() {
                self.swap_tx_input_sig_ctx.peers_partial_sig =
                    sigs.swap_tx_input_partial_signature;
            }
        } else {
            self.sellers_warning_tx_buyer_input_sig_ctx.peers_partial_sig = Some(
                sigs.peers_warning_tx_buyer_input_partial_signature,
            );
            self.sellers_warning_tx_seller_input_sig_ctx.peers_partial_sig = Some(
                sigs.peers_warning_tx_seller_input_partial_signature,
            );
            self.sellers_redirect_tx_input_sig_ctx.peers_partial_sig = Some(
                sigs.peers_redirect_tx_input_partial_signature,
            );
            if sigs.swap_tx_input_partial_signature.is_some() {
                self.swap_tx_input_sig_ctx.peers_partial_sig =
                    sigs.swap_tx_input_partial_signature;
            }
        }
    }

    /// Adds up the partial signatures on the own warning and redirect
    /// transactions; the buyer also those on the swap transaction, to an
    /// adaptor signature that verifies under the key of the seller's output.
    /// A call that fails changes nothing.
    pub fn aggregate_partial_signatures(&mut self) -> (r: Result<(), ProtocolErrorKind>)
        ensures
            old(self).aggregation_outcome().is_outcome_of(r),
            r is Err ==> *final(self) == *old(self),
            r is Ok ==> final(self).is_sig_aggregation_of(old(self)),
    {
        if self.am_buyer() {
            let sig_1 = self.buyers_warning_tx_buyer_input_sig_ctx.compute_aggregated_signature(
                &self.buyer_output_key_ctx,
            )?;
            let sig_2 = self.buyers_warning_tx_seller_input_sig_ctx.compute_aggregated_signature(
                &self.seller_output_key_ctx,
            )?;
            let sig_3 = self.buyers_redirect_tx_input_sig_ctx.compute_aggregated_signature(
                &self.buyer_output_key_ctx,
            )?;
            let sig_4 = self.swap_tx_input_sig_ctx.compute_aggregated_signature(
                &self.seller_output_key_ctx,
            )?;
            self.buyers_warning_tx_buyer_input_sig_ctx.set_aggregated_signature(sig_1);
            self.buyers_warning_tx_seller_input_sig_ctx.set_aggregated_signature(sig_2);
            self.buyers_redirect_tx_input_sig_ctx.set_aggregated_signature(sig_3);
            self.swap_tx_input_sig_ctx.set_aggregated_signature(sig_4);
        } else {
            let sig_1 = self.sellers_warning_tx_buyer_input_sig_ctx.compute_aggregated_signature(
                &self.buyer_output_key_ctx,
            )?;
            let sig_2 = self.sellers_warning_tx_seller_input_sig_ctx.compute_aggregated_signature(
                &self.seller_output_key_ctx,
            )?;
            let sig_3 = self.sellers_redirect_tx_input_sig_ctx.compute_aggregated_signature(
                &self.seller_output_key_ctx,
            )?;
            self.sellers_warning_tx_buyer_input_sig_ctx.set_aggregated_signature(sig_1);
            self.sellers_warning_tx_seller_input_sig_ctx.set_aggregated_signature(sig_2);
            self.sellers_redirect_tx_input_sig_ctx.set_aggregated_signature(sig_3);
        }
        Ok(())
    }

    /// What the seven signing sessions have received from the peer and
    /// added up.
    pub fn received(&self) -> (r: ReceivedOfAll)
        ensures
            r == self.spec_received(),
    {
        ReceivedOfAll {
            swap_tx_input: self.swap_tx_input_sig_ctx.received(),
            buyers_warning_tx_buyer_input: self.buyers_warning_tx_buyer_input_sig_ctx.received(),
            buyers_warning_tx_seller_input: self.buyers_warning_tx_seller_input_sig_ctx.received(),
            sellers_warning_tx_buyer_input: self.sellers_warning_tx_buyer_input_sig_ctx.received(),
            sellers_warning_tx_seller_input:
                self.sellers_warning_tx_seller_input_sig_ctx.received(),
            buyers_redirect_tx_input: self.buyers_redirect_tx_input_sig_ctx.received(),
            sellers_redirect_tx_input: self.sellers_redirect_tx_input_sig_ctx.received(),
        }
    }

    /// Puts back what the seven signing sessions had received from the peer
    /// and added up before.
    pub fn restore_received(&mut self, received: &ReceivedOfAll)
        ensures
            *final(self) == old(self).with_received(*received),
    {
        self.swap_tx_input_sig_ctx.restore_received(received.swap_tx_input);
        self.buyers_warning_tx_buyer_input_sig_ctx.restore_received(
            received.buyers_warning_tx_buyer_input,
        );
        self.buyers_warning_tx_seller_input_sig_ctx.restore_received(
            received.buyers_warning_tx_seller_input,
        );
        self.sellers_warning_tx_buyer_input_sig_ctx.restore_received(
            received.sellers_warning_tx_buyer_input,
        );
        self.sellers_warning_tx_seller_input_sig_ctx.restore_received(
            received.sellers_warning_tx_seller_input,
        );
        self.buyers_redirect_tx_input_sig_ctx.restore_received(received.buyers_redirect_tx_input);
        self.sellers_redirect_tx_input_sig_ctx.restore_received(
            received.sellers_redirect_tx_input,
        );
    }

    /// The private keys that the key context of the own output has
    /// received or aggregated.
    pub fn received_prv_keys_of_my_output(&self) -> (r: (Option<Scalar>, Option<Scalar>))
        ensures
            r == self.spec_my_key_ctx().spec_received_prv_keys(),
    {
        if self.am_buyer() {
            self.buyer_output_key_ctx.received_prv_keys()
        } else {
            self.seller_output_key_ctx.received_prv_keys()
        }
    }

    /// Puts back private keys that the key context of the own output had
    /// received or aggregated before.
    pub fn restore_received_prv_keys_of_my_output(
        &mut self,
        keys: (Option<Scalar>, Option<Scalar>),
    )
        ensures
            *final(self) == old(self).with_my_key_ctx(
                old(self).spec_my_key_ctx().with_received_prv_keys(keys),
            ),
    {
        if self.am_buyer() {
            self.buyer_output_key_ctx.restore_received_prv_keys(keys);
        } else {
            self.seller_output_key_ctx.restore_received_prv_keys(keys);
        }
    }

    /// Tells whether one of the seven signing sessions holds a nonce pair.
    pub fn holds_a_nonce_pair(&self) -> (r: bool)
        ensures
            r == self.spec_holds_a_nonce_pair(),
    {
        self.swap_tx_input_sig_ctx.my_nonce_share.is_some()
            || self.buyers_warning_tx_buyer_input_sig_ctx.my_nonce_share.is_some()
            || self.buyers_warning_tx_seller_input_sig_ctx.my_nonce_share.is_some()
            || self.sellers_warning_tx_buyer_input_sig_ctx.my_nonce_share.is_some()
            || self.sellers_warning_tx_seller_input_sig_ctx.my_nonce_share.is_some()
            || self.buyers_redirect_tx_input_sig_ctx.my_nonce_share.is_some()
            || self.sellers_redirect_tx_input_sig_ctx.my_nonce_share.is_some()
    }

    /// Tells whether the deposit can be published: whether every signature
    /// that the party adds up before is there.
    pub fn is_deposit_signed(&self) -> (r: bool)
        ensures
            r == self.spec_is_deposit_signed(),
    {
        if self.am_buyer() {
            self.buyers_warning_tx_buyer_input_sig_ctx.aggregated_sig.is_some()
                && self.buyers_warning_tx_seller_input_sig_ctx.aggregated_sig.is_some()
                && self.buyers_redirect_tx_input_sig_ctx.aggregated_sig.is_some()
                && self.swap_tx_input_sig_ctx.aggregated_sig.is_some()
        } else {
            self.sellers_warning_tx_buyer_input_sig_ctx.aggregated_sig.is_some()
                && self.sellers_warning_tx_seller_input_sig_ctx.aggregated_sig.is_some()
                && self.sellers_redirect_tx_input_sig_ctx.aggregated_sig.is_some()
        }
    }

    /// Sets the peer's partial signature on the swap transaction.
    pub fn set_swap_tx_input_peers_partial_signature(&mut self, sig: PartialSignature)
        ensures
            *final(self) == old(self).with_swap_tx_input_sig_ctx(
                old(self).swap_tx_input_sig_ctx.with_peers_partial_sig(Some(sig)),
            ),
    {
        self.swap_tx_input_sig_ctx.peers_partial_sig = Some(sig);
    }

    /// Adds up the partial signatures on the swap transaction under the key
    /// of the seller's output, for which they were made, whatever the role.
    /// A call that fails changes nothing.
    pub fn aggregate_swap_tx_partial_signatures(&mut self) -> (r: Result<(), ProtocolErrorKind>)
        ensures
            old(self).swap_tx_input_sig_ctx.aggregation_outcome(
                &old(self).seller_output_key_ctx,
            ).is_outcome_of(r),
            r is Err ==> *final(self) == *old(self),
            r is Ok ==> final(self).is_swap_sig_aggregation_of(old(self)),
    {
        self.swap_tx_input_sig_ctx.aggregate_partial_signatures(&self.seller_output_key_ctx)?;
        Ok(())
    }

    /// The private key of the own key share of the peer's output: what the
    /// peer needs to spend its output alone. In a well-formed trade, what
    /// the seller releases is the secret of the adaptor point of the swap
    /// transaction.
    pub fn get_my_private_key_share_for_peer_output(&self) -> (r: Option<&Scalar>)
        ensures
            r is Some <==> self.spec_my_prv_key_for_peer() is Some,
            r matches Some(prv_key) ==> Some(*prv_key) == self.spec_my_prv_key_for_peer(),
            r matches Some(prv_key) ==> (self.well_formed() && !self.spec_am_buyer()
                ==> self.swap_tx_input_sig_ctx.adaptor_point@ == Some(
                crate::curve::spec_base_point_mul(prv_key@),
            )),
    {
        let peer_key_ctx = if self.am_buyer() {
            &self.seller_output_key_ctx
        } else {
            &self.buyer_output_key_ctx
        };
        match &peer_key_ctx.my_key_share {
            Some(pair) => Some(&pair.prv_key),
            None => None,
        }
    }

    /// Sets the private key of the peer's key share of the own output, if
    /// it is the private key of the public key that the peer gave before. A
    /// call that fails changes nothing.
    pub fn set_peer_private_key_share_for_my_output(&mut self, prv_key_share: Scalar) -> (r:
        Result<(), ProtocolErrorKind>)
        ensures
            old(self).spec_my_key_ctx().peers_prv_key_outcome(prv_key_share).is_outcome_of(r),
            r is Err ==> *final(self) == *old(self),
            r is Ok ==> *final(self) == old(self).with_my_key_ctx(
                old(self).spec_my_key_ctx().with_peers_prv_key(prv_key_share),
            ),
    {
        if self.am_buyer() {
            match &mut self.buyer_output_key_ctx.peers_key_share {
                Some(share) => {
                    share.set_prv_key(prv_key_share)?;
                },
                None => return Err(ProtocolErrorKind::MissingKeyShare),
            }
        } else {
            match &mut self.seller_output_key_ctx.peers_key_share {
                Some(share) => {
                    share.set_prv_key(prv_key_share)?;
                },
                None => return Err(ProtocolErrorKind::MissingKeyShare),
            }
        }
        Ok(())
    }

    /// Aggregates the private key shares of the own output to the private
    /// key of its aggregated key. A call that fails changes nothing.
    pub fn aggregate_private_keys_for_my_output(&mut self) -> (r: Result<Scalar, ProtocolErrorKind>)
        ensures
            old(self).spec_my_key_ctx().prv_key_aggregation_outcome().is_outcome_of(r),
            r is Err ==> *final(self) == *old(self),
            r matches Ok(k) ==> old(self).spec_my_key_ctx().spec_aggregated_prv_key() == Some(k@),
            r matches Ok(k) ==> old(self).spec_my_aggregated_pub_key() == Some(
                crate::curve::spec_base_point_mul(k@),
            ),
            r matches Ok(k) ==> *final(self) == old(self).with_my_key_ctx(
                old(self).spec_my_key_ctx().with_aggregated_prv_key(k),
            ),
    {
        if self.am_buyer() {
            self.buyer_output_key_ctx.aggregate_prv_key_shares()
        } else {
            self.seller_output_key_ctx.aggregate_prv_key_shares()
        }
    }
}

/// The message that stands for the buyer's input of the buyer's warning
/// transaction.
pub open spec fn buyers_warning_tx_buyer_input_message() -> Seq<u8> {
    "buyer's warning tx buyer input".spec_bytes()
}

/// The message that stands for the seller's input of the buyer's warning
/// transaction.
pub open spec fn buyers_warning_tx_seller_input_message() -> Seq<u8> {
    "buyer's warning tx seller input".spec_bytes()
}

/// The message that stands for the buyer's input of the seller's warning
/// transaction.
pub open spec fn sellers_warning_tx_buyer_input_message() -> Seq<u8> {
    "seller's warning tx buyer input".spec_bytes()
}

/// The message that stands for the seller's input of the seller's warning
/// transaction.
pub open spec fn sellers_warning_tx_seller_input_message() -> Seq<u8> {
    "seller's warning tx seller input".spec_bytes()
}

/// The message that stands for the input of the buyer's redirect
/// transaction.
pub open spec fn buyers_redirect_tx_input_message() -> Seq<u8> {
    "buyer's redirect tx input".spec_bytes()
}

/// The message that stands for the input of the seller's redirect
/// transaction.
pub open spec fn sellers_redirect_tx_input_message() -> Seq<u8> {
    "seller's redirect tx input".spec_bytes()
}

/// The message that stands for the input of the swap transaction.
pub open spec fn swap_tx_input_message() -> Seq<u8> {
    "swap tx input".spec_bytes()
}

/// The bytes of a text.
fn message_bytes(text: &str) -> (r: Vec<u8>)
    ensures
        r@ == text.spec_bytes(),
{
    slice_to_vec(text.as_bytes())
}

/// The bytes of the seven nonce seeds.
pub struct NonceSeedBytes {
    pub swap_tx_input: Seq<u8>,
    pub buyers_warning_tx_buyer_input: Seq<u8>,
    pub buyers_warning_tx_seller_input: Seq<u8>,
    pub sellers_warning_tx_buyer_input: Seq<u8>,
    pub sellers_warning_tx_seller_input: Seq<u8>,
    pub buyers_redirect_tx_input: Seq<u8>,
    pub sellers_redirect_tx_input: Seq<u8>,
}

impl NonceSeedBytes {
    /// The stand-in seeds: 32 zero bytes each.
    pub open spec fn zero() -> NonceSeedBytes {
        NonceSeedBytes {
            swap_tx_input: zero_seed(),
            buyers_warning_tx_buyer_input: zero_seed(),
            buyers_warning_tx_seller_input: zero_seed(),
            sellers_warning_tx_buyer_input: zero_seed(),
            sellers_warning_tx_seller_input: zero_seed(),
            buyers_redirect_tx_input: zero_seed(),
            sellers_redirect_tx_input: zero_seed(),
        }
    }
}

impl View for NonceSeeds {
    type V = NonceSeedBytes;

    open spec fn view(&self) -> NonceSeedBytes {
        NonceSeedBytes {
            swap_tx_input: self.swap_tx_input@,
            buyers_warning_tx_buyer_input: self.buyers_warning_tx_buyer_input@,
            buyers_warning_tx_seller_input: self.buyers_warning_tx_seller_input@,
            sellers_warning_tx_buyer_input: self.sellers_warning_tx_buyer_input@,
            sellers_warning_tx_seller_input: self.sellers_warning_tx_seller_input@,
            buyers_redirect_tx_input: self.buyers_redirect_tx_input@,
            sellers_redirect_tx_input: self.sellers_redirect_tx_input@,
        }
    }
}

impl NonceSeeds {
    /// The stand-in seeds: 32 zero bytes each.
    pub fn zero() -> (r: NonceSeeds)
        ensures
            r@ == NonceSeedBytes::zero(),
    {
        let r = NonceSeeds {
            swap_tx_input: [0u8; 32],
            buyers_warning_tx_buyer_input: [0u8; 32],
            buyers_warning_tx_seller_input: [0u8; 32],
            sellers_warning_tx_buyer_input: [0u8; 32],
            sellers_warning_tx_seller_input: [0u8; 32],
            buyers_redirect_tx_input: [0u8; 32],
            sellers_redirect_tx_input: [0u8; 32],
        };
        assert(r.swap_tx_input@ =~= zero_seed());
        assert(r.buyers_warning_tx_buyer_input@ =~= zero_seed());
        assert(r.buyers_warning_tx_seller_input@ =~= zero_seed());
        assert(r.sellers_warning_tx_buyer_input@ =~= zero_seed());
        assert(r.sellers_warning_tx_seller_input@ =~= zero_seed());
        assert(r.buyers_redirect_tx_input@ =~= zero_seed());
        assert(r.sellers_redirect_tx_input@ =~= zero_seed());
        r
    }
}

} // verus!
