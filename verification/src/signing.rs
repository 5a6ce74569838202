use crate::curve::{
    has_infinity_part, spec_adaptor_signature_verifies, spec_agg_nonce, spec_aggregated_signature,
    spec_base_point_mul, spec_partial_signature, spec_public_nonce, spec_revealed_secret,
    spec_sec_nonce,
};
use crate::curve::{
    AdaptorSignature, AggNonce, MaybePoint, PartialSignature, Point, PubNonce, Scalar, SecNonce,
};
use crate::error::{ProtocolErrorKind, StepOutcome};
use crate::keys::KeyCtx;
use vstd::prelude::*;

verus! {

/// A public nonce with its secret nonce, which is there until it is used.
pub struct NoncePair {
    pub pub_nonce: PubNonce,
    pub sec_nonce: Option<SecNonce>,
}

/// The seed of the stand-in nonces: 32 zero bytes.
pub open spec fn zero_seed() -> Seq<u8> {
    Seq::new(32, |i: int| 0u8)
}

impl NoncePair {
    /// Whether this is the fresh nonce pair of a seed and an aggregated key.
    pub open spec fn is_fresh_for(&self, seed: Seq<u8>, aggregated_pub_key: Point) -> bool {
        &&& self.sec_nonce matches Some(sec_nonce)
        &&& sec_nonce@ == spec_sec_nonce(seed, aggregated_pub_key@)
        &&& self.pub_nonce@ == spec_public_nonce(sec_nonce@)
    }

    /// The pair without its secret nonce.
    pub open spec fn used(self) -> NoncePair {
        NoncePair { pub_nonce: self.pub_nonce, sec_nonce: None }
    }

    /// Builds the nonce pair for a seed, bound to an aggregated public key.
    pub fn new(nonce_seed: &[u8; 32], aggregated_pub_key: &Point) -> (r: NoncePair)
        ensures
            r.is_fresh_for(nonce_seed@, *aggregated_pub_key),
    {
        let sec_nonce = SecNonce::build(nonce_seed, aggregated_pub_key);
        NoncePair { pub_nonce: sec_nonce.public_nonce(), sec_nonce: Some(sec_nonce) }
    }
}

/// How far a signing session has come.
#[derive(Clone, Copy, Debug, PartialEq, Eq, Structural)]
pub enum Stage {
    /// Nothing has been made yet.
    Empty,
    /// The own nonce pair has been made.
    Nonced,
    /// The nonces have been added up.
    AggNonced,
    /// The own partial signature has been made.
    PartiallySigned,
    /// The partial signatures have been added up.
    Aggregated,
}

impl Stage {
    /// The place of the stage in the order of the stages.
    pub open spec fn rank(self) -> nat {
        match self {
            Stage::Empty => 0,
            Stage::Nonced => 1,
            Stage::AggNonced => 2,
            Stage::PartiallySigned => 3,
            Stage::Aggregated => 4,
        }
    }
}

/// What a signing session has received from the peer and added up.
#[derive(Clone, Copy)]
pub struct Received {
    pub peers_nonce_share: Option<PubNonce>,
    pub aggregated_nonce: Option<AggNonce>,
    pub peers_partial_sig: Option<PartialSignature>,
    pub aggregated_sig: Option<AdaptorSignature>,
}

/// The signing session for one transaction input: nonces, the message, the
/// two partial signatures and what they add up to.
pub struct SigCtx {
    pub am_buyer: bool,
    pub adaptor_point: MaybePoint,
    pub my_nonce_share: Option<NoncePair>,
    pub peers_nonce_share: Option<PubNonce>,
    pub aggregated_nonce: Option<AggNonce>,
    pub message: Option<Vec<u8>>,
    pub my_partial_sig: Option<PartialSignature>,
    pub peers_partial_sig: Option<PartialSignature>,
    pub aggregated_sig: Option<AdaptorSignature>,
}

impl SigCtx {
    /// How far the session has come: the last thing that it holds.
    pub open spec fn spec_stage(&self) -> Stage {
        if self.aggregated_sig is Some {
            Stage::Aggregated
        } else if self.my_partial_sig is Some {
            Stage::PartiallySigned
        } else if self.aggregated_nonce is Some {
            Stage::AggNonced
        } else if self.my_nonce_share is Some {
            Stage::Nonced
        } else {
            Stage::Empty
        }
    }

    /// The two public nonces in the order of aggregation: the buyer's
    /// first. `None` until both are there.
    pub open spec fn spec_nonce_shares(&self) -> Option<(PubNonce, PubNonce)> {
        if self.my_nonce_share is Some && self.peers_nonce_share is Some {
            let mine = self.my_nonce_share->0.pub_nonce;
            let peers = self.peers_nonce_share->0;
            if self.am_buyer {
                Some((mine, peers))
            } else {
                Some((peers, mine))
            }
        } else {
            None
        }
    }

    /// The two partial signatures in the order of aggregation: the buyer's
    /// first. `None` until both are there.
    pub open spec fn spec_partial_signatures(&self) -> Option<
        (PartialSignature, PartialSignature),
    > {
        if self.my_partial_sig is Some && self.peers_partial_sig is Some {
            let mine = self.my_partial_sig->0;
            let peers = self.peers_partial_sig->0;
            if self.am_buyer {
                Some((mine, peers))
            } else {
                Some((peers, mine))
            }
        } else {
            None
        }
    }

    /// How adding up the partial signatures under the keys of `key_ctx`
    /// ends.
    pub open spec fn aggregation_outcome(&self, key_ctx: &KeyCtx) -> StepOutcome {
        if self.aggregate_prerequisite_error(key_ctx) is Some {
            StepOutcome::Refused(self.aggregate_prerequisite_error(key_ctx)->0)
        } else if self.spec_aggregated_sig(key_ctx) is None {
            StepOutcome::VerificationFailed
        } else {
            StepOutcome::Done
        }
    }

    /// The empty context for the buyer's or the seller's side.
    pub open spec fn spec_new(am_buyer: bool) -> SigCtx {
        SigCtx {
            am_buyer,
            adaptor_point: MaybePoint::Infinity,
            my_nonce_share: None,
            peers_nonce_share: None,
            aggregated_nonce: None,
            message: None,
            my_partial_sig: None,
            peers_partial_sig: None,
            aggregated_sig: None,
        }
    }

    /// The context with another adaptor point.
    pub open spec fn with_adaptor_point(self, adaptor_point: MaybePoint) -> SigCtx {
        SigCtx { adaptor_point, ..self }
    }

    /// The context with another public nonce of the peer.
    pub open spec fn with_peers_nonce_share(self, nonce: PubNonce) -> SigCtx {
        SigCtx { peers_nonce_share: Some(nonce), ..self }
    }

    /// The context with another partial signature of the peer, or none.
    pub open spec fn with_peers_partial_sig(self, sig: Option<PartialSignature>) -> SigCtx {
        SigCtx { peers_partial_sig: sig, ..self }
    }

    /// The context with another partial signature of the peer, where there
    /// is one, and as it is where there is none.
    pub open spec fn with_peers_partial_sig_if_some(self, sig: Option<PartialSignature>) -> SigCtx {
        if sig is Some {
            self.with_peers_partial_sig(sig)
        } else {
            self
        }
    }

    /// The context with another own nonce pair.
    pub open spec fn with_my_nonce_share(self, pair: Option<NoncePair>) -> SigCtx {
        SigCtx { my_nonce_share: pair, ..self }
    }

    /// The context with another aggregated nonce.
    pub open spec fn with_aggregated_nonce(self, nonce: Option<AggNonce>) -> SigCtx {
        SigCtx { aggregated_nonce: nonce, ..self }
    }

    /// The context with another aggregated signature.
    pub open spec fn with_aggregated_sig(self, sig: Option<AdaptorSignature>) -> SigCtx {
        SigCtx { aggregated_sig: sig, ..self }
    }

    /// The context after its secret nonce has been used.
    pub open spec fn with_nonce_used(self) -> SigCtx {
        SigCtx { my_nonce_share: Some(self.my_nonce_share->0.used()), ..self }
    }

    /// The context after it has signed `message`.
    pub open spec fn signed(self, message: Vec<u8>, sig: PartialSignature) -> SigCtx {
        SigCtx { message: Some(message), my_partial_sig: Some(sig), ..self.with_nonce_used() }
    }

    /// What stands in the way of a partial signature: the first thing that
    /// is missing, in the order in which it is looked for.
    pub open spec fn sign_prerequisite_error(&self, key_ctx: &KeyCtx) -> Option<ProtocolErrorKind> {
        if key_ctx.key_agg_ctx is None {
            Some(ProtocolErrorKind::MissingAggPubKey)
        } else if key_ctx.my_key_share is None {
            Some(ProtocolErrorKind::MissingKeyShare)
        } else if self.my_nonce_share is None {
            Some(ProtocolErrorKind::MissingNonceShare)
        } else if self.my_nonce_share->0.sec_nonce is None {
            Some(ProtocolErrorKind::NonceReuse)
        } else if self.aggregated_nonce is None {
            Some(ProtocolErrorKind::MissingAggNonce)
        } else {
            None
        }
    }

    /// The partial signature that this context makes on `message` with the
    /// keys of `key_ctx`, where nothing is missing; `None` where signing
    /// fails.
    pub open spec fn spec_partial_sig(&self, key_ctx: &KeyCtx, message: Seq<u8>) -> Option<
        Seq<u8>,
    > {
        spec_partial_signature(
            key_ctx.key_agg_ctx->0.spec_first()@,
            key_ctx.key_agg_ctx->0.spec_second()@,
            key_ctx.my_key_share->0.prv_key@,
            self.my_nonce_share->0.sec_nonce->0@,
            self.aggregated_nonce->0@,
            self.adaptor_point@,
            message,
        )
    }

    /// How signing `message` with the keys of `key_ctx` ends.
    pub open spec fn signing_outcome(&self, key_ctx: &KeyCtx, message: Seq<u8>) -> StepOutcome {
        if self.sign_prerequisite_error(key_ctx) is Some {
            StepOutcome::Refused(self.sign_prerequisite_error(key_ctx)->0)
        } else if self.spec_partial_sig(key_ctx, message) is None {
            StepOutcome::SigningFailed
        } else {
            StepOutcome::Done
        }
    }

    /// What stands in the way of aggregating the partial signatures: the
    /// first thing that is missing, in the order in which it is looked for.
    pub open spec fn aggregate_prerequisite_error(&self, key_ctx: &KeyCtx) -> Option<
        ProtocolErrorKind,
    > {
        if key_ctx.key_agg_ctx is None {
            Some(ProtocolErrorKind::MissingAggPubKey)
        } else if self.aggregated_nonce is None {
            Some(ProtocolErrorKind::MissingAggNonce)
        } else if self.spec_partial_signatures() is None {
            Some(ProtocolErrorKind::MissingPartialSig)
        } else if self.message is None {
            Some(ProtocolErrorKind::MissingPartialSig)
        } else {
            None
        }
    }

    /// The adaptor signature that the two partial signatures add up to
    /// under the keys of `key_ctx`, where nothing is missing; `None` where
    /// it does not verify.
    pub open spec fn spec_aggregated_sig(&self, key_ctx: &KeyCtx) -> Option<Seq<u8>> {
        let (first_sig, second_sig) = self.spec_partial_signatures()->0;
        spec_aggregated_signature(
            key_ctx.key_agg_ctx->0.spec_first()@,
            key_ctx.key_agg_ctx->0.spec_second()@,
            self.aggregated_nonce->0@,
            self.adaptor_point@,
            first_sig@,
            second_sig@,
            self.message->0@,
        )
    }

    /// Whether `self` is `pre` after it has made its nonce pair from `seed`
    /// for the aggregated key of `key_ctx`.
    pub open spec fn is_nonce_init_of(
        &self,
        pre: &SigCtx,
        key_ctx: &KeyCtx,
        seed: Seq<u8>,
    ) -> bool {
        &&& pre.nonce_init_outcome(key_ctx) is Done
        &&& self.my_nonce_share matches Some(pair)
        &&& pair.is_fresh_for(seed, key_ctx.aggregated_key->0.pub_key)
        &&& *self == pre.with_my_nonce_share(Some(pair))
    }

    /// How making the own nonce pair ends: it is made once, for a key that
    /// has been aggregated.
    pub open spec fn nonce_init_outcome(&self, key_ctx: &KeyCtx) -> StepOutcome {
        if key_ctx.aggregated_key is None {
            StepOutcome::Refused(ProtocolErrorKind::MissingAggPubKey)
        } else if self.my_nonce_share is Some {
            StepOutcome::Refused(ProtocolErrorKind::NonceReuse)
        } else {
            StepOutcome::Done
        }
    }

    /// Whether the secret nonce of the context has been used up.
    pub open spec fn nonce_is_spent(&self) -> bool {
        self.my_nonce_share is Some && self.my_nonce_share->0.sec_nonce is None
    }

    /// What holds of a signing context from its making on, whatever steps
    /// are taken: it has no partial signature of its own but with the
    /// message it signs and from a secret nonce that is used up.
    pub open spec fn well_formed(&self) -> bool {
        self.my_partial_sig is Some ==> self.nonce_is_spent() && self.message is Some
    }

    /// Whether `self` can be what `pre` has become by steps of the
    /// protocol: what `pre` holds of its own making is still there. The
    /// nonce pair is the same, with its secret nonce or without; the own
    /// partial signature and its message are the same; the sums are there,
    /// perhaps made anew.
    pub open spec fn follows(&self, pre: &SigCtx) -> bool {
        &&& self.am_buyer == pre.am_buyer
        &&& pre.my_nonce_share is Some ==> self.my_nonce_share is Some
            && self.my_nonce_share->0.pub_nonce == pre.my_nonce_share->0.pub_nonce && (
        self.my_nonce_share->0.sec_nonce == pre.my_nonce_share->0.sec_nonce
            || self.my_nonce_share->0.sec_nonce is None)
        &&& pre.aggregated_nonce is Some ==> self.aggregated_nonce is Some
        &&& pre.my_partial_sig is Some ==> self.my_partial_sig == pre.my_partial_sig
            && self.message == pre.message
        &&& pre.aggregated_sig is Some ==> self.aggregated_sig is Some
    }

    /// The sum of the two public nonces, where both are there.
    pub open spec fn spec_aggregated_nonce(&self) -> Seq<u8> {
        let (first, second) = self.spec_nonce_shares()->0;
        spec_agg_nonce(first@, second@)
    }

    /// How adding up the two public nonces ends: a sum with a point at
    /// infinity is refused.
    pub open spec fn nonce_aggregation_outcome(&self) -> StepOutcome {
        if self.spec_nonce_shares() is None {
            StepOutcome::Refused(ProtocolErrorKind::MissingKeyShare)
        } else if has_infinity_part(self.spec_aggregated_nonce()) {
            StepOutcome::AggNonceIsZero
        } else {
            StepOutcome::Done
        }
    }

    /// Whether `self` is `pre` after it has added up its two public nonces.
    pub open spec fn is_nonce_aggregation_of(&self, pre: &SigCtx) -> bool {
        &&& pre.nonce_aggregation_outcome() is Done
        &&& self.aggregated_nonce matches Some(nonce)
        &&& nonce@ == pre.spec_aggregated_nonce()
        &&& *self == pre.with_aggregated_nonce(Some(nonce))
    }

    /// Whether `self` is `pre` after it has signed `message` with the keys
    /// of `key_ctx`.
    pub open spec fn is_partial_signing_of(
        &self,
        pre: &SigCtx,
        key_ctx: &KeyCtx,
        message: Seq<u8>,
    ) -> bool {
        &&& pre.sign_prerequisite_error(key_ctx) is None
        &&& self.message matches Some(kept)
        &&& kept@ == message
        &&& self.my_partial_sig matches Some(sig)
        &&& pre.spec_partial_sig(key_ctx, message) == Some(sig@)
        &&& *self == pre.signed(kept, sig)
    }

    /// Whether `self` is `pre` after it has added up its two partial
    /// signatures under the keys of `key_ctx`, to a signature that verifies
    /// under the aggregated key of `key_ctx`.
    pub open spec fn is_sig_aggregation_of(&self, pre: &SigCtx, key_ctx: &KeyCtx) -> bool {
        &&& pre.aggregate_prerequisite_error(key_ctx) is None
        &&& self.aggregated_sig matches Some(sig)
        &&& pre.spec_aggregated_sig(key_ctx) == Some(sig@)
        &&& spec_adaptor_signature_verifies(
            key_ctx.key_agg_ctx->0.spec_aggregated_pubkey()@,
            sig@,
            pre.message->0@,
            pre.adaptor_point@,
        )
        &&& *self == pre.with_aggregated_sig(Some(sig))
    }

    /// An empty context for the buyer's or the seller's side, with the
    /// point at infinity for its adaptor point.
    pub fn new(am_buyer: bool) -> (r: SigCtx)
        ensures
            r == SigCtx::spec_new(am_buyer),
    {
        SigCtx {
            am_buyer,
            adaptor_point: MaybePoint::Infinity,
            my_nonce_share: None,
            peers_nonce_share: None,
            aggregated_nonce: None,
            message: None,
            my_partial_sig: None,
            peers_partial_sig: None,
            aggregated_sig: None,
        }
    }

    /// Tells what stands in the way of making the own nonce pair, if
    /// anything.
    pub fn check_nonce_init(&self, key_ctx: &KeyCtx) -> (r: Result<(), ProtocolErrorKind>)
        ensures
            self.nonce_init_outcome(key_ctx).is_outcome_of(r),
    {
        if key_ctx.aggregated_key.is_none() {
            return Err(ProtocolErrorKind::MissingAggPubKey);
        }
        if self.my_nonce_share.is_some() {
            return Err(ProtocolErrorKind::NonceReuse);
        }
        Ok(())
    }

    /// Makes the own nonce pair from a seed, bound to the aggregated key of
    /// `key_ctx`. The seed must be fresh random bytes for every context. A
    /// context makes its nonce pair once: where it holds one, the call is
    /// refused. A call that fails changes nothing.
    pub fn init_my_nonce_share_with(&mut self, key_ctx: &KeyCtx, nonce_seed: &[u8; 32]) -> (r:
        Result<(), ProtocolErrorKind>)
        ensures
            old(self).nonce_init_outcome(key_ctx).is_outcome_of(r),
            r is Err ==> *final(self) == *old(self),
            r is Ok ==> final(self).is_nonce_init_of(old(self), key_ctx, nonce_seed@),
    {
        self.check_nonce_init(key_ctx)?;
        let aggregated_pub_key = match &key_ctx.aggregated_key {
            Some(key) => key.pub_key,
            None => return Err(ProtocolErrorKind::MissingAggPubKey),
        };
        self.my_nonce_share = Some(NoncePair::new(nonce_seed, &aggregated_pub_key));
        Ok(())
    }

    /// Makes the own nonce pair from the stand-in seed of 32 zero bytes,
    /// once. A call that fails changes nothing.
    pub fn init_my_nonce_share(&mut self, key_ctx: &KeyCtx) -> (r: Result<(), ProtocolErrorKind>)
        ensures
            old(self).nonce_init_outcome(key_ctx).is_outcome_of(r),
            r is Err ==> *final(self) == *old(self),
            r is Ok ==> final(self).is_nonce_init_of(old(self), key_ctx, zero_seed()),
    {
        let seed = [0u8; 32];
        assert(seed@ =~= zero_seed());
        self.init_my_nonce_share_with(key_ctx, &seed)
    }

    /// What the session has received from the peer and added up.
    pub open spec fn spec_received(&self) -> Received {
        Received {
            peers_nonce_share: self.peers_nonce_share,
            aggregated_nonce: self.aggregated_nonce,
            peers_partial_sig: self.peers_partial_sig,
            aggregated_sig: self.aggregated_sig,
        }
    }

    /// The context with something else received from the peer and added
    /// up.
    pub open spec fn with_received(self, received: Received) -> SigCtx {
        SigCtx {
            peers_nonce_share: received.peers_nonce_share,
            aggregated_nonce: received.aggregated_nonce,
            peers_partial_sig: received.peers_partial_sig,
            aggregated_sig: received.aggregated_sig,
            ..self
        }
    }

    /// What the session has received from the peer and added up.
    pub fn received(&self) -> (r: Received)
        ensures
            r == self.spec_received(),
    {
        Received {
            peers_nonce_share: self.peers_nonce_share,
            aggregated_nonce: self.aggregated_nonce,
            peers_partial_sig: self.peers_partial_sig,
            aggregated_sig: self.aggregated_sig,
        }
    }

    /// Puts back what the session had received from the peer and added up
    /// before.
    pub fn restore_received(&mut self, received: Received)
        ensures
            *final(self) == old(self).with_received(received),
    {
        self.peers_nonce_share = received.peers_nonce_share;
        self.aggregated_nonce = received.aggregated_nonce;
        self.peers_partial_sig = received.peers_partial_sig;
        self.aggregated_sig = received.aggregated_sig;
    }

    /// Tells how far the session has come.
    pub fn stage(&self) -> (r: Stage)
        ensures
            r == self.spec_stage(),
    {
        if self.aggregated_sig.is_some() {
            Stage::Aggregated
        } else if self.my_partial_sig.is_some() {
            Stage::PartiallySigned
        } else if self.aggregated_nonce.is_some() {
            Stage::AggNonced
        } else if self.my_nonce_share.is_some() {
            Stage::Nonced
        } else {
            Stage::Empty
        }
    }

    /// The two public nonces in the order of aggregation.
    pub fn get_nonce_shares(&self) -> (r: Option<(PubNonce, PubNonce)>)
        ensures
            r == self.spec_nonce_shares(),
    {
        let mine = match &self.my_nonce_share {
            Some(pair) => pair.pub_nonce,
            None => return None,
        };
        let peers = match &self.peers_nonce_share {
            Some(nonce) => *nonce,
            None => return None,
        };
        if self.am_buyer {
            Some((mine, peers))
        } else {
            Some((peers, mine))
        }
    }

    /// The sum of the own and the peer's public nonce, unless one of its
    /// points is the point at infinity. The context stays as it is.
    pub fn compute_aggregated_nonce(&self) -> (r: Result<AggNonce, ProtocolErrorKind>)
        ensures
            self.nonce_aggregation_outcome().is_outcome_of(r),
            r matches Ok(nonce) ==> self.with_aggregated_nonce(Some(nonce)).is_nonce_aggregation_of(
                self,
            ),
    {
        let (first, second) = match self.get_nonce_shares() {
            Some(shares) => shares,
            None => return Err(ProtocolErrorKind::MissingKeyShare),
        };
        let nonce = AggNonce::sum(&first, &second);
        if nonce.has_infinity_part() {
            return Err(ProtocolErrorKind::ZeroAggNonce);
        }
        Ok(nonce)
    }

    /// Keeps an aggregated nonce.
    pub fn set_aggregated_nonce(&mut self, nonce: AggNonce)
        ensures
            *final(self) == old(self).with_aggregated_nonce(Some(nonce)),
    {
        self.aggregated_nonce = Some(nonce);
    }

    /// Adds up the own and the peer's public nonce, and keeps the sum unless
    /// one of its points is the point at infinity. A call that fails
    /// changes nothing.
    pub fn aggregate_nonce_shares(&mut self) -> (r: Result<(), ProtocolErrorKind>)
        ensures
            old(self).nonce_aggregation_outcome().is_outcome_of(r),
            r is Err ==> *final(self) == *old(self),
            r is Ok ==> final(self).is_nonce_aggregation_of(old(self)),
    {
        let nonce = self.compute_aggregated_nonce()?;
        self.set_aggregated_nonce(nonce);
        Ok(())
    }

    /// Tells what stands in the way of a partial signature, if anything.
    pub fn check_sign_prerequisites(&self, key_ctx: &KeyCtx) -> (r: Result<(), ProtocolErrorKind>)
        ensures
            self.sign_prerequisite_error(key_ctx) matches Some(e) ==> r == Err::<
                (),
                ProtocolErrorKind,
            >(e),
            self.sign_prerequisite_error(key_ctx) is None ==> r is Ok,
    {
        if key_ctx.key_agg_ctx.is_none() {
            return Err(ProtocolErrorKind::MissingAggPubKey);
        }
        if key_ctx.my_key_share.is_none() {
            return Err(ProtocolErrorKind::MissingKeyShare);
        }
        match &self.my_nonce_share {
            Some(pair) => {
                if pair.sec_nonce.is_none() {
                    return Err(ProtocolErrorKind::NonceReuse);
                }
            },
            None => return Err(ProtocolErrorKind::MissingNonceShare),
        }
        if self.aggregated_nonce.is_none() {
            return Err(ProtocolErrorKind::MissingAggNonce);
        }
        Ok(())
    }

    /// The partial signature that this context makes on `message` with the
    /// own key share of `key_ctx`, if nothing is missing and signing
    /// succeeds. The context stays as it is, its secret nonce too.
    pub fn compute_partial_signature(&self, key_ctx: &KeyCtx, message: &[u8]) -> (r: Result<
        PartialSignature,
        ProtocolErrorKind,
    >)
        ensures
            self.signing_outcome(key_ctx, message@).is_outcome_of(r),
            r matches Ok(sig) ==> self.spec_partial_sig(key_ctx, message@) == Some(sig@),
    {
        match self.check_sign_prerequisites(key_ctx) {
            Ok(()) => {},
            Err(e) => return Err(e),
        }
        let key_agg_ctx = match &key_ctx.key_agg_ctx {
            Some(ctx) => ctx,
            None => return Err(ProtocolErrorKind::MissingAggPubKey),
        };
        let seckey = match &key_ctx.my_key_share {
            Some(pair) => pair.prv_key,
            None => return Err(ProtocolErrorKind::MissingKeyShare),
        };
        let sec_nonce = match &self.my_nonce_share {
            Some(pair) => match &pair.sec_nonce {
                Some(sec_nonce) => sec_nonce,
                None => return Err(ProtocolErrorKind::NonceReuse),
            },
            None => return Err(ProtocolErrorKind::MissingNonceShare),
        };
        let aggregated_nonce = match &self.aggregated_nonce {
            Some(aggregated_nonce) => aggregated_nonce,
            None => return Err(ProtocolErrorKind::MissingAggNonce),
        };
        match key_agg_ctx.sign_partial(
            &seckey,
            sec_nonce,
            aggregated_nonce,
            &self.adaptor_point,
            message,
        ) {
            Ok(sig) => Ok(sig),
            Err(e) => Err(ProtocolErrorKind::Signing(e)),
        }
    }

    /// Keeps a partial signature and the message it signs, and drops the
    /// secret nonce that made it.
    pub fn commit_partial_signature(&mut self, message: Vec<u8>, sig: PartialSignature)
        requires
            old(self).my_nonce_share is Some,
        ensures
            *final(self) == old(self).signed(message, sig),
    {
        match &mut self.my_nonce_share {
            Some(pair) => {
                pair.sec_nonce = None;
            },
            None => {},
        }
        self.message = Some(message);
        self.my_partial_sig = Some(sig);
    }

    /// Signs `message` partially with the own key share of `key_ctx`, and
    /// keeps message and signature. The secret nonce is used up by the
    /// signature; a call that fails changes nothing.
    pub fn sign_partial(&mut self, key_ctx: &KeyCtx, message: Vec<u8>) -> (r: Result<
        PartialSignature,
        ProtocolErrorKind,
    >)
        ensures
            old(self).signing_outcome(key_ctx, message@).is_outcome_of(r),
            r is Err ==> *final(self) == *old(self),
            r matches Ok(sig) ==> final(self).my_partial_sig == Some(sig),
            r is Ok ==> final(self).is_partial_signing_of(old(self), key_ctx, message@),
    {
        let sig = match self.compute_partial_signature(key_ctx, message.as_slice()) {
            Ok(sig) => sig,
            Err(e) => return Err(e),
        };
        self.commit_partial_signature(message, sig);
        Ok(sig)
    }

    /// The two partial signatures in the order of aggregation.
    pub fn get_partial_signatures(&self) -> (r: Option<(PartialSignature, PartialSignature)>)
        ensures
            r == self.spec_partial_signatures(),
    {
        let mine = match self.my_partial_sig {
            Some(sig) => sig,
            None => return None,
        };
        let peers = match self.peers_partial_sig {
            Some(sig) => sig,
            None => return None,
        };
        if self.am_buyer {
            Some((mine, peers))
        } else {
            Some((peers, mine))
        }
    }

    /// Adds up the two partial signatures under the keys of `key_ctx` and
    /// returns the adaptor signature, if nothing is missing and it verifies.
    /// The context stays as it is.
    pub fn compute_aggregated_signature(&self, key_ctx: &KeyCtx) -> (r: Result<
        AdaptorSignature,
        ProtocolErrorKind,
    >)
        ensures
            self.aggregation_outcome(key_ctx).is_outcome_of(r),
            r matches Ok(sig) ==> self.with_aggregated_sig(Some(sig)).is_sig_aggregation_of(
                self,
                key_ctx,
            ),
    {
        let key_agg_ctx = match &key_ctx.key_agg_ctx {
            Some(ctx) => ctx,
            None => return Err(ProtocolErrorKind::MissingAggPubKey),
        };
        let aggregated_nonce = match &self.aggregated_nonce {
            Some(nonce) => nonce,
            None => return Err(ProtocolErrorKind::MissingAggNonce),
        };
        let (first_sig, second_sig) = match self.get_partial_signatures() {
            Some(sigs) => sigs,
            None => return Err(ProtocolErrorKind::MissingPartialSig),
        };
        let message = match &self.message {
            Some(message) => message,
            None => return Err(ProtocolErrorKind::MissingPartialSig),
        };
        match key_agg_ctx.aggregate_partial_signatures(
            aggregated_nonce,
            &self.adaptor_point,
            &first_sig,
            &second_sig,
            message.as_slice(),
        ) {
            Ok(sig) => Ok(sig),
            Err(e) => Err(ProtocolErrorKind::Verify(e)),
        }
    }

    /// Keeps an aggregated signature.
    pub fn set_aggregated_signature(&mut self, sig: AdaptorSignature)
        ensures
            *final(self) == old(self).with_aggregated_sig(Some(sig)),
    {
        self.aggregated_sig = Some(sig);
    }

    /// Adds up the two partial signatures under the keys of `key_ctx` and
    /// keeps the adaptor signature. A call that fails changes nothing.
    pub fn aggregate_partial_signatures(&mut self, key_ctx: &KeyCtx) -> (r: Result<
        AdaptorSignature,
        ProtocolErrorKind,
    >)
        ensures
            old(self).aggregation_outcome(key_ctx).is_outcome_of(r),
            r is Err ==> *final(self) == *old(self),
            r matches Ok(sig) ==> final(self).aggregated_sig == Some(sig),
            r is Ok ==> final(self).is_sig_aggregation_of(old(self), key_ctx),
    {
        let sig = match self.compute_aggregated_signature(key_ctx) {
            Ok(sig) => sig,
            Err(e) => return Err(e),
        };
        self.aggregated_sig = Some(sig);
        Ok(sig)
    }

    /// The secret of the adaptor point that a completed signature reveals
    /// of the adaptor signature that this context holds: `None` where the
    /// context holds no adaptor signature or no adaptor point, where the
    /// signature reveals nothing, or where what it reveals is not the
    /// secret of the adaptor point.
    pub open spec fn spec_adaptor_secret(&self, final_signature: Seq<u8>) -> Option<Seq<u8>> {
        if self.aggregated_sig is Some && self.adaptor_point is Valid && spec_revealed_secret(
            self.aggregated_sig->0@,
            final_signature,
        ) is Some && spec_base_point_mul(
            spec_revealed_secret(self.aggregated_sig->0@, final_signature)->0,
        ) == self.adaptor_point@->0 {
            spec_revealed_secret(self.aggregated_sig->0@, final_signature)
        } else {
            None
        }
    }

    /// Recovers the secret of the adaptor point from a completed signature,
    /// given by its 64 bytes, and the adaptor signature that this context
    /// holds. What is returned is the secret of the adaptor point: the base
    /// point times it is the adaptor point.
    pub fn reveal_adaptor_secret(&self, final_signature: &[u8]) -> (r: Option<Scalar>)
        ensures
            r is Some <==> self.spec_adaptor_secret(final_signature@) is Some,
            r matches Some(secret) ==> self.spec_adaptor_secret(final_signature@) == Some(secret@)
                && self.adaptor_point@ == Some(spec_base_point_mul(secret@)),
    {
        let adaptor_signature = match &self.aggregated_sig {
            Some(sig) => sig,
            None => return None,
        };
        let adaptor_point = match &self.adaptor_point {
            MaybePoint::Valid(point) => point,
            MaybePoint::Infinity => return None,
        };
        let secret = match adaptor_signature.reveal_secret(final_signature) {
            Some(secret) => secret,
            None => return None,
        };
        if secret.base_point_mul() == *adaptor_point {
            Some(secret)
        } else {
            None
        }
    }
}

} // verus!
