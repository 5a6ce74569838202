use crate::curve::{
    one_encoding, spec_aggregated_pubkey, spec_aggregated_seckey, spec_base_point_mul,
};
use crate::curve::{KeyAggContext, Point, Scalar};
use crate::error::{ProtocolErrorKind, StepOutcome};
use crate::storage::{ByOptVal, ByVal, ValStorage};
use vstd::prelude::*;

verus! {

/// A public key with its private key; `PrvKey` says whether the private key
/// is always there ([`ByVal`]) or may come later ([`ByOptVal`]).
pub struct KeyPair<PrvKey: ValStorage<Scalar> = ByVal> {
    pub pub_key: Point,
    pub prv_key: PrvKey::Store,
}

impl KeyPair {
    /// The key pair of the private key 1: a stand-in until key pairs are
    /// drawn at random.
    pub fn new() -> (r: KeyPair)
        ensures
            r.prv_key@ == one_encoding(),
            r.pub_key@ == spec_base_point_mul(one_encoding()),
    {
        Self::from_private(Scalar::one())
    }

    /// The key pair of a private key.
    pub fn from_private(prv_key: Scalar) -> (r: KeyPair)
        ensures
            r.prv_key == prv_key,
            r.pub_key@ == spec_base_point_mul(prv_key@),
    {
        KeyPair { pub_key: prv_key.base_point_mul(), prv_key }
    }
}

impl KeyPair<ByOptVal> {
    /// A key pair of which only the public key is known yet.
    pub fn from_public(pub_key: Point) -> (r: KeyPair<ByOptVal>)
        ensures
            r.pub_key == pub_key,
            r.prv_key is None,
    {
        KeyPair { pub_key, prv_key: None }
    }

    /// Sets the private key, if it is the one of the public key.
    pub fn set_prv_key(&mut self, prv_key: Scalar) -> (r: Result<Scalar, ProtocolErrorKind>)
        ensures
            final(self).pub_key == old(self).pub_key,
            spec_base_point_mul(prv_key@) == old(self).pub_key@ ==> r == Ok::<
                Scalar,
                ProtocolErrorKind,
            >(prv_key) && final(self).prv_key == Some(prv_key),
            spec_base_point_mul(prv_key@) != old(self).pub_key@ ==> r == Err::<
                Scalar,
                ProtocolErrorKind,
            >(ProtocolErrorKind::MismatchedKeyPair) && *final(self) == *old(self),
    {
        if self.pub_key != prv_key.base_point_mul() {
            return Err(ProtocolErrorKind::MismatchedKeyPair);
        }
        self.prv_key = Some(prv_key);
        Ok(prv_key)
    }
}


/// The keys of one output of the deposit: the own key share, the peer's, and
/// what the two aggregate to.
pub struct KeyCtx {
    pub am_buyer: bool,
    pub my_key_share: Option<KeyPair>,
    pub peers_key_share: Option<KeyPair<ByOptVal>>,
    pub aggregated_key: Option<KeyPair<ByOptVal>>,
    pub key_agg_ctx: Option<KeyAggContext>,
}

impl KeyCtx {
    /// The two public key shares in the order of aggregation: the buyer's
    /// first, the seller's second. `None` until both are there.
    pub open spec fn spec_key_shares(&self) -> Option<(Point, Point)> {
        if self.my_key_share is Some && self.peers_key_share is Some {
            let mine = self.my_key_share->0.pub_key;
            let peers = self.peers_key_share->0.pub_key;
            if self.am_buyer {
                Some((mine, peers))
            } else {
                Some((peers, mine))
            }
        } else {
            None
        }
    }

    /// The two private key shares in the order of aggregation. `None` until
    /// the peer's private key share is there too.
    pub open spec fn spec_prv_key_shares(&self) -> Option<(Scalar, Scalar)> {
        if self.my_key_share is Some && self.peers_key_share is Some
            && self.peers_key_share->0.prv_key is Some {
            let mine = self.my_key_share->0.prv_key;
            let peers = self.peers_key_share->0.prv_key->0;
            if self.am_buyer {
                Some((mine, peers))
            } else {
                Some((peers, mine))
            }
        } else {
            None
        }
    }

    /// The private key that the shares aggregate to, where all that
    /// [`KeyCtx::aggregate_prv_key_shares`] needs is there and consistent.
    pub open spec fn spec_aggregated_prv_key(&self) -> Option<Seq<u8>> {
        if self.spec_prv_key_shares() is Some && self.key_agg_ctx is Some
            && self.aggregated_key is Some {
            let (first, second) = self.spec_prv_key_shares()->0;
            let ctx = self.key_agg_ctx->0;
            spec_aggregated_seckey(ctx.spec_first()@, ctx.spec_second()@, first@, second@)
        } else {
            None
        }
    }

    /// An empty context for the buyer's or the seller's side.
    pub fn new(am_buyer: bool) -> (r: KeyCtx)
        ensures
            r == KeyCtx::spec_new(am_buyer),
    {
        KeyCtx {
            am_buyer,
            my_key_share: None,
            peers_key_share: None,
            aggregated_key: None,
            key_agg_ctx: None,
        }
    }

    /// Makes the own key share from the stand-in private key 1, and returns
    /// its public key.
    pub fn init_my_key_share(&mut self) -> (r: Point)
        requires
            old(self).my_key_share is None,
        ensures
            final(self).my_key_share matches Some(pair) && pair.pub_key == r && pair.prv_key@
                == one_encoding() && final(self).is_key_init_of(old(self), pair.prv_key),
    {
        let pair = KeyPair::new();
        let pub_key = pair.pub_key;
        self.my_key_share = Some(pair);
        pub_key
    }

    /// Makes the own key share from a private key, which the caller has
    /// drawn at random, and returns its public key.
    pub fn init_my_key_share_with(&mut self, prv_key: Scalar) -> (r: Point)
        requires
            old(self).my_key_share is None,
        ensures
            final(self).my_key_share matches Some(pair) && pair.pub_key == r,
            final(self).is_key_init_of(old(self), prv_key),
    {
        let pair = KeyPair::from_private(prv_key);
        let pub_key = pair.pub_key;
        self.my_key_share = Some(pair);
        pub_key
    }

    /// The two public key shares in the order of aggregation.
    pub fn get_key_shares(&self) -> (r: Option<(Point, Point)>)
        ensures
            r == self.spec_key_shares(),
    {
        let mine = match &self.my_key_share {
            Some(pair) => pair.pub_key,
            None => return None,
        };
        let peers = match &self.peers_key_share {
            Some(pair) => pair.pub_key,
            None => return None,
        };
        if self.am_buyer {
            Some((mine, peers))
        } else {
            Some((peers, mine))
        }
    }

    /// The empty context for the buyer's or the seller's side.
    pub open spec fn spec_new(am_buyer: bool) -> KeyCtx {
        KeyCtx {
            am_buyer,
            my_key_share: None,
            peers_key_share: None,
            aggregated_key: None,
            key_agg_ctx: None,
        }
    }

    /// Whether the public key of the own key share is that of its private
    /// key.
    pub open spec fn my_key_share_is_a_pair(&self) -> bool {
        self.my_key_share is Some ==> self.my_key_share->0.pub_key@ == spec_base_point_mul(
            self.my_key_share->0.prv_key@,
        )
    }

    /// The context with another own key share.
    pub open spec fn with_my_key_share(self, pair: KeyPair) -> KeyCtx {
        KeyCtx { my_key_share: Some(pair), ..self }
    }

    /// The context with the public key of the peer's key share, and not
    /// its private key.
    pub open spec fn with_peers_pub_key(self, pub_key: Point) -> KeyCtx {
        KeyCtx { peers_key_share: Some(KeyPair::<ByOptVal> { pub_key, prv_key: None }), ..self }
    }

    /// The context with the private key of the peer's key share.
    pub open spec fn with_peers_prv_key(self, prv_key: Scalar) -> KeyCtx {
        KeyCtx {
            peers_key_share: Some(
                KeyPair::<ByOptVal> {
                    pub_key: self.peers_key_share->0.pub_key,
                    prv_key: Some(prv_key),
                },
            ),
            ..self
        }
    }

    /// The context with the private key of the aggregated key.
    pub open spec fn with_aggregated_prv_key(self, prv_key: Scalar) -> KeyCtx {
        KeyCtx {
            aggregated_key: Some(
                KeyPair::<ByOptVal> {
                    pub_key: self.aggregated_key->0.pub_key,
                    prv_key: Some(prv_key),
                },
            ),
            ..self
        }
    }

    /// Whether `self` is `pre` after it has made its own key share from
    /// `prv_key`.
    pub open spec fn is_key_init_of(&self, pre: &KeyCtx, prv_key: Scalar) -> bool {
        &&& self.my_key_share matches Some(pair)
        &&& pair.prv_key == prv_key
        &&& pair.pub_key@ == spec_base_point_mul(prv_key@)
        &&& *self == pre.with_my_key_share(pair)
    }

    /// Whether `self` is `pre` after it has aggregated its two public key
    /// shares.
    pub open spec fn is_key_aggregation_of(&self, pre: &KeyCtx) -> bool {
        &&& pre.spec_key_shares() matches Some(shares)
        &&& self.key_agg_ctx matches Some(ctx)
        &&& ctx.spec_first() == shares.0
        &&& ctx.spec_second() == shares.1
        &&& spec_aggregated_pubkey(shares.0@, shares.1@) == Some(ctx.spec_aggregated_pubkey()@)
        &&& *self == pre.with_key_aggregation(ctx)
    }

    /// The key that the two public key shares aggregate to; `None` where a
    /// share is missing or the shares add up to infinity.
    pub open spec fn spec_key_aggregation(&self) -> Option<Seq<u8>> {
        if self.spec_key_shares() is Some {
            let (first, second) = self.spec_key_shares()->0;
            spec_aggregated_pubkey(first@, second@)
        } else {
            None
        }
    }

    /// How aggregating the two public key shares ends.
    pub open spec fn key_aggregation_outcome(&self) -> StepOutcome {
        if self.spec_key_shares() is None {
            StepOutcome::Refused(ProtocolErrorKind::MissingKeyShare)
        } else if self.spec_key_aggregation() is None {
            StepOutcome::KeyAggregationFailed
        } else {
            StepOutcome::Done
        }
    }

    /// How setting the private key of the peer's key share ends.
    pub open spec fn peers_prv_key_outcome(&self, prv_key: Scalar) -> StepOutcome {
        if self.peers_key_share is None {
            StepOutcome::Refused(ProtocolErrorKind::MissingKeyShare)
        } else if spec_base_point_mul(prv_key@) != self.peers_key_share->0.pub_key@ {
            StepOutcome::Mismatched
        } else {
            StepOutcome::Done
        }
    }

    /// How aggregating the two private key shares ends.
    pub open spec fn prv_key_aggregation_outcome(&self) -> StepOutcome {
        if self.spec_prv_key_shares() is None {
            StepOutcome::Refused(ProtocolErrorKind::MissingKeyShare)
        } else if self.key_agg_ctx is None || self.aggregated_key is None {
            StepOutcome::Refused(ProtocolErrorKind::MissingAggPubKey)
        } else if self.spec_aggregated_prv_key() is None {
            StepOutcome::SecretKeysInvalid
        } else if spec_base_point_mul(self.spec_aggregated_prv_key()->0)
            != self.aggregated_key->0.pub_key@ {
            StepOutcome::Mismatched
        } else {
            StepOutcome::Done
        }
    }

    /// The context with the aggregation `ctx` and its key, and no
    /// aggregated private key.
    pub open spec fn with_key_aggregation(self, ctx: KeyAggContext) -> KeyCtx {
        KeyCtx {
            aggregated_key: Some(
                KeyPair::<ByOptVal> { pub_key: ctx.spec_aggregated_pubkey(), prv_key: None },
            ),
            key_agg_ctx: Some(ctx),
            ..self
        }
    }

    /// Aggregates the two public key shares. The context stays as it is.
    pub fn compute_key_aggregation(&self) -> (r: Result<KeyAggContext, ProtocolErrorKind>)
        ensures
            self.key_aggregation_outcome().is_outcome_of(r),
            r matches Ok(ctx) ==> self.with_key_aggregation(ctx).is_key_aggregation_of(self),
    {
        let (first, second) = match self.get_key_shares() {
            Some(shares) => shares,
            None => return Err(ProtocolErrorKind::MissingKeyShare),
        };
        match KeyAggContext::new(&first, &second) {
            Ok(ctx) => Ok(ctx),
            Err(e) => Err(ProtocolErrorKind::KeyAgg(e)),
        }
    }

    /// Aggregates the own public key share with a public key share of the
    /// peer that the context does not hold yet. The context stays as it
    /// is.
    pub fn compute_key_aggregation_with(&self, peers_pub_key: Point) -> (r: Result<
        KeyAggContext,
        ProtocolErrorKind,
    >)
        ensures
            self.with_peers_pub_key(peers_pub_key).key_aggregation_outcome().is_outcome_of(r),
            r matches Ok(ctx) ==> self.with_peers_pub_key(peers_pub_key).with_key_aggregation(
                ctx,
            ).is_key_aggregation_of(&self.with_peers_pub_key(peers_pub_key)),
    {
        let mine = match &self.my_key_share {
            Some(pair) => pair.pub_key,
            None => return Err(ProtocolErrorKind::MissingKeyShare),
        };
        let aggregated = if self.am_buyer {
            KeyAggContext::new(&mine, &peers_pub_key)
        } else {
            KeyAggContext::new(&peers_pub_key, &mine)
        };
        match aggregated {
            Ok(ctx) => Ok(ctx),
            Err(e) => Err(ProtocolErrorKind::KeyAgg(e)),
        }
    }

    /// The private keys that the context has received or aggregated: that
    /// of the peer's key share and that of the aggregated key.
    pub open spec fn spec_received_prv_keys(&self) -> (Option<Scalar>, Option<Scalar>) {
        (
            if self.peers_key_share is Some {
                self.peers_key_share->0.prv_key
            } else {
                None
            },
            if self.aggregated_key is Some {
                self.aggregated_key->0.prv_key
            } else {
                None
            },
        )
    }

    /// The context with other private keys of the peer's key share and of
    /// the aggregated key, where it holds those keys.
    pub open spec fn with_received_prv_keys(
        self,
        keys: (Option<Scalar>, Option<Scalar>),
    ) -> KeyCtx {
        KeyCtx {
            peers_key_share: if self.peers_key_share is Some {
                Some(
                    KeyPair::<ByOptVal> {
                        pub_key: self.peers_key_share->0.pub_key,
                        prv_key: keys.0,
                    },
                )
            } else {
                None
            },
            aggregated_key: if self.aggregated_key is Some {
                Some(
                    KeyPair::<ByOptVal> {
                        pub_key: self.aggregated_key->0.pub_key,
                        prv_key: keys.1,
                    },
                )
            } else {
                None
            },
            ..self
        }
    }

    /// The private keys that the context has received or aggregated.
    pub fn received_prv_keys(&self) -> (r: (Option<Scalar>, Option<Scalar>))
        ensures
            r == self.spec_received_prv_keys(),
    {
        let peers = match &self.peers_key_share {
            Some(share) => share.prv_key,
            None => None,
        };
        let aggregated = match &self.aggregated_key {
            Some(key) => key.prv_key,
            None => None,
        };
        (peers, aggregated)
    }

    /// Puts back private keys that the context had received or aggregated
    /// before.
    pub fn restore_received_prv_keys(&mut self, keys: (Option<Scalar>, Option<Scalar>))
        ensures
            *final(self) == old(self).with_received_prv_keys(keys),
    {
        match &mut self.peers_key_share {
            Some(share) => {
                share.prv_key = keys.0;
            },
            None => {},
        }
        match &mut self.aggregated_key {
            Some(key) => {
                key.prv_key = keys.1;
            },
            None => {},
        }
    }

    /// Keeps an aggregation and its key.
    pub fn set_key_aggregation(&mut self, ctx: KeyAggContext)
        ensures
            *final(self) == old(self).with_key_aggregation(ctx),
    {
        self.aggregated_key = Some(KeyPair::from_public(ctx.aggregated_pubkey()));
        self.key_agg_ctx = Some(ctx);
    }

    /// Aggregates the two public key shares and keeps the aggregated key.
    /// A call that fails changes nothing.
    pub fn aggregate_key_shares(&mut self) -> (r: Result<(), ProtocolErrorKind>)
        ensures
            old(self).key_aggregation_outcome().is_outcome_of(r),
            r is Err ==> *final(self) == *old(self),
            r is Ok ==> final(self).is_key_aggregation_of(old(self)),
    {
        let agg_ctx = match self.compute_key_aggregation() {
            Ok(ctx) => ctx,
            Err(e) => return Err(e),
        };
        self.set_key_aggregation(agg_ctx);
        Ok(())
    }

    /// The two private key shares in the order of aggregation.
    pub fn get_prv_key_shares(&self) -> (r: Option<(Scalar, Scalar)>)
        ensures
            r == self.spec_prv_key_shares(),
    {
        let mine = match &self.my_key_share {
            Some(pair) => pair.prv_key,
            None => return None,
        };
        let peers = match &self.peers_key_share {
            Some(pair) => match pair.prv_key {
                Some(prv_key) => prv_key,
                None => return None,
            },
            None => return None,
        };
        if self.am_buyer {
            Some((mine, peers))
        } else {
            Some((peers, mine))
        }
    }

    /// Aggregates the two private key shares, and keeps the result with the
    /// aggregated public key if it is the private key of that key. A call
    /// that fails changes nothing.
    pub fn aggregate_prv_key_shares(&mut self) -> (r: Result<Scalar, ProtocolErrorKind>)
        ensures
            old(self).prv_key_aggregation_outcome().is_outcome_of(r),
            r is Err ==> *final(self) == *old(self),
            r matches Ok(k) ==> old(self).spec_aggregated_prv_key() == Some(k@),
            r matches Ok(k) ==> *final(self) == old(self).with_aggregated_prv_key(k),
            r matches Ok(k) ==> spec_base_point_mul(k@) == old(self).aggregated_key->0.pub_key@,
    {
        let (first, second) = match self.get_prv_key_shares() {
            Some(shares) => shares,
            None => return Err(ProtocolErrorKind::MissingKeyShare),
        };
        let seckey = match &self.key_agg_ctx {
            Some(agg_ctx) => {
                if self.aggregated_key.is_none() {
                    return Err(ProtocolErrorKind::MissingAggPubKey);
                }
                match agg_ctx.aggregated_seckey(&first, &second) {
                    Ok(seckey) => seckey,
                    Err(e) => return Err(ProtocolErrorKind::InvalidSecretKeys(e)),
                }
            },
            None => return Err(ProtocolErrorKind::MissingAggPubKey),
        };
        match &mut self.aggregated_key {
            Some(agg_key) => agg_key.set_prv_key(seckey),
            None => Err(ProtocolErrorKind::MissingAggPubKey),
        }
    }
}

} // verus!
