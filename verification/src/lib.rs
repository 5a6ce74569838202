// The signing side of a two-party trade protocol: a buyer and a seller
// set up a deposit with two outputs, each locked to a key that MuSig2
// aggregates from a key share of both, and sign the transactions that
// spend them before the deposit is published. One of the seven signatures
// is an adaptor signature: published, it reveals a key share.
//
// `curve` holds the values of the curve and the calls into the curve
// library; `keys` and `signing` the state of one aggregated key and of one
// signing session; `trade` the trade with its rounds; `store` a mapping of
// trades; `service` the requests that drive the rounds; `laws` what holds
// of all of it.
use vstd::prelude::*;

pub mod curve;
pub mod error;
pub mod keys;
pub mod laws;
pub mod service;
pub mod signing;
pub mod storage;
pub mod store;
pub mod trade;

verus! {

/// The side a party takes in a trade, and whether it made or took the offer.
#[derive(Clone, Copy, Debug, PartialEq, Eq, Structural)]
pub enum Role {
    SellerAsMaker,
    SellerAsTaker,
    BuyerAsMaker,
    BuyerAsTaker,
}

impl Default for Role {
    fn default() -> (r: Role)
        ensures
            r == Role::SellerAsMaker,
    {
        Role::SellerAsMaker
    }
}

impl Role {
    /// Whether this is one of the two roles of a buyer.
    pub open spec fn is_buyer(self) -> bool {
        self is BuyerAsMaker || self is BuyerAsTaker
    }

    /// Tells whether this is one of the two roles of a buyer.
    pub fn am_buyer(&self) -> (r: bool)
        ensures
            r == self.is_buyer(),
    {
        match self {
            Role::BuyerAsMaker | Role::BuyerAsTaker => true,
            _ => false,
        }
    }
}

} // verus!
