use vstd::prelude::*;
use vstd::string::StringExecFns;

verus! {

/// Why an operation of the signing protocol was refused or failed.
#[derive(Debug)]
pub enum ProtocolErrorKind {
    /// A key share (or, when nonces are aggregated, a nonce share) has not
    /// been set.
    MissingKeyShare,
    /// The own nonce pair has not been made.
    MissingNonceShare,
    /// A partial signature, or the message it signs, has not been set.
    MissingPartialSig,
    /// The key shares have not been aggregated.
    MissingAggPubKey,
    /// The nonce shares have not been aggregated.
    MissingAggNonce,
    /// The secret nonce has already been used for a signature, or a nonce
    /// pair would be made where there is one.
    NonceReuse,
    /// A private key does not belong to the public key it was given for.
    MismatchedKeyPair,
    /// The public nonces add up to the point at infinity.
    ZeroAggNonce,
    /// The public keys could not be aggregated.
    KeyAgg(musig2::errors::KeyAggError),
    /// The partial signature could not be made.
    Signing(musig2::errors::SigningError),
    /// The aggregated signature does not verify.
    Verify(musig2::errors::VerifyError),
    /// The private keys do not aggregate to the key of the public ones.
    InvalidSecretKeys(musig2::errors::InvalidSecretKeysError),
    /// A scalar that must not be zero is zero.
    ZeroScalar(secp::errors::ZeroScalarError),
}

impl ProtocolErrorKind {
    /// The text that tells the error, for every error of the protocol's
    /// own; an error of the curve library tells itself.
    pub open spec fn spec_message(&self) -> Option<Seq<char>> {
        match self {
            ProtocolErrorKind::MissingKeyShare => Some("missing key share"@),
            ProtocolErrorKind::MissingNonceShare => Some("missing nonce share"@),
            ProtocolErrorKind::MissingPartialSig => Some("missing partial signature"@),
            ProtocolErrorKind::MissingAggPubKey => Some("missing aggregated pubkey"@),
            ProtocolErrorKind::MissingAggNonce => Some("missing aggregated nonce"@),
            ProtocolErrorKind::NonceReuse => Some("nonce has already been used"@),
            ProtocolErrorKind::MismatchedKeyPair => Some("public-private key mismatch"@),
            ProtocolErrorKind::ZeroAggNonce => Some("aggregated nonce has a point at infinity"@),
            _ => None,
        }
    }

    /// The text that tells the error, for every error of the protocol's
    /// own.
    pub fn message(&self) -> (r: Option<String>)
        ensures
            r is Some <==> self.spec_message() is Some,
            r matches Some(text) ==> Some(text@) == self.spec_message(),
    {
        match self {
            ProtocolErrorKind::MissingKeyShare => Some(String::from_str("missing key share")),
            ProtocolErrorKind::MissingNonceShare => Some(String::from_str("missing nonce share")),
            ProtocolErrorKind::MissingPartialSig => Some(
                String::from_str("missing partial signature"),
            ),
            ProtocolErrorKind::MissingAggPubKey => Some(
                String::from_str("missing aggregated pubkey"),
            ),
            ProtocolErrorKind::MissingAggNonce => Some(
                String::from_str("missing aggregated nonce"),
            ),
            ProtocolErrorKind::NonceReuse => Some(String::from_str("nonce has already been used")),
            ProtocolErrorKind::MismatchedKeyPair => Some(
                String::from_str("public-private key mismatch"),
            ),
            ProtocolErrorKind::ZeroAggNonce => Some(
                String::from_str("aggregated nonce has a point at infinity"),
            ),
            _ => None,
        }
    }

    /// Whether the error says that a step of the protocol was taken before
    /// one that it needs, or that a secret nonce would be used twice. Such a
    /// call changes nothing.
    pub open spec fn is_out_of_order(&self) -> bool {
        self is MissingKeyShare || self is MissingNonceShare || self is MissingPartialSig
            || self is MissingAggPubKey || self is MissingAggNonce || self is NonceReuse
    }
}


/// How a step of the protocol ends, as far as the state before it tells.
pub enum StepOutcome {
    /// The step is taken.
    Done,
    /// The step is refused with this error, because something that it
    /// needs is missing or a secret nonce would be used twice.
    Refused(ProtocolErrorKind),
    /// A private key is not the one of its public key.
    Mismatched,
    /// The public nonces add up to the point at infinity.
    AggNonceIsZero,
    /// The public keys cannot be aggregated.
    KeyAggregationFailed,
    /// The private keys do not aggregate to the key of the public ones.
    SecretKeysInvalid,
    /// The partial signature cannot be made.
    SigningFailed,
    /// The aggregated signature does not verify.
    VerificationFailed,
}

impl StepOutcome {
    /// This outcome, or, where the step is taken, the outcome of the next
    /// step.
    pub open spec fn and_then(self, next: StepOutcome) -> StepOutcome {
        if self is Done {
            next
        } else {
            self
        }
    }

    /// Whether `r` is the result that this outcome stands for.
    pub open spec fn is_outcome_of<T>(self, r: Result<T, ProtocolErrorKind>) -> bool {
        match self {
            StepOutcome::Done => r is Ok,
            StepOutcome::Refused(e) => r is Err && r->Err_0 == e,
            StepOutcome::Mismatched => r matches Err(ProtocolErrorKind::MismatchedKeyPair),
            StepOutcome::AggNonceIsZero => r matches Err(ProtocolErrorKind::ZeroAggNonce),
            StepOutcome::KeyAggregationFailed => r matches Err(ProtocolErrorKind::KeyAgg(_)),
            StepOutcome::SecretKeysInvalid => r matches Err(
                ProtocolErrorKind::InvalidSecretKeys(_),
            ),
            StepOutcome::SigningFailed => r matches Err(ProtocolErrorKind::Signing(_)),
            StepOutcome::VerificationFailed => r matches Err(ProtocolErrorKind::Verify(_)),
        }
    }
}

} // verus!
