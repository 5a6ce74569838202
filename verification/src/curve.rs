// The values of the secp256k1 curve and of MuSig2 that the signing protocol
// handles, and the calls into the `secp` and `musig2` crates that compute
// with them.
//
// A value is held as the bytes of its encoding, in a field that nothing
// outside this file can reach. Only the functions marked `external_body`
// here build values, each from what the curve library returned, so that
// the bytes of a value always decode. This is why those functions unwrap
// what they decode from their arguments. For the types that are also
// decoded from bytes that a peer sent, the same is a type invariant, which
// every function that returns one claims of the curve library.
use musig2::BinaryEncoding;
use vstd::prelude::*;

verus! {

/// The view of what an `Option` holds.
pub open spec fn some_view<T: View>(value: Option<T>) -> Option<T::V> {
    match value {
        Some(value) => Some(value@),
        None => None,
    }
}

/// The view of what a `Result` holds where it is `Ok`.
pub open spec fn ok_view<T: View, E>(value: Result<T, E>) -> Option<T::V> {
    match value {
        Ok(value) => Some(value@),
        Err(_) => None,
    }
}

/// The number that a byte string denotes when read with its first byte as
/// the most significant one.
pub open spec fn be_value(bytes: Seq<u8>) -> nat
    decreases bytes.len(),
{
    if bytes.len() == 0 {
        0
    } else {
        be_value(bytes.drop_last()) * 256 + bytes.last() as nat
    }
}

/// The order `n` of the secp256k1 group.
pub open spec fn curve_order() -> nat {
    0xFFFFFFFFFFFFFFFFFFFFFFFFFFFFFFFEBAAEDCE6AF48A03BBFD25E8CD0364141nat
}

/// Whether `bytes` is the 32-byte big-endian form of a number in `[1, n)`.
pub open spec fn is_scalar_encoding(bytes: Seq<u8>) -> bool {
    bytes.len() == 32 && 0 < be_value(bytes) < curve_order()
}

/// The encoding of the scalar 1: 31 zero bytes, then the byte 1.
pub open spec fn one_encoding() -> Seq<u8> {
    Seq::new(32, |i: int| if i == 31 { 1u8 } else { 0u8 })
}

/// A byte string of zero bytes denotes the number 0.
pub proof fn lemma_be_value_of_zeros(bytes: Seq<u8>)
    requires
        forall|i: int| 0 <= i < bytes.len() ==> bytes[i] == 0,
    ensures
        be_value(bytes) == 0,
    decreases bytes.len(),
{
    if bytes.len() > 0 {
        lemma_be_value_of_zeros(bytes.drop_last());
    }
}

/// The encoding of the scalar 1 denotes the number 1, and is the encoding
/// of a scalar.
pub proof fn lemma_one_encoding()
    ensures
        be_value(one_encoding()) == 1,
        is_scalar_encoding(one_encoding()),
{
    lemma_be_value_of_zeros(one_encoding().drop_last());
}

/// Whether `bytes` is the 32-byte big-endian form of a number in `[0, n)`.
pub open spec fn is_maybe_scalar_encoding(bytes: Seq<u8>) -> bool {
    bytes.len() == 32 && be_value(bytes) < curve_order()
}

/// The compressed encoding of the curve point that `bytes` encodes, in
/// compressed or uncompressed form; `None` where `bytes` encodes no point
/// other than infinity. Names what `secp::Point::from_slice` returns.
pub uninterp spec fn spec_point_from_slice(bytes: Seq<u8>) -> Option<Seq<u8>>;

/// Whether `bytes` is the 66-byte encoding of a public nonce: two encodings
/// of points, one after the other.
pub open spec fn is_pub_nonce_encoding(bytes: Seq<u8>) -> bool {
    &&& bytes.len() == 66
    &&& spec_point_from_slice(bytes.subrange(0, 33)) is Some
    &&& spec_point_from_slice(bytes.subrange(33, 66)) is Some
}

/// The compressed encoding of the base point multiplied by the scalar that
/// `scalar` encodes. Names what `secp::Scalar::base_point_mul` returns.
pub uninterp spec fn spec_base_point_mul(scalar: Seq<u8>) -> Seq<u8>;

/// Whether an array holds the first `n` bytes of a byte string.
pub open spec fn holds_prefix<const N: usize>(array: [u8; N], bytes: Seq<u8>, n: nat) -> bool {
    forall|i: int| 0 <= i < n ==> array@[i] == bytes[i]
}

/// An array can be made to hold the first `n` bytes of a byte string.
proof fn lemma_array_of_prefix<const N: usize>(bytes: Seq<u8>, n: nat)
    requires
        bytes.len() == N,
        n <= N,
    ensures
        exists|a: [u8; N]| #[trigger] holds_prefix(a, bytes, n),
    decreases n,
{
    if n == 0 {
        let start: [u8; N] = arbitrary();
        assert(holds_prefix(start, bytes, n));
    } else {
        lemma_array_of_prefix::<N>(bytes, (n - 1) as nat);
        let a = choose|a: [u8; N]| #[trigger] holds_prefix(a, bytes, (n - 1) as nat);
        let b = vstd::array::spec_array_update(a, n - 1, bytes[n - 1]);
        assert(holds_prefix(b, bytes, n));
    }
}

/// Every byte string of length `N` is the content of an array.
pub proof fn lemma_array_of_seq<const N: usize>(bytes: Seq<u8>)
    requires
        bytes.len() == N,
    ensures
        exists|a: [u8; N]| a@ == bytes,
{
    lemma_array_of_prefix::<N>(bytes, N as nat);
    let a = choose|a: [u8; N]| #[trigger] holds_prefix(a, bytes, N as nat);
    assert(a@ =~= bytes);
}

/// Whether two byte strings hold the same bytes.
pub fn bytes_eq(a: &[u8], b: &[u8]) -> (r: bool)
    ensures
        r == (a@ == b@),
{
    if a.len() != b.len() {
        return false;
    }
    let mut i: usize = 0;
    while i < a.len()
        invariant
            a@.len() == b@.len(),
            i <= a@.len(),
            forall|j: int| 0 <= j < i ==> a@[j] == b@[j],
        decreases a@.len() - i,
    {
        if a[i] != b[i] {
            return false;
        }
        i += 1;
    }
    assert(a@ =~= b@);
    true
}

/// A non-zero scalar of the secp256k1 group, held as its 32-byte big-endian
/// encoding. Values are made only by the functions of this file, each of
/// which takes the bytes from a `secp::Scalar`.
#[derive(Clone, Copy)]
pub struct Scalar {
    bytes: [u8; 32],
}

impl View for Scalar {
    type V = Seq<u8>;

    closed spec fn view(&self) -> Seq<u8> {
        self.bytes@
    }
}

/// A point of the secp256k1 curve other than infinity, held as its 33-byte
/// compressed encoding. Values are made only by the functions of this file,
/// each of which takes the bytes from a `secp::Point`.
#[derive(Clone, Copy, Debug)]
pub struct Point {
    bytes: [u8; 33],
}

impl View for Point {
    type V = Seq<u8>;

    closed spec fn view(&self) -> Seq<u8> {
        self.bytes@
    }
}

impl PartialEq for Point {
    fn eq(&self, other: &Point) -> (r: bool) {
        bytes_eq(self.bytes.as_slice(), other.bytes.as_slice())
    }
}

impl vstd::std_specs::cmp::PartialEqSpecImpl for Point {
    open spec fn obeys_eq_spec() -> bool {
        true
    }

    open spec fn eq_spec(&self, other: &Point) -> bool {
        self@ == other@
    }
}

impl PartialEq for Scalar {
    fn eq(&self, other: &Scalar) -> (r: bool) {
        bytes_eq(self.bytes.as_slice(), other.bytes.as_slice())
    }
}

impl vstd::std_specs::cmp::PartialEqSpecImpl for Scalar {
    open spec fn obeys_eq_spec() -> bool {
        true
    }

    open spec fn eq_spec(&self, other: &Scalar) -> bool {
        self@ == other@
    }
}

/// A point of the curve, or the point at infinity.
#[derive(Clone, Copy, Debug)]
pub enum MaybePoint {
    Infinity,
    Valid(Point),
}

impl View for MaybePoint {
    type V = Option<Seq<u8>>;

    open spec fn view(&self) -> Option<Seq<u8>> {
        match self {
            MaybePoint::Infinity => None,
            MaybePoint::Valid(p) => Some(p@),
        }
    }
}

/// Calls `secp::Scalar::from_slice`, which accepts exactly the 32-byte
/// big-endian encodings of the numbers in `[1, n)`; the scalar that comes
/// back holds the bytes that were given, which `serialize` returns of it.
#[verifier::external_body]
fn scalar_from_slice(bytes: &[u8]) -> (r: Option<Scalar>)
    ensures
        r is Some <==> is_scalar_encoding(bytes@),
        r matches Some(s) ==> s@ == bytes@,
{
    match secp::Scalar::from_slice(bytes) {
        Ok(s) => Some(Scalar { bytes: s.serialize() }),
        Err(_) => None,
    }
}

/// Calls `secp::Scalar::one`, the scalar of value 1, whose encoding is 31
/// zero bytes and the byte 1.
#[verifier::external_body]
fn scalar_one() -> (r: Scalar)
    ensures
        r@ == one_encoding(),
{
    Scalar { bytes: secp::Scalar::one().serialize() }
}

/// Calls `secp::Scalar::base_point_mul`; the point that comes back is named
/// by [`spec_base_point_mul`]. It is a point of the curve, never infinity,
/// so that its encoding decodes to itself, as the invariant of [`Point`]
/// says.
#[verifier::external_body]
fn scalar_base_point_mul(scalar: &Scalar) -> (r: Point)
    ensures
        r@ == spec_base_point_mul(scalar@),
{
    let scalar = secp::Scalar::from_slice(&scalar.bytes).unwrap();
    Point { bytes: scalar.base_point_mul().serialize() }
}

/// Calls `secp::Point::from_slice`; what comes back is named by
/// [`spec_point_from_slice`], in the compressed encoding that `serialize`
/// returns of it. That encoding decodes to the same point, as the
/// invariant of [`Point`] says.
#[verifier::external_body]
fn point_from_slice(bytes: &[u8]) -> (r: Option<Point>)
    ensures
        some_view(r) == spec_point_from_slice(bytes@),
{
    match secp::Point::from_slice(bytes) {
        Ok(p) => Some(Point { bytes: p.serialize() }),
        Err(_) => None,
    }
}

impl Scalar {
    /// The bytes of a scalar are the encoding of a number in `[1, n)`.
    #[verifier::type_invariant]
    spec fn is_valid(&self) -> bool {
        is_scalar_encoding(self.bytes@)
    }

    /// The scalar that `bytes` encodes, if they encode one.
    pub closed spec fn spec_from_slice(bytes: Seq<u8>) -> Option<Scalar> {
        if is_scalar_encoding(bytes) {
            Some(choose|s: Scalar| s@ == bytes)
        } else {
            None
        }
    }

    /// What [`Scalar::spec_from_slice`] decodes, by its encoding.
    pub proof fn lemma_spec_from_slice(bytes: Seq<u8>)
        ensures
            Scalar::spec_from_slice(bytes) is Some <==> is_scalar_encoding(bytes),
            Scalar::spec_from_slice(bytes) matches Some(s) ==> s@ == bytes,
    {
        if is_scalar_encoding(bytes) {
            let array: [u8; 32] = choose|a: [u8; 32]| a@ == bytes;
            assert(exists|a: [u8; 32]| a@ == bytes) by {
                lemma_array_of_seq::<32>(bytes);
            }
            assert((Scalar { bytes: array })@ == bytes);
        }
    }

    /// A scalar is told by its encoding.
    pub proof fn lemma_view_is_injective(self, other: Scalar)
        requires
            self@ == other@,
        ensures
            self == other,
    {
        assert(self.bytes =~= other.bytes);
    }

    /// Decodes a scalar from its 32-byte big-endian encoding.
    pub fn from_slice(bytes: &[u8]) -> (r: Option<Scalar>)
        ensures
            r is Some <==> is_scalar_encoding(bytes@),
            r matches Some(s) ==> s@ == bytes@,
            r == Scalar::spec_from_slice(bytes@),
    {
        let r = scalar_from_slice(bytes);
        proof {
            if let Some(s) = r {
                s.lemma_view_is_injective(Scalar::spec_from_slice(bytes@)->0);
            }
        }
        r
    }

    /// The scalar of value 1.
    pub fn one() -> (r: Scalar)
        ensures
            r@ == one_encoding(),
            be_value(r@) == 1,
    {
        proof {
            lemma_one_encoding();
        }
        scalar_one()
    }

    /// The 32-byte big-endian encoding of the scalar, from which the
    /// scalar decodes again.
    pub fn serialize(&self) -> (r: [u8; 32])
        ensures
            r@ == self@,
            is_scalar_encoding(r@),
            Scalar::spec_from_slice(r@) == Some(*self),
    {
        proof {
            use_type_invariant(self);
            Scalar::lemma_spec_from_slice(self@);
            self.lemma_view_is_injective(Scalar::spec_from_slice(self@)->0);
        }
        self.bytes
    }

    /// The public key of this private key: the base point multiplied by
    /// the scalar.
    pub fn base_point_mul(&self) -> (r: Point)
        ensures
            r@ == spec_base_point_mul(self@),
    {
        scalar_base_point_mul(self)
    }
}

impl Point {
    /// The bytes of a point are the compressed encoding of a point, which
    /// decodes to itself.
    #[verifier::type_invariant]
    spec fn is_valid(&self) -> bool {
        spec_point_from_slice(self.bytes@) == Some(self.bytes@)
    }

    /// The point that `bytes` encodes, if they encode one.
    pub closed spec fn spec_from_slice(bytes: Seq<u8>) -> Option<Point> {
        match spec_point_from_slice(bytes) {
            Some(encoding) => if encoding.len() == 33 {
                Some(choose|p: Point| p@ == encoding)
            } else {
                None
            },
            None => None,
        }
    }

    /// What [`Point::spec_from_slice`] decodes, by its encoding.
    pub proof fn lemma_spec_from_slice(bytes: Seq<u8>)
        ensures
            Point::spec_from_slice(bytes) is Some <==> (spec_point_from_slice(bytes) matches Some(
                encoding,
            ) && encoding.len() == 33),
            Point::spec_from_slice(bytes) matches Some(p) ==> spec_point_from_slice(bytes) == Some(
                p@,
            ),
    {
        if let Some(encoding) = spec_point_from_slice(bytes) {
            if encoding.len() == 33 {
                let array: [u8; 33] = choose|a: [u8; 33]| a@ == encoding;
                assert(exists|a: [u8; 33]| a@ == encoding) by {
                    lemma_array_of_seq::<33>(encoding);
                }
                assert((Point { bytes: array })@ == encoding);
            }
        }
    }

    /// A point is told by its encoding.
    pub proof fn lemma_view_is_injective(self, other: Point)
        requires
            self@ == other@,
        ensures
            self == other,
    {
        assert(self.bytes =~= other.bytes);
    }

    /// Decodes a point from its compressed or uncompressed encoding.
    pub fn from_slice(bytes: &[u8]) -> (r: Option<Point>)
        ensures
            r is Some <==> spec_point_from_slice(bytes@) is Some,
            r matches Some(p) ==> spec_point_from_slice(bytes@) == Some(p@),
            r == Point::spec_from_slice(bytes@),
    {
        let r = point_from_slice(bytes);
        proof {
            if let Some(p) = r {
                p.lemma_view_is_injective(Point::spec_from_slice(bytes@)->0);
            }
        }
        r
    }

    /// The 33-byte compressed encoding of the point, from which the point
    /// decodes again.
    pub fn serialize(&self) -> (r: [u8; 33])
        ensures
            r@ == self@,
            spec_point_from_slice(r@) == Some(r@),
            Point::spec_from_slice(r@) == Some(*self),
    {
        proof {
            use_type_invariant(self);
            Point::lemma_spec_from_slice(self@);
            self.lemma_view_is_injective(Point::spec_from_slice(self@)->0);
        }
        self.bytes
    }
}

impl MaybePoint {
    /// Whether this is the point at infinity.
    pub fn is_infinity(&self) -> (r: bool)
        ensures
            r == (self@ is None),
    {
        match self {
            MaybePoint::Infinity => true,
            MaybePoint::Valid(_) => false,
        }
    }
}


/// Whether 33 bytes stand for the point at infinity: all of them are zero.
pub open spec fn is_infinity_encoding(bytes: Seq<u8>) -> bool {
    bytes.len() == 33 && forall|i: int| 0 <= i < 33 ==> bytes[i] == 0
}

/// Whether one of the two points of an aggregated nonce, given by its 66
/// bytes, is the point at infinity.
pub open spec fn has_infinity_part(agg_nonce: Seq<u8>) -> bool {
    agg_nonce.len() == 66 && (is_infinity_encoding(agg_nonce.subrange(0, 33))
        || is_infinity_encoding(agg_nonce.subrange(33, 66)))
}

/// Whether the bytes of `bytes` from `from` up to `to` are all zero.
fn is_zero_range(bytes: &[u8], from: usize, to: usize) -> (r: bool)
    requires
        from <= to <= bytes@.len(),
    ensures
        r == (forall|i: int| from <= i < to ==> bytes@[i] == 0),
{
    let mut i: usize = from;
    while i < to
        invariant
            from <= i <= to,
            to <= bytes@.len(),
            forall|j: int| from <= j < i ==> bytes@[j] == 0,
        decreases to - i,
    {
        if bytes[i] != 0 {
            return false;
        }
        i += 1;
    }
    true
}

/// The error of `musig2::KeyAggContext::new`: the keys add up to infinity.
#[verifier::external_type_specification]
#[verifier::external_body]
pub struct ExKeyAggError(musig2::errors::KeyAggError);

/// The error of `musig2::KeyAggContext::aggregated_seckey`.
#[verifier::external_type_specification]
#[verifier::external_body]
pub struct ExInvalidSecretKeysError(musig2::errors::InvalidSecretKeysError);

/// The error of `musig2::adaptor::sign_partial`.
#[verifier::external_type_specification]
#[verifier::external_body]
pub struct ExSigningError(musig2::errors::SigningError);

/// The error of `musig2::adaptor::aggregate_partial_signatures`.
#[verifier::external_type_specification]
#[verifier::external_body]
pub struct ExVerifyError(musig2::errors::VerifyError);

/// The error of turning a zero scalar into a non-zero one.
#[verifier::external_type_specification]
#[verifier::external_body]
pub struct ExZeroScalarError(secp::errors::ZeroScalarError);

/// The compressed encoding of the key that MuSig2 aggregates from two
/// public keys in this order; `None` where they add up to infinity. Names
/// what `musig2::KeyAggContext::new` hands to `aggregated_pubkey`.
pub uninterp spec fn spec_aggregated_pubkey(first: Seq<u8>, second: Seq<u8>) -> Option<Seq<u8>>;

/// The encoding of the private key that belongs to the aggregate of two
/// public keys, from the two private keys in the same order; `None` where
/// the private keys do not belong to the public ones. Names what
/// `musig2::KeyAggContext::aggregated_seckey` returns.
pub uninterp spec fn spec_aggregated_seckey(
    first: Seq<u8>,
    second: Seq<u8>,
    first_seckey: Seq<u8>,
    second_seckey: Seq<u8>,
) -> Option<Seq<u8>>;

/// The 64-byte encoding of the secret nonce built from a seed and salted
/// with an aggregated public key. Names what `musig2::SecNonceBuilder`
/// builds.
pub uninterp spec fn spec_sec_nonce(seed: Seq<u8>, aggregated_pubkey: Seq<u8>) -> Seq<u8>;

/// The 66-byte encoding of the public nonce of a secret nonce. Names what
/// `musig2::SecNonce::public_nonce` returns.
pub uninterp spec fn spec_public_nonce(sec_nonce: Seq<u8>) -> Seq<u8>;

/// The 66-byte encoding of the sum of two public nonces. Names what
/// `musig2::AggNonce::sum` returns.
pub uninterp spec fn spec_agg_nonce(first: Seq<u8>, second: Seq<u8>) -> Seq<u8>;

/// The encoding of the partial signature on `message` by `seckey` with
/// `sec_nonce`, for the key aggregated from `first` and `second`, under an
/// aggregated nonce and an adaptor point (`None`: infinity); `None` where
/// signing fails. Names what `musig2::adaptor::sign_partial` returns.
pub uninterp spec fn spec_partial_signature(
    first: Seq<u8>,
    second: Seq<u8>,
    seckey: Seq<u8>,
    sec_nonce: Seq<u8>,
    agg_nonce: Seq<u8>,
    adaptor_point: Option<Seq<u8>>,
    message: Seq<u8>,
) -> Option<Seq<u8>>;

/// The 65-byte encoding of the adaptor signature that two partial
/// signatures add up to; `None` where it does not verify. Names what
/// `musig2::adaptor::aggregate_partial_signatures` returns.
pub uninterp spec fn spec_aggregated_signature(
    first: Seq<u8>,
    second: Seq<u8>,
    agg_nonce: Seq<u8>,
    adaptor_point: Option<Seq<u8>>,
    first_sig: Seq<u8>,
    second_sig: Seq<u8>,
    message: Seq<u8>,
) -> Option<Seq<u8>>;

/// Whether an adaptor signature on `message` verifies under `pubkey` and
/// an adaptor point (`None`: infinity, an ordinary signature). Names
/// whether `musig2::adaptor::verify_single` returns `Ok`.
pub uninterp spec fn spec_adaptor_signature_verifies(
    pubkey: Seq<u8>,
    signature: Seq<u8>,
    message: Seq<u8>,
    adaptor_point: Option<Seq<u8>>,
) -> bool;

/// The encoding of the adaptor secret that a completed signature reveals
/// of the adaptor signature it was completed from; `None` where the 64
/// bytes of `final_signature` encode no signature, the two signatures are
/// unrelated, or the secret is zero. Names what
/// `musig2::AdaptorSignature::reveal_secret` returns.
pub uninterp spec fn spec_revealed_secret(
    adaptor_signature: Seq<u8>,
    final_signature: Seq<u8>,
) -> Option<Seq<u8>>;

/// A partial signature: a scalar in `[0, n)`, held as its 32-byte encoding.
#[derive(Clone, Copy, Debug)]
pub struct PartialSignature {
    bytes: [u8; 32],
}

impl View for PartialSignature {
    type V = Seq<u8>;

    closed spec fn view(&self) -> Seq<u8> {
        self.bytes@
    }
}

/// A public nonce: two curve points, held as their 66-byte encoding.
#[derive(Clone, Copy, Debug)]
pub struct PubNonce {
    bytes: [u8; 66],
}

impl View for PubNonce {
    type V = Seq<u8>;

    closed spec fn view(&self) -> Seq<u8> {
        self.bytes@
    }
}

/// A secret nonce: two non-zero scalars, held as their 64-byte encoding.
/// To be used for one signature only.
pub struct SecNonce {
    bytes: [u8; 64],
}

impl View for SecNonce {
    type V = Seq<u8>;

    closed spec fn view(&self) -> Seq<u8> {
        self.bytes@
    }
}

/// The sum of the signers' public nonces, held as its 66-byte encoding.
#[derive(Clone, Copy, Debug)]
pub struct AggNonce {
    bytes: [u8; 66],
}

impl View for AggNonce {
    type V = Seq<u8>;

    closed spec fn view(&self) -> Seq<u8> {
        self.bytes@
    }
}

/// An aggregated signature that becomes valid once its adaptor secret is
/// added, held as its 65-byte encoding: nonce point, then scalar.
#[derive(Clone, Copy, Debug)]
pub struct AdaptorSignature {
    bytes: [u8; 65],
}

impl View for AdaptorSignature {
    type V = Seq<u8>;

    closed spec fn view(&self) -> Seq<u8> {
        self.bytes@
    }
}

/// Two public keys in the order of aggregation, and the key that they
/// aggregate to. Values are made only by [`KeyAggContext::new`].
#[derive(Clone, Copy, Debug)]
pub struct KeyAggContext {
    first: Point,
    second: Point,
    aggregated: Point,
}

impl KeyAggContext {
    /// The third key is what the first two aggregate to.
    #[verifier::type_invariant]
    spec fn is_valid(&self) -> bool {
        spec_aggregated_pubkey(self.first@, self.second@) == Some(self.aggregated@)
    }

    /// The first of the two aggregated keys.
    pub closed spec fn spec_first(&self) -> Point {
        self.first
    }

    /// The second of the two aggregated keys.
    pub closed spec fn spec_second(&self) -> Point {
        self.second
    }

    /// The aggregated key.
    pub closed spec fn spec_aggregated_pubkey(&self) -> Point {
        self.aggregated
    }
}

/// Calls `secp::MaybeScalar::from_slice`, which accepts exactly the 32-byte
/// big-endian encodings of the numbers in `[0, n)` and keeps the bytes.
#[verifier::external_body]
fn maybe_scalar_from_slice(bytes: &[u8]) -> (r: Option<PartialSignature>)
    ensures
        r is Some <==> is_maybe_scalar_encoding(bytes@),
        r matches Some(s) ==> s@ == bytes@,
{
    match secp::MaybeScalar::from_slice(bytes) {
        Ok(s) => Some(PartialSignature { bytes: s.serialize() }),
        Err(_) => None,
    }
}

/// Calls `musig2::PubNonce::from_bytes`, which accepts exactly the 66-byte
/// strings whose halves each decode as a point, and keeps the bytes.
#[verifier::external_body]
fn pub_nonce_from_bytes(bytes: &[u8]) -> (r: Option<PubNonce>)
    ensures
        r is Some <==> is_pub_nonce_encoding(bytes@),
        r matches Some(n) ==> n@ == bytes@,
{
    match musig2::PubNonce::from_bytes(bytes) {
        Ok(n) => Some(PubNonce { bytes: n.to_bytes() }),
        Err(_) => None,
    }
}

/// Calls `musig2::KeyAggContext::new` on two keys in this order, and
/// `aggregated_pubkey` on the context; the key is named by
/// [`spec_aggregated_pubkey`]. The call fails where the keys add up to
/// infinity, and only there; else the key is a point of the curve.
#[verifier::external_body]
fn key_agg_context_new(first: &Point, second: &Point) -> (r: Result<
    KeyAggContext,
    musig2::errors::KeyAggError,
>)
    ensures
        r is Ok <==> spec_aggregated_pubkey(first@, second@) is Some,
        r matches Ok(c) ==> spec_aggregated_pubkey(first@, second@) == Some(
            c.spec_aggregated_pubkey()@,
        ),
        r matches Ok(c) ==> c.spec_first() == *first,
        r matches Ok(c) ==> c.spec_second() == *second,
{
    let keys = [first.bytes, second.bytes].map(|b| secp::Point::from_slice(&b).unwrap());
    let ctx = musig2::KeyAggContext::new(keys)?;
    let aggregated: secp::Point = ctx.aggregated_pubkey();
    let aggregated = Point { bytes: aggregated.serialize() };
    Ok(KeyAggContext { first: *first, second: *second, aggregated })
}

/// Calls `musig2::KeyAggContext::aggregated_seckey` with two private keys
/// in the order of the context's public keys; the key, which is not zero,
/// is named by [`spec_aggregated_seckey`]. The context is built again from
/// its two public keys, which cannot fail, as it was built from them
/// before.
#[verifier::external_body]
fn key_agg_context_aggregated_seckey(
    ctx: &KeyAggContext,
    first_seckey: &Scalar,
    second_seckey: &Scalar,
) -> (r: Result<Scalar, musig2::errors::InvalidSecretKeysError>)
    ensures
        ok_view(r) == spec_aggregated_seckey(
            ctx.spec_first()@,
            ctx.spec_second()@,
            first_seckey@,
            second_seckey@,
        ),
{
    let keys = [ctx.first.bytes, ctx.second.bytes].map(|b| secp::Point::from_slice(&b).unwrap());
    let seckeys = [first_seckey.bytes, second_seckey.bytes];
    let seckeys = seckeys.map(|b| secp::Scalar::from_slice(&b).unwrap());
    let ctx = musig2::KeyAggContext::new(keys).unwrap();
    let seckey: secp::Scalar = ctx.aggregated_seckey(seckeys)?;
    Ok(Scalar { bytes: seckey.serialize() })
}

/// Calls `musig2::SecNonceBuilder::new` with a seed, `with_aggregated_pubkey`
/// and `build`; the nonce is named by [`spec_sec_nonce`].
#[verifier::external_body]
fn sec_nonce_build(seed: &[u8; 32], aggregated_pubkey: &Point) -> (r: SecNonce)
    ensures
        r@ == spec_sec_nonce(seed@, aggregated_pubkey@),
{
    let pubkey = secp::Point::from_slice(&aggregated_pubkey.bytes).unwrap();
    let nonce = musig2::SecNonceBuilder::new(seed).with_aggregated_pubkey(pubkey).build();
    SecNonce { bytes: nonce.to_bytes() }
}

/// Calls `musig2::SecNonce::public_nonce`; the nonce is named by
/// [`spec_public_nonce`]. It is made of two points of the curve, as the
/// invariant of [`PubNonce`] says.
#[verifier::external_body]
fn sec_nonce_public_nonce(sec_nonce: &SecNonce) -> (r: PubNonce)
    ensures
        r@ == spec_public_nonce(sec_nonce@),
{
    let nonce = musig2::SecNonce::from_bytes(&sec_nonce.bytes).unwrap();
    PubNonce { bytes: nonce.public_nonce().to_bytes() }
}

/// Calls `musig2::AggNonce::sum` on two public nonces in this order; the
/// sum is named by [`spec_agg_nonce`].
#[verifier::external_body]
fn agg_nonce_sum(first: &PubNonce, second: &PubNonce) -> (r: AggNonce)
    ensures
        r@ == spec_agg_nonce(first@, second@),
{
    let nonces = [first.bytes, second.bytes];
    let nonces = nonces.map(|b| musig2::PubNonce::from_bytes(&b).unwrap());
    AggNonce { bytes: musig2::AggNonce::sum(nonces).to_bytes() }
}

/// Calls `musig2::adaptor::sign_partial`, with the context built again from
/// its two public keys and the adaptor point decoded, or infinity; the
/// signature, a scalar in `[0, n)`, is named by [`spec_partial_signature`].
#[verifier::external_body]
fn adaptor_sign_partial(
    ctx: &KeyAggContext,
    seckey: &Scalar,
    sec_nonce: &SecNonce,
    agg_nonce: &AggNonce,
    adaptor_point: &MaybePoint,
    message: &[u8],
) -> (r: Result<PartialSignature, musig2::errors::SigningError>)
    ensures
        ok_view(r) == spec_partial_signature(
            ctx.spec_first()@,
            ctx.spec_second()@,
            seckey@,
            sec_nonce@,
            agg_nonce@,
            adaptor_point@,
            message@,
        ),
{
    let keys = [ctx.first.bytes, ctx.second.bytes].map(|b| secp::Point::from_slice(&b).unwrap());
    let ctx = musig2::KeyAggContext::new(keys).unwrap();
    let seckey = secp::Scalar::from_slice(&seckey.bytes).unwrap();
    let nonce = musig2::SecNonce::from_bytes(&sec_nonce.bytes).unwrap();
    let agg_nonce = musig2::AggNonce::from_bytes(&agg_nonce.bytes).unwrap();
    let point = match adaptor_point {
        MaybePoint::Infinity => secp::MaybePoint::Infinity,
        MaybePoint::Valid(p) => secp::MaybePoint::from_slice(&p.bytes).unwrap(),
    };
    let sig: secp::MaybeScalar =
        musig2::adaptor::sign_partial(&ctx, seckey, nonce, &agg_nonce, point, message)?;
    Ok(PartialSignature { bytes: sig.serialize() })
}

/// Calls `musig2::adaptor::aggregate_partial_signatures` with two partial
/// signatures in the order of the context's keys; the signature is named
/// by [`spec_aggregated_signature`]. The call returns `Ok` only after the
/// check that `musig2::adaptor::verify_single` makes of the signature,
/// under the aggregated key and the same message and adaptor point.
#[verifier::external_body]
fn adaptor_aggregate_partial_signatures(
    ctx: &KeyAggContext,
    agg_nonce: &AggNonce,
    adaptor_point: &MaybePoint,
    first_sig: &PartialSignature,
    second_sig: &PartialSignature,
    message: &[u8],
) -> (r: Result<AdaptorSignature, musig2::errors::VerifyError>)
    ensures
        ok_view(r) == spec_aggregated_signature(
            ctx.spec_first()@,
            ctx.spec_second()@,
            agg_nonce@,
            adaptor_point@,
            first_sig@,
            second_sig@,
            message@,
        ),
        r matches Ok(s) ==> spec_adaptor_signature_verifies(
            ctx.spec_aggregated_pubkey()@,
            s@,
            message@,
            adaptor_point@,
        ),
{
    let keys = [ctx.first.bytes, ctx.second.bytes].map(|b| secp::Point::from_slice(&b).unwrap());
    let ctx = musig2::KeyAggContext::new(keys).unwrap();
    let nonce = musig2::AggNonce::from_bytes(&agg_nonce.bytes).unwrap();
    let point = match adaptor_point {
        MaybePoint::Infinity => secp::MaybePoint::Infinity,
        MaybePoint::Valid(p) => secp::MaybePoint::from_slice(&p.bytes).unwrap(),
    };
    let sigs = [first_sig.bytes, second_sig.bytes];
    let sigs = sigs.map(|b| secp::MaybeScalar::from_slice(&b).unwrap());
    let sig = musig2::adaptor::aggregate_partial_signatures(&ctx, &nonce, point, sigs, message)?;
    Ok(AdaptorSignature { bytes: sig.to_bytes() })
}

/// Calls `musig2::adaptor::verify_single`; whether it returns `Ok` is named
/// by [`spec_adaptor_signature_verifies`].
#[verifier::external_body]
fn adaptor_verify_single(
    pubkey: &Point,
    signature: &AdaptorSignature,
    message: &[u8],
    adaptor_point: &MaybePoint,
) -> (r: bool)
    ensures
        r == spec_adaptor_signature_verifies(pubkey@, signature@, message@, adaptor_point@),
{
    let pubkey = secp::Point::from_slice(&pubkey.bytes).unwrap();
    let sig = musig2::AdaptorSignature::from_bytes(&signature.bytes).unwrap();
    let adaptor = match adaptor_point {
        MaybePoint::Infinity => secp::MaybePoint::Infinity,
        MaybePoint::Valid(p) => secp::MaybePoint::from_slice(&p.bytes).unwrap(),
    };
    musig2::adaptor::verify_single(pubkey, &sig, message, adaptor).is_ok()
}

/// Calls `musig2::AdaptorSignature::reveal_secret` with the signature that
/// `musig2::LiftedSignature::from_bytes` decodes from `final_signature`;
/// the secret, where there is one and it is not zero, is named by
/// [`spec_revealed_secret`].
#[verifier::external_body]
fn adaptor_reveal_secret(adaptor_signature: &AdaptorSignature, final_signature: &[u8]) -> (r:
    Option<Scalar>)
    ensures
        some_view(r) == spec_revealed_secret(adaptor_signature@, final_signature@),
{
    let adaptor = musig2::AdaptorSignature::from_bytes(&adaptor_signature.bytes).unwrap();
    let final_signature = musig2::LiftedSignature::from_bytes(final_signature).ok()?;
    let secret: secp::MaybeScalar = adaptor.reveal_secret(&final_signature)?;
    secret.into_option().map(|s| Scalar { bytes: s.serialize() })
}

impl PartialSignature {
    /// The bytes of a partial signature are the encoding of a number in
    /// `[0, n)`.
    #[verifier::type_invariant]
    spec fn is_valid(&self) -> bool {
        is_maybe_scalar_encoding(self.bytes@)
    }

    /// The partial signature that `bytes` encode, if they encode one.
    pub closed spec fn spec_from_slice(bytes: Seq<u8>) -> Option<PartialSignature> {
        if is_maybe_scalar_encoding(bytes) {
            Some(choose|s: PartialSignature| s@ == bytes)
        } else {
            None
        }
    }

    /// What [`PartialSignature::spec_from_slice`] decodes, by its encoding.
    pub proof fn lemma_spec_from_slice(bytes: Seq<u8>)
        ensures
            PartialSignature::spec_from_slice(bytes) is Some <==> is_maybe_scalar_encoding(bytes),
            PartialSignature::spec_from_slice(bytes) matches Some(s) ==> s@ == bytes,
    {
        if is_maybe_scalar_encoding(bytes) {
            let array: [u8; 32] = choose|a: [u8; 32]| a@ == bytes;
            assert(exists|a: [u8; 32]| a@ == bytes) by {
                lemma_array_of_seq::<32>(bytes);
            }
            assert((PartialSignature { bytes: array })@ == bytes);
        }
    }

    /// A partial signature is told by its encoding.
    pub proof fn lemma_view_is_injective(self, other: PartialSignature)
        requires
            self@ == other@,
        ensures
            self == other,
    {
        assert(self.bytes =~= other.bytes);
    }

    /// Decodes a partial signature from its 32-byte big-endian encoding.
    pub fn from_slice(bytes: &[u8]) -> (r: Option<PartialSignature>)
        ensures
            r is Some <==> is_maybe_scalar_encoding(bytes@),
            r matches Some(s) ==> s@ == bytes@,
            r == PartialSignature::spec_from_slice(bytes@),
    {
        let r = maybe_scalar_from_slice(bytes);
        proof {
            if let Some(s) = r {
                s.lemma_view_is_injective(PartialSignature::spec_from_slice(bytes@)->0);
            }
        }
        r
    }

    /// The 32-byte big-endian encoding of the partial signature, from
    /// which the partial signature decodes again.
    pub fn serialize(&self) -> (r: [u8; 32])
        ensures
            r@ == self@,
            is_maybe_scalar_encoding(r@),
            PartialSignature::spec_from_slice(r@) == Some(*self),
    {
        proof {
            use_type_invariant(self);
            PartialSignature::lemma_spec_from_slice(self@);
            self.lemma_view_is_injective(PartialSignature::spec_from_slice(self@)->0);
        }
        self.bytes
    }
}

impl PubNonce {
    /// The bytes of a public nonce are the encodings of two points.
    #[verifier::type_invariant]
    spec fn is_valid(&self) -> bool {
        is_pub_nonce_encoding(self.bytes@)
    }

    /// The public nonce that `bytes` encode, if they encode one.
    pub closed spec fn spec_from_bytes(bytes: Seq<u8>) -> Option<PubNonce> {
        if is_pub_nonce_encoding(bytes) {
            Some(choose|n: PubNonce| n@ == bytes)
        } else {
            None
        }
    }

    /// What [`PubNonce::spec_from_bytes`] decodes, by its encoding.
    pub proof fn lemma_spec_from_bytes(bytes: Seq<u8>)
        ensures
            PubNonce::spec_from_bytes(bytes) is Some <==> is_pub_nonce_encoding(bytes),
            PubNonce::spec_from_bytes(bytes) matches Some(n) ==> n@ == bytes,
    {
        if is_pub_nonce_encoding(bytes) {
            let array: [u8; 66] = choose|a: [u8; 66]| a@ == bytes;
            assert(exists|a: [u8; 66]| a@ == bytes) by {
                lemma_array_of_seq::<66>(bytes);
            }
            assert((PubNonce { bytes: array })@ == bytes);
        }
    }

    /// A public nonce is told by its encoding.
    pub proof fn lemma_view_is_injective(self, other: PubNonce)
        requires
            self@ == other@,
        ensures
            self == other,
    {
        assert(self.bytes =~= other.bytes);
    }

    /// Decodes a public nonce from its 66-byte encoding: two compressed
    /// points.
    pub fn from_bytes(bytes: &[u8]) -> (r: Option<PubNonce>)
        ensures
            r is Some <==> is_pub_nonce_encoding(bytes@),
            r matches Some(n) ==> n@ == bytes@,
            r == PubNonce::spec_from_bytes(bytes@),
    {
        let r = pub_nonce_from_bytes(bytes);
        proof {
            if let Some(n) = r {
                n.lemma_view_is_injective(PubNonce::spec_from_bytes(bytes@)->0);
            }
        }
        r
    }

    /// The 66-byte encoding of the public nonce, from which the public
    /// nonce decodes again.
    pub fn serialize(&self) -> (r: [u8; 66])
        ensures
            r@ == self@,
            is_pub_nonce_encoding(r@),
            PubNonce::spec_from_bytes(r@) == Some(*self),
    {
        proof {
            use_type_invariant(self);
            PubNonce::lemma_spec_from_bytes(self@);
            self.lemma_view_is_injective(PubNonce::spec_from_bytes(self@)->0);
        }
        self.bytes
    }
}

impl SecNonce {
    /// Builds the secret nonce for a seed, bound to an aggregated public
    /// key. The seed must be fresh random bytes for every nonce.
    pub fn build(seed: &[u8; 32], aggregated_pubkey: &Point) -> (r: SecNonce)
        ensures
            r@ == spec_sec_nonce(seed@, aggregated_pubkey@),
    {
        sec_nonce_build(seed, aggregated_pubkey)
    }

    /// The public nonce to hand to the other signer.
    pub fn public_nonce(&self) -> (r: PubNonce)
        ensures
            r@ == spec_public_nonce(self@),
    {
        sec_nonce_public_nonce(self)
    }
}

impl AggNonce {
    /// The sum of two public nonces, `first` being that of the first key of
    /// the aggregation.
    pub fn sum(first: &PubNonce, second: &PubNonce) -> (r: AggNonce)
        ensures
            r@ == spec_agg_nonce(first@, second@),
    {
        agg_nonce_sum(first, second)
    }

    /// The 66-byte encoding of the aggregated nonce.
    pub fn serialize(&self) -> (r: [u8; 66])
        ensures
            r@ == self@,
    {
        self.bytes
    }

    /// Whether one of the two points of the nonce is the point at infinity,
    /// as it is where the signers' nonces cancel each other.
    pub fn has_infinity_part(&self) -> (r: bool)
        ensures
            r == has_infinity_part(self@),
    {
        let bytes = self.bytes.as_slice();
        let first = is_zero_range(bytes, 0, 33);
        let second = is_zero_range(bytes, 33, 66);
        assert(first == is_infinity_encoding(self@.subrange(0, 33))) by {
            assert(forall|i: int| 0 <= i < 33 ==> self@.subrange(0, 33)[i] == bytes@[i]);
        }
        assert(second == is_infinity_encoding(self@.subrange(33, 66))) by {
            let part = self@.subrange(33, 66);
            if second {
                assert forall|i: int| 0 <= i < 33 implies part[i] == 0 by {
                    assert(bytes@[i + 33] == 0);
                }
            } else if is_infinity_encoding(part) {
                assert forall|i: int| 33 <= i < 66 implies bytes@[i] == 0 by {
                    assert(part[i - 33] == 0);
                }
            }
        }
        first || second
    }
}

impl AdaptorSignature {
    /// The 65-byte encoding of the signature: nonce point, then scalar.
    pub fn serialize(&self) -> (r: [u8; 65])
        ensures
            r@ == self@,
    {
        self.bytes
    }

    /// The adaptor secret that a completed signature, given by its 64
    /// bytes, reveals of this adaptor signature, if it reveals one.
    pub fn reveal_secret(&self, final_signature: &[u8]) -> (r: Option<Scalar>)
        ensures
            r is Some <==> spec_revealed_secret(self@, final_signature@) is Some,
            r matches Some(s) ==> spec_revealed_secret(self@, final_signature@) == Some(s@),
    {
        adaptor_reveal_secret(self, final_signature)
    }

    /// Whether the signature verifies as an adaptor signature on `message`
    /// under `pubkey` and `adaptor_point`; with the point at infinity, as an
    /// ordinary Schnorr signature.
    pub fn verify(&self, pubkey: &Point, message: &[u8], adaptor_point: &MaybePoint) -> (r: bool)
        ensures
            r == spec_adaptor_signature_verifies(pubkey@, self@, message@, adaptor_point@),
    {
        adaptor_verify_single(pubkey, self, message, adaptor_point)
    }
}

impl KeyAggContext {
    /// Aggregates two public keys, in this order.
    pub fn new(first: &Point, second: &Point) -> (r: Result<
        KeyAggContext,
        musig2::errors::KeyAggError,
    >)
        ensures
            r is Ok <==> spec_aggregated_pubkey(first@, second@) is Some,
            r matches Ok(c) ==> c.spec_first() == *first,
            r matches Ok(c) ==> c.spec_second() == *second,
            r matches Ok(c) ==> spec_aggregated_pubkey(first@, second@) == Some(
                c.spec_aggregated_pubkey()@,
            ),
    {
        key_agg_context_new(first, second)
    }

    /// The aggregated public key.
    pub fn aggregated_pubkey(&self) -> (r: Point)
        ensures
            r == self.spec_aggregated_pubkey(),
            spec_aggregated_pubkey(self.spec_first()@, self.spec_second()@) == Some(r@),
    {
        proof {
            use_type_invariant(self);
        }
        self.aggregated
    }

    /// The private key of the aggregated key, from the two private keys in
    /// the order of the public keys.
    pub fn aggregated_seckey(&self, first_seckey: &Scalar, second_seckey: &Scalar) -> (r: Result<
        Scalar,
        musig2::errors::InvalidSecretKeysError,
    >)
        ensures
            r is Ok <==> spec_aggregated_seckey(
                self.spec_first()@,
                self.spec_second()@,
                first_seckey@,
                second_seckey@,
            ) is Some,
            r matches Ok(k) ==> spec_aggregated_seckey(
                self.spec_first()@,
                self.spec_second()@,
                first_seckey@,
                second_seckey@,
            ) == Some(k@),
    {
        key_agg_context_aggregated_seckey(self, first_seckey, second_seckey)
    }

    /// Signs `message` partially with `seckey` and `sec_nonce`. A secret
    /// nonce must not be used again once a signature made with it is kept.
    pub fn sign_partial(
        &self,
        seckey: &Scalar,
        sec_nonce: &SecNonce,
        agg_nonce: &AggNonce,
        adaptor_point: &MaybePoint,
        message: &[u8],
    ) -> (r: Result<PartialSignature, musig2::errors::SigningError>)
        ensures
            r is Ok <==> spec_partial_signature(
                self.spec_first()@,
                self.spec_second()@,
                seckey@,
                sec_nonce@,
                agg_nonce@,
                adaptor_point@,
                message@,
            ) is Some,
            r matches Ok(s) ==> spec_partial_signature(
                self.spec_first()@,
                self.spec_second()@,
                seckey@,
                sec_nonce@,
                agg_nonce@,
                adaptor_point@,
                message@,
            ) == Some(s@),
    {
        adaptor_sign_partial(self, seckey, sec_nonce, agg_nonce, adaptor_point, message)
    }

    /// Adds up two partial signatures, `first_sig` being that of the first
    /// key. The result is returned only if it verifies.
    pub fn aggregate_partial_signatures(
        &self,
        agg_nonce: &AggNonce,
        adaptor_point: &MaybePoint,
        first_sig: &PartialSignature,
        second_sig: &PartialSignature,
        message: &[u8],
    ) -> (r: Result<AdaptorSignature, musig2::errors::VerifyError>)
        ensures
            r is Ok <==> spec_aggregated_signature(
                self.spec_first()@,
                self.spec_second()@,
                agg_nonce@,
                adaptor_point@,
                first_sig@,
                second_sig@,
                message@,
            ) is Some,
            r matches Ok(s) ==> spec_aggregated_signature(
                self.spec_first()@,
                self.spec_second()@,
                agg_nonce@,
                adaptor_point@,
                first_sig@,
                second_sig@,
                message@,
            ) == Some(s@),
            r matches Ok(s) ==> spec_adaptor_signature_verifies(
                self.spec_aggregated_pubkey()@,
                s@,
                message@,
                adaptor_point@,
            ),
    {
        adaptor_aggregate_partial_signatures(
            self,
            agg_nonce,
            adaptor_point,
            first_sig,
            second_sig,
            message,
        )
    }
}

} // verus!
