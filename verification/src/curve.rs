//! Scalars and points of the Jubjub prime-order subgroup.
//!
//! A `Scalar` carries the canonical 32-byte little-endian encoding of an
//! element of the scalar field `F_q`; its mathematical value is
//! `nat_of_le(bytes)`, always below the group order `q`.
//!
//! A `Point` carries the canonical 32-byte compressed encoding of an element
//! of the prime-order subgroup. That subgroup is cyclic of prime order `q`,
//! so every element is uniquely `x * G` for the fixed generator `G` and a
//! unique `x < q`; the uninterpreted `pt_val` maps an encoding to that `x`
//! and `pt_enc` maps `x` back to the canonical encoding. Point addition adds
//! these values mod `q` and scalar multiplication multiplies them mod `q`:
//! this is the ordinary discrete-log view of a cyclic group, and it is the
//! whole interface the protocol needs from the curve. The arithmetic itself
//! is done by the `jubjub` crate behind the trusted wrappers below.

use vstd::prelude::*;

use crate::encoding::{clone_bytes, eq_bytes, nat_of_le};
use rand::RngCore;

verus! {

use crate::encoding::{lemma_nat_of_le_injective, lemma_nat_of_le_zero};

/// The order `q` of the Jubjub prime-order subgroup, which is also the
/// modulus of its scalar field (`jubjub::Fr`, `MODULUS` in `fr.rs`).
pub open spec fn group_order() -> nat {
    0x0e7db4ea6533afa906673b0101343b00a6682093ccc81082d0970e5ed6f72cb7nat
}

/// The discrete log, base the subgroup generator, of the subgroup element
/// with the given canonical encoding.
pub uninterp spec fn pt_val(enc: Seq<u8>) -> nat;

/// The canonical 32-byte compressed encoding of `v * G`.
pub uninterp spec fn pt_enc(v: nat) -> Seq<u8>;

/// Whether the bytes are the canonical encoding of a prime-order-subgroup
/// element, i.e. whether `jubjub::AffinePoint::from_bytes` accepts them and
/// the decoded point is torsion free.
pub uninterp spec fn is_point_encoding(enc: Seq<u8>) -> bool;

/// The discrete log of the second, independent generator `H`, derived by
/// hash-to-curve from the encoding of the generator handed as argument.
pub uninterp spec fn base2_val(gen_enc: Seq<u8>) -> nat;

/// The multiplicative inverse, mod the group order, of the second
/// generator's discrete log. The subgroup's order is prime and `H` is not
/// the identity, so its discrete log has an inverse.
pub uninterp spec fn base2_inv(gen_enc: Seq<u8>) -> nat;

/// The discrete log of the second generator `H`.
pub open spec fn base2() -> nat {
    base2_val(pt_enc(1))
}

/// The canonical encoding of the second generator `H`.
pub open spec fn base2_enc() -> Seq<u8> {
    pt_enc(base2())
}

/// An element of the Jubjub scalar field `F_q`, as its canonical 32-byte
/// little-endian encoding.
#[derive(Debug)]
pub struct Scalar {
    le: Vec<u8>,
}

/// An element of the Jubjub prime-order subgroup, as its canonical 32-byte
/// compressed encoding.
#[derive(Debug)]
pub struct Point {
    enc: Vec<u8>,
}

impl Scalar {
    /// The canonical little-endian encoding.
    pub closed spec fn bytes(self) -> Seq<u8> {
        self.le@
    }

    /// The field element as an unsigned integer, below `group_order()`.
    pub open spec fn val(self) -> nat {
        nat_of_le(self.bytes())
    }

    #[verifier::type_invariant]
    pub open spec fn wf(self) -> bool {
        self.bytes().len() == 32 && self.val() < group_order()
    }
}

impl Point {
    /// The canonical compressed encoding.
    pub closed spec fn bytes(self) -> Seq<u8> {
        self.enc@
    }

    /// The discrete log of this element, base the subgroup generator.
    pub open spec fn val(self) -> nat {
        pt_val(self.bytes())
    }

    #[verifier::type_invariant]
    pub open spec fn wf(self) -> bool {
        self.bytes().len() == 32 && self.val() < group_order() && self.bytes() == pt_enc(
            self.val(),
        )
    }
}

/// The group order's canonical 32-byte little-endian encoding.
pub fn group_order_le_bytes() -> (r: Vec<u8>)
    ensures
        r@.len() == 32,
        nat_of_le(r@) == group_order(),
{
    let r: Vec<u8> = vec![
        0xb7, 0x2c, 0xf7, 0xd6, 0x5e, 0x0e, 0x97, 0xd0, 0x82, 0x10, 0xc8, 0xcc, 0x93, 0x20,
        0x68, 0xa6, 0x00, 0x3b, 0x34, 0x01, 0x01, 0x3b, 0x67, 0x06, 0xa9, 0xaf, 0x33, 0x65,
        0xea, 0xb4, 0x7d, 0x0e,
    ];
    proof {
        reveal_with_fuel(nat_of_le, 33);
        assert(nat_of_le(r@) == group_order());
    }
    r
}

/// Equal discrete logs have equal canonical encodings: two well-formed
/// points with one value are the same point on the wire.
pub proof fn lemma_point_eq(a: Point, b: Point)
    requires
        a.wf(),
        b.wf(),
        a.val() == b.val(),
    ensures
        a.bytes() == b.bytes(),
{
}

/// Equal scalar values have equal canonical encodings.
pub proof fn lemma_scalar_eq(a: Scalar, b: Scalar)
    requires
        a.wf(),
        b.wf(),
        a.val() == b.val(),
    ensures
        a.bytes() == b.bytes(),
{
    lemma_nat_of_le_injective(a.bytes(), b.bytes());
}

/// Relies on `jubjub::Fr`: adds two field elements; the canonical encoding
/// of the sum denotes `(a + b) mod q`.
#[verifier::external_body]
fn scalar_add_raw(a: &Scalar, b: &Scalar) -> (r: Scalar)
    ensures
        r.val() == (a.val() + b.val()) % group_order(),
{
    let mut ab = [0u8; 32];
    ab.copy_from_slice(a.le.as_slice());
    let mut bb = [0u8; 32];
    bb.copy_from_slice(b.le.as_slice());
    let x = Option::<jubjub::Fr>::from(jubjub::Fr::from_bytes(&ab)).expect("canonical scalar")
        + Option::<jubjub::Fr>::from(jubjub::Fr::from_bytes(&bb)).expect("canonical scalar");
    Scalar { le: x.to_bytes().to_vec() }
}

/// Relies on `jubjub::Fr`: multiplies two field elements; the canonical
/// encoding of the product denotes `(a * b) mod q`.
#[verifier::external_body]
fn scalar_mul_raw(a: &Scalar, b: &Scalar) -> (r: Scalar)
    ensures
        r.val() == (a.val() * b.val()) % group_order(),
{
    let mut ab = [0u8; 32];
    ab.copy_from_slice(a.le.as_slice());
    let mut bb = [0u8; 32];
    bb.copy_from_slice(b.le.as_slice());
    let x = Option::<jubjub::Fr>::from(jubjub::Fr::from_bytes(&ab)).expect("canonical scalar")
        * Option::<jubjub::Fr>::from(jubjub::Fr::from_bytes(&bb)).expect("canonical scalar");
    Scalar { le: x.to_bytes().to_vec() }
}

/// Relies on `jubjub::Fr::from_bytes_wide`: reduces a 512-bit little-endian
/// integer mod `q`.
#[verifier::external_body]
fn scalar_from_wide_raw(wide: &Vec<u8>) -> (r: Scalar)
    requires
        wide@.len() == 64,
    ensures
        r.val() == nat_of_le(wide@) % group_order(),
{
    let mut buf = [0u8; 64];
    buf.copy_from_slice(wide.as_slice());
    let x = jubjub::Fr::from_bytes_wide(&buf);
    Scalar { le: x.to_bytes().to_vec() }
}

/// Relies on `jubjub::Fr::from(u64)`: embeds a small integer, which is
/// already below `q`, so the value is exact.
#[verifier::external_body]
fn scalar_from_u64_raw(x: u64) -> (r: Scalar)
    ensures
        r.val() == x as nat,
{
    let v = jubjub::Fr::from(x);
    Scalar { le: v.to_bytes().to_vec() }
}

/// Relies on `jubjub::Fr::from_bytes`: accepts exactly the canonical
/// little-endian encodings, those 32-byte strings denoting a value below `q`.
#[verifier::external_body]
fn scalar_from_bytes_raw(le: &Vec<u8>) -> (r: Option<Scalar>)
    ensures
        r is Some <==> (le@.len() == 32 && nat_of_le(le@) < group_order()),
        r is Some ==> r->0.bytes() == le@,
{
    if le.len() != 32 {
        return None;
    }
    let mut buf = [0u8; 32];
    buf.copy_from_slice(le.as_slice());
    let ct = jubjub::Fr::from_bytes(&buf);
    let opt: Option<jubjub::Fr> = ct.into();
    match opt {
        Some(_) => Some(Scalar { le: le.clone() }),
        None => None,
    }
}

/// Relies on `rand::rngs::OsRng`: fills a vector with bytes from the
/// operating system's entropy source. Nothing is known of the contents.
#[verifier::external_body]
pub(crate) fn random_bytes(n: usize) -> (r: Vec<u8>)
    ensures
        r@.len() == n,
{
    let mut v = vec![0u8; n];
    rand::rngs::OsRng.fill_bytes(&mut v);
    v
}

/// Relies on `zeroize`: overwrites the scalar's bytes with zeros in place.
#[verifier::external_body]
fn scalar_zeroize_raw(s: &mut Scalar)
    ensures
        final(s).bytes().len() == 32,
        forall|i: int| 0 <= i < 32 ==> final(s).bytes()[i] == 0,
{
    zeroize::Zeroize::zeroize(&mut s.le[..]);
}

/// Relies on `jubjub::SubgroupPoint::generator`: the fixed generator of the
/// prime-order subgroup; its discrete log base itself is 1.
#[verifier::external_body]
fn generator_raw() -> (r: Point)
    ensures
        pt_val(r.bytes()) == 1,
{
    let g = jubjub::ExtendedPoint::from(<jubjub::SubgroupPoint as group::Group>::generator());
    Point { enc: jubjub::AffinePoint::from(g).to_bytes().to_vec() }
}

/// Relies on `jubjub::SubgroupPoint::random` and `rand_chacha`: derives the
/// second generator `H` deterministically from the encoding of `G`. `G`'s
/// 32-byte encoding seeds a ChaCha20 stream, from which `random` picks a
/// uniform subgroup element (a random curve point with the cofactor
/// cleared), looping until the element is not the identity — hence the
/// discrete log is not zero. The derivation is a fixed function of the
/// generator's encoding, so `H`'s discrete log is the constant
/// `base2_val(pt_enc(1))`; no one knows that constant, which is what makes
/// `H` independent of `G`.
#[verifier::external_body]
fn base_point2_raw() -> (r: Point)
    ensures
        pt_val(r.bytes()) == base2_val(pt_enc(1)),
        pt_val(r.bytes()) != 0,
        (pt_val(r.bytes()) * base2_inv(pt_enc(1))) % group_order() == 1,
{
    let g = jubjub::ExtendedPoint::from(<jubjub::SubgroupPoint as group::Group>::generator());
    let seed = jubjub::AffinePoint::from(g).to_bytes();
    let mut rng = <rand_chacha::ChaCha20Rng as rand::SeedableRng>::from_seed(seed);
    let h = <jubjub::SubgroupPoint as group::Group>::random(&mut rng);
    let e = jubjub::ExtendedPoint::from(h);
    Point { enc: jubjub::AffinePoint::from(e).to_bytes().to_vec() }
}

/// Relies on `jubjub` point addition: adding subgroup elements adds their
/// discrete logs mod `q`.
#[verifier::external_body]
fn point_add_raw(a: &Point, b: &Point) -> (r: Point)
    ensures
        pt_val(r.bytes()) == (pt_val(a.bytes()) + pt_val(b.bytes())) % group_order(),
{
    let mut ab = [0u8; 32];
    ab.copy_from_slice(a.enc.as_slice());
    let mut bb = [0u8; 32];
    bb.copy_from_slice(b.enc.as_slice());
    let pa = Option::<jubjub::AffinePoint>::from(jubjub::AffinePoint::from_bytes(ab));
    let pb = Option::<jubjub::AffinePoint>::from(jubjub::AffinePoint::from_bytes(bb));
    let x = jubjub::ExtendedPoint::from(pa.expect("canonical point"))
        + jubjub::ExtendedPoint::from(pb.expect("canonical point"));
    Point { enc: jubjub::AffinePoint::from(x).to_bytes().to_vec() }
}

/// Relies on `jubjub` scalar multiplication: multiplying a subgroup element
/// by a field element multiplies its discrete log mod `q`.
#[verifier::external_body]
fn point_mul_raw(p: &Point, s: &Scalar) -> (r: Point)
    ensures
        pt_val(r.bytes()) == (s.val() * pt_val(p.bytes())) % group_order(),
{
    let mut pb = [0u8; 32];
    pb.copy_from_slice(p.enc.as_slice());
    let mut sb = [0u8; 32];
    sb.copy_from_slice(s.le.as_slice());
    let pt = Option::<jubjub::AffinePoint>::from(jubjub::AffinePoint::from_bytes(pb));
    let sc = Option::<jubjub::Fr>::from(jubjub::Fr::from_bytes(&sb));
    let x = jubjub::ExtendedPoint::from(pt.expect("canonical point")) * sc.expect(
        "canonical scalar",
    );
    Point { enc: jubjub::AffinePoint::from(x).to_bytes().to_vec() }
}

/// Relies on `jubjub::AffinePoint::from_bytes`: accepts exactly the
/// canonical encodings of curve points; the extra check keeps exactly the
/// torsion-free ones, i.e. the prime-order subgroup.
#[verifier::external_body]
fn point_from_bytes_raw(enc: &Vec<u8>) -> (r: Option<Point>)
    ensures
        r is Some <==> (enc@.len() == 32 && is_point_encoding(enc@)),
        r is Some ==> r->0.bytes() == enc@,
{
    if enc.len() != 32 {
        return None;
    }
    let mut buf = [0u8; 32];
    buf.copy_from_slice(enc.as_slice());
    let opt: Option<jubjub::AffinePoint> = jubjub::AffinePoint::from_bytes(buf).into();
    match opt {
        Some(p) if bool::from(p.is_torsion_free()) => Some(Point { enc: enc.clone() }),
        _ => None,
    }
}

impl Scalar {
    /// The scalar zero.
    pub fn zero() -> (r: Scalar)
        ensures
            r.val() == 0,
    {
        Scalar::from_u64(0)
    }

    /// The scalar with the given small value.
    pub fn from_u64(x: u64) -> (r: Scalar)
        ensures
            r.val() == x as nat,
    {
        scalar_from_u64_raw(x)
    }

    /// A uniformly random scalar: 64 bytes of operating-system entropy
    /// reduced mod `q`.
    pub fn new_random() -> (r: Scalar) {
        let wide = random_bytes(64);
        scalar_from_wide_raw(&wide)
    }

    /// The scalar denoted by a 512-bit little-endian integer, reduced mod
    /// `q`.
    pub fn from_wide(wide: &Vec<u8>) -> (r: Scalar)
        requires
            wide@.len() == 64,
        ensures
            r.val() == nat_of_le(wide@) % group_order(),
    {
        scalar_from_wide_raw(wide)
    }

    /// Decodes a canonical 32-byte little-endian encoding; rejects a string
    /// of the wrong length or one denoting a value at or above `q`.
    pub fn from_le_bytes(le: &Vec<u8>) -> (r: Option<Scalar>)
        ensures
            r is Some <==> (le@.len() == 32 && nat_of_le(le@) < group_order()),
            r is Some ==> r->0.bytes() == le@,
    {
        scalar_from_bytes_raw(le)
    }

    /// The canonical little-endian encoding.
    pub fn to_le_bytes(&self) -> (r: Vec<u8>)
        ensures
            r@ == self.bytes(),
    {
        clone_bytes(&self.le)
    }

    /// The field sum `(self + other) mod q`.
    pub fn add(&self, other: &Scalar) -> (r: Scalar)
        ensures
            r.val() == (self.val() + other.val()) % group_order(),
    {
        scalar_add_raw(self, other)
    }

    /// The field product `(self * other) mod q`.
    pub fn mul(&self, other: &Scalar) -> (r: Scalar)
        ensures
            r.val() == (self.val() * other.val()) % group_order(),
    {
        scalar_mul_raw(self, other)
    }

    /// Overwrites the secret value with zero.
    pub fn zeroize(&mut self)
        ensures
            final(self).val() == 0,
    {
        scalar_zeroize_raw(self);
        proof {
            lemma_nat_of_le_zero(self.bytes());
        }
    }
}

impl Point {
    /// The subgroup generator `G`.
    pub fn generator() -> (r: Point)
        ensures
            r.val() == 1,
    {
        generator_raw()
    }

    /// The second generator `H`, derived deterministically from the
    /// encoding of `G`; its discrete log `base2_val(pt_enc(1))` is unknown
    /// but not zero — `H` is never the identity — and, the subgroup's
    /// order being prime, invertible mod that order.
    pub fn base_point2() -> (r: Point)
        ensures
            r.val() == base2_val(pt_enc(1)),
            r.val() != 0,
            (r.val() * base2_inv(pt_enc(1))) % group_order() == 1,
    {
        base_point2_raw()
    }

    /// The group sum: discrete logs add mod `q`.
    pub fn add_point(&self, other: &Point) -> (r: Point)
        ensures
            r.val() == (self.val() + other.val()) % group_order(),
    {
        point_add_raw(self, other)
    }

    /// The scalar multiple: the discrete log is multiplied mod `q`.
    pub fn scalar_mul(&self, s: &Scalar) -> (r: Point)
        ensures
            r.val() == (s.val() * self.val()) % group_order(),
    {
        point_mul_raw(self, s)
    }

    /// The canonical compressed encoding.
    pub fn to_bytes(&self) -> (r: Vec<u8>)
        ensures
            r@ == self.bytes(),
    {
        clone_bytes(&self.enc)
    }

    /// Decodes a canonical 32-byte compressed encoding; rejects anything
    /// that is not a canonical encoding of a prime-order-subgroup element.
    pub fn from_bytes(enc: &Vec<u8>) -> (r: Result<Point, crate::ErrorKey>)
        ensures
            r is Ok <==> (enc@.len() == 32 && is_point_encoding(enc@)),
            r is Ok ==> r->Ok_0.bytes() == enc@,
    {
        match point_from_bytes_raw(enc) {
            Some(p) => Ok(p),
            None => Err(crate::ErrorKey::InvalidPublicKey),
        }
    }
}

impl Clone for Scalar {
    /// A copy with the same value.
    fn clone(&self) -> (r: Self)
        ensures
            r.bytes() == self.bytes(),
            r.val() == self.val(),
    {
        proof {
            use_type_invariant(self);
        }
        Scalar { le: clone_bytes(&self.le) }
    }
}

impl Clone for Point {
    /// A copy with the same encoding.
    fn clone(&self) -> (r: Self)
        ensures
            r.bytes() == self.bytes(),
            r.val() == self.val(),
    {
        proof {
            use_type_invariant(self);
        }
        Point { enc: clone_bytes(&self.enc) }
    }
}

impl PartialEq for Scalar {
    /// Scalars are equal exactly when their canonical encodings are.
    fn eq(&self, other: &Scalar) -> (r: bool) {
        eq_bytes(&self.le, &other.le)
    }
}

impl vstd::std_specs::cmp::PartialEqSpecImpl for Scalar {
    open spec fn obeys_eq_spec() -> bool {
        true
    }

    open spec fn eq_spec(&self, other: &Scalar) -> bool {
        self.bytes() == other.bytes()
    }
}

impl PartialEq for Point {
    /// Points are equal exactly when their canonical encodings are.
    fn eq(&self, other: &Point) -> (r: bool) {
        eq_bytes(&self.enc, &other.enc)
    }
}

impl vstd::std_specs::cmp::PartialEqSpecImpl for Point {
    open spec fn obeys_eq_spec() -> bool {
        true
    }

    open spec fn eq_spec(&self, other: &Point) -> bool {
        self.bytes() == other.bytes()
    }
}

} // verus!
