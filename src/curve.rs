//! Points of secp256k1, and the field and group operations that the library
//! takes from halo2curves (through halo2-base).
use crate::field::{
    base_modulus, group_order, is_order_inverse, limbs_le, limbs_value, order_inverse, Scalar,
};
use halo2_base::halo2_proofs::halo2curves::ff::Field;
use halo2_base::halo2_proofs::halo2curves::group::Curve;
use halo2_base::halo2_proofs::halo2curves::secp256k1::{Fp, Fq, Secp256k1Affine};
use rand_core::OsRng;
use vstd::prelude::*;

verus! {

/// A point in affine coordinates over the base field; the point at infinity
/// is written (0, 0).
#[derive(Clone, Copy, Debug)]
pub struct Point {
    pub x: [u64; 4],
    pub y: [u64; 4],
}

impl View for Point {
    type V = (nat, nat);

    open spec fn view(&self) -> (nat, nat) {
        (limbs_value(self.x@), limbs_value(self.y@))
    }
}

impl Point {
    /// Both coordinates are canonical elements of the base field.
    pub open spec fn wf(&self) -> bool {
        self@.0 < base_modulus() && self@.1 < base_modulus()
    }

    /// Whether both coordinates are canonical elements of the base field.
    pub fn is_canonical(&self) -> (r: bool)
        ensures
            r == self.wf(),
    {
        let p: [u64; 4] = [0xfffffffefffffc2fu64, 0xffffffffffffffffu64, 0xffffffffffffffffu64, 0xffffffffffffffffu64];
        assert(p@ =~= seq![0xfffffffefffffc2fu64, 0xffffffffffffffffu64, 0xffffffffffffffffu64, 0xffffffffffffffffu64]);
        !limbs_le(&p, &self.x) && !limbs_le(&p, &self.y)
    }
}

/// The coordinates of the standard generator G of secp256k1.
pub open spec fn generator_coords() -> (nat, nat) {
    (
        limbs_value(seq![0x59F2815B16F81798u64, 0x029BFCDB2DCE28D9u64, 0x55A06295CE870B07u64, 0x79BE667EF9DCBBACu64]),
        limbs_value(seq![0x9C47D08FFB10D4B8u64, 0xFD17B448A6855419u64, 0x5DA4FBFC0E1108A8u64, 0x483ADA7726A3C465u64]),
    )
}

/// The affine point k·P on secp256k1, for a point with coordinates `p`.
pub uninterp spec fn ec_mul(p: (nat, nat), k: nat) -> (nat, nat);

/// The affine sum A + B on secp256k1, for points with coordinates `a` and `b`.
pub uninterp spec fn ec_add(a: (nat, nat), b: (nat, nat)) -> (nat, nat);

/// Relies on `Secp256k1Affine::generator` of halo2curves: the curve's fixed
/// generator, whose coordinates its source states.
#[verifier::external_body]
pub(crate) fn generator() -> (r: Point)
    ensures
        r@ == generator_coords(),
        r.wf(),
{
    let g = Secp256k1Affine::generator();
    Point { x: g.x.into(), y: g.y.into() }
}

/// Relies on halo2curves' `Mul<&Fq> for &Secp256k1Affine` followed by
/// `Curve::to_affine`: scalar multiplication, a function of the coordinates
/// (taken modulo p, as `Fp::from_raw` does) and of the scalar alone.
#[verifier::external_body]
pub(crate) fn point_mul(p: &Point, k: &Scalar) -> (r: Point)
    ensures
        r@ == ec_mul(p@, k.value()),
        r.wf(),
{
    let a = Secp256k1Affine { x: Fp::from_raw(p.x), y: Fp::from_raw(p.y) };
    let q = (&a * &Fq::from_raw(k.limbs)).to_affine();
    Point { x: q.x.into(), y: q.y.into() }
}

/// Relies on halo2curves' `Add for &Secp256k1Affine` followed by
/// `Curve::to_affine`: point addition, a function of the coordinates alone.
#[verifier::external_body]
pub(crate) fn point_add(a: &Point, b: &Point) -> (r: Point)
    ensures
        r@ == ec_add(a@, b@),
        r.wf(),
{
    let pa = Secp256k1Affine { x: Fp::from_raw(a.x), y: Fp::from_raw(a.y) };
    let pb = Secp256k1Affine { x: Fp::from_raw(b.x), y: Fp::from_raw(b.y) };
    let q = (&pa + &pb).to_affine();
    Point { x: q.x.into(), y: q.y.into() }
}

/// Relies on `Fq::from_raw` and `From<Fq> for [u64; 4]` of halo2curves: the
/// element congruent to the limbs, given back in canonical form.
#[verifier::external_body]
pub(crate) fn reduce_mod_order(limbs: [u64; 4]) -> (r: Scalar)
    ensures
        r.value() == limbs_value(limbs@) % group_order(),
        r.wf(),
{
    Scalar { limbs: Fq::from_raw(limbs).into() }
}

/// Relies on `Mul for Fq` of halo2curves: the product modulo the group order.
#[verifier::external_body]
pub(crate) fn mul_mod_order(a: &Scalar, b: &Scalar) -> (r: Scalar)
    ensures
        r.value() == (a.value() * b.value()) % group_order(),
        r.wf(),
{
    Scalar { limbs: (Fq::from_raw(a.limbs) * Fq::from_raw(b.limbs)).into() }
}

/// Relies on `Add for Fq` of halo2curves: the sum modulo the group order.
#[verifier::external_body]
pub(crate) fn add_mod_order(a: &Scalar, b: &Scalar) -> (r: Scalar)
    ensures
        r.value() == (a.value() + b.value()) % group_order(),
        r.wf(),
{
    Scalar { limbs: (Fq::from_raw(a.limbs) + Fq::from_raw(b.limbs)).into() }
}

/// Relies on `Field::invert` for `Fq` of halo2curves, which succeeds on every
/// element but zero: the inverse modulo the (prime) group order.
#[verifier::external_body]
pub(crate) fn invert_mod_order(a: &Scalar) -> (r: Scalar)
    requires
        a.value() % group_order() != 0,
    ensures
        is_order_inverse(a.value(), r.value()),
        r.value() == order_inverse(a.value()),
        r.wf(),
{
    Scalar { limbs: Fq::from_raw(a.limbs).invert().unwrap().into() }
}

/// Relies on `Field::random` for `Fq` of halo2curves, drawing from the
/// operating system's generator (`rand_core::OsRng`): some canonical element.
#[verifier::external_body]
pub(crate) fn random_scalar() -> (r: Scalar)
    ensures
        r.wf(),
{
    Scalar { limbs: Fq::random(OsRng).into() }
}

} // verus!
