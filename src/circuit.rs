//! The range-attested signature relation: a valid ECDSA signature under a
//! private key on a private digest that lies inside a public interval.
use crate::curve::{
    add_mod_order, ec_add, ec_mul, generator, generator_coords, invert_mod_order,
    mul_mod_order, point_add, point_mul, random_scalar, reduce_mod_order, Point,
};
use crate::field::{group_order, order_inverse, Scalar};
use vstd::arithmetic::div_mod::lemma_small_mod;
use vstd::prelude::*;

verus! {

/// Why a circuit's witness cannot be proved.
#[derive(Clone, Copy, Debug, PartialEq, Eq, Structural)]
pub enum SynthesisError {
    /// A value is unknown: the circuit only serves to derive keys.
    MissingWitness,
    /// A concrete value is not a canonical element of its field.
    WitnessRange,
    /// The signature is invalid or the digest lies outside the interval; which
    /// of the two is not said.
    Unsatisfiable,
}

/// ECDSA verification without a check of the public key: with w = s⁻¹,
/// u1 = m·w and u2 = r·w modulo n, the x-coordinate of u1·G + u2·pk reduced
/// modulo n equals r, and neither r nor s is zero.
pub open spec fn signature_accepts(pk: (nat, nat), r: nat, s: nat, m: nat) -> bool {
    r != 0 && s != 0 && {
        let w = order_inverse(s);
        let u1 = (m * w) % group_order();
        let u2 = (r * w) % group_order();
        ec_add(ec_mul(generator_coords(), u1), ec_mul(pk, u2)).0 % group_order() == r
    }
}

/// The digest lies in the closed interval [lower, upper].
pub open spec fn in_range(lower: nat, m: nat, upper: nat) -> bool {
    lower <= m && m <= upper
}

/// The signature (r, s) that the key `sk` makes on `m` with the nonce `k`:
/// r = x(k·G) mod n and s = k⁻¹·(m + r·sk) mod n; none where k, r or s is zero.
pub open spec fn signature_of(sk: nat, k: nat, m: nat) -> Option<(nat, nat)> {
    let r = ec_mul(generator_coords(), k).0 % group_order();
    let s = (order_inverse(k) * ((m + (r * sk) % group_order()) % group_order())) % group_order();
    if k == 0 || r == 0 || s == 0 {
        None
    } else {
        Some((r, s))
    }
}

/// Verifies an ECDSA signature (r, s) on the digest `m` under the public key
/// `pk`, whose membership in the curve is taken as established.
pub fn verify_signature(pk: &Point, r: &Scalar, s: &Scalar, m: &Scalar) -> (res: bool)
    requires
        r.wf(),
        s.wf(),
        m.wf(),
    ensures
        res == signature_accepts(pk@, r.value(), s.value(), m.value()),
{
    if r.is_zero() || s.is_zero() {
        return false;
    }
    proof {
        lemma_small_mod(s.value(), group_order());
    }
    let w = invert_mod_order(s);
    let u1 = mul_mod_order(m, &w);
    let u2 = mul_mod_order(r, &w);
    let g = generator();
    let sum = point_add(&point_mul(&g, &u1), &point_mul(pk, &u2));
    let x = reduce_mod_order(sum.x);
    x.equals(r)
}

/// The public key sk·G of the secret key `sk`.
pub fn public_key(sk: &Scalar) -> (r: Point)
    ensures
        r@ == ec_mul(generator_coords(), sk.value()),
{
    let g = generator();
    point_mul(&g, sk)
}

/// Signs the digest `m` with the key `sk` and the nonce `k`.
pub fn sign_digest(sk: &Scalar, k: &Scalar, m: &Scalar) -> (r: Option<(Scalar, Scalar)>)
    requires
        sk.wf(),
        k.wf(),
        m.wf(),
    ensures
        r is Some <==> signature_of(sk.value(), k.value(), m.value()) is Some,
        r matches Some((sr, ss)) ==> sr.wf() && ss.wf()
            && signature_of(sk.value(), k.value(), m.value()) == Some((sr.value(), ss.value())),
{
    if k.is_zero() {
        return None;
    }
    proof {
        lemma_small_mod(k.value(), group_order());
    }
    let g = generator();
    let point = point_mul(&g, k);
    let sr = reduce_mod_order(point.x);
    if sr.is_zero() {
        return None;
    }
    let k_inv = invert_mod_order(k);
    let ss = mul_mod_order(&k_inv, &add_mod_order(m, &mul_mod_order(&sr, sk)));
    if ss.is_zero() {
        return None;
    }
    Some((sr, ss))
}

/// Draws a fresh key and nonce from the operating system and signs
/// `target_value` with them, as an attestor would; none where the draw gives
/// a zero nonce or a zero signature component.
pub fn generate_ecdsa_input(target_value: Scalar) -> (res: Option<(Scalar, Scalar, Scalar, Point, Point)>)
    requires
        target_value.wf(),
    ensures
        res is None ==> exists|sk: nat, k: nat|
            sk < group_order() && #[trigger] signature_of(sk, k, target_value.value()) is None,
        res matches Some((r, s, m, pk, g)) ==> m == target_value && g@ == generator_coords(),
        res matches Some((r, s, m, pk, g)) ==> r.wf() && s.wf(),
        res matches Some((r, s, m, pk, g)) ==> exists|sk: nat, k: nat|
            sk < group_order() && pk@ == ec_mul(generator_coords(), sk)
                && #[trigger] signature_of(sk, k, target_value.value()) == Some((r.value(), s.value())),
{
    let g = generator();
    let sk = random_scalar();
    let pubkey = public_key(&sk);
    let k = random_scalar();
    match sign_digest(&sk, &k, &target_value) {
        Some((r, s)) => {
            assert(sk.value() < group_order() && pubkey@ == ec_mul(generator_coords(), sk.value())
                && signature_of(sk.value(), k.value(), target_value.value()) == Some((r.value(), s.value())));
            Some((r, s, target_value, pubkey, g))
        },
        None => {
            assert(sk.value() < group_order() && signature_of(sk.value(), k.value(), target_value.value()) is None);
            None
        },
    }
}

/// Both ends of the interval are accepted: a canonical witness with a valid
/// signature whose digest equals lower, or upper, of an interval with
/// lower <= upper is satisfiable.
pub proof fn lemma_bounds_inclusive(c: ECDSACircuit)
    requires
        c.has_witness(),
        c.witness_canonical(),
        signature_accepts(c.pk->0@, c.r->0.value(), c.s->0.value(), c.msghash->0.value()),
        c.lower->0.value() <= c.upper->0.value(),
    ensures
        c.msghash->0.value() == c.lower->0.value() ==> c.synthesis_result() is Ok,
        c.msghash->0.value() == c.upper->0.value() ==> c.synthesis_result() is Ok,
{
}

/// A canonical witness whose digest lies outside [lower, upper], below lower
/// by one or above upper by one included, is unsatisfiable, whatever its
/// signature.
pub proof fn lemma_outside_interval_rejected(c: ECDSACircuit)
    requires
        c.has_witness(),
        c.witness_canonical(),
        c.msghash->0.value() < c.lower->0.value() || c.msghash->0.value() > c.upper->0.value(),
    ensures
        c.synthesis_result() == Err::<Seq<nat>, _>(SynthesisError::Unsatisfiable),
{
}

/// Two accepted witnesses with the same bounds yield the same public instance:
/// nothing of the digest, the signature or the key reaches it.
pub proof fn lemma_instance_discloses_only_bounds(c1: ECDSACircuit, c2: ECDSACircuit)
    requires
        c1.synthesis_result() is Ok,
        c2.synthesis_result() is Ok,
        c1.lower->0.value() == c2.lower->0.value(),
        c1.upper->0.value() == c2.upper->0.value(),
    ensures
        c1.synthesis_result() == c2.synthesis_result(),
{
}

/// The passes of synthesis: an optional layout probe that assigns nothing,
/// the one pass that assigns the witness, and the finished region.
#[derive(Clone, Copy, Debug, PartialEq, Eq, Structural)]
pub enum SynthesisPhase {
    Estimating,
    Assigning,
    Finalized,
}

/// The phase after entering one pass from `p`.
pub open spec fn phase_after_pass(p: SynthesisPhase) -> SynthesisPhase {
    if p == SynthesisPhase::Estimating {
        SynthesisPhase::Assigning
    } else {
        SynthesisPhase::Finalized
    }
}

impl SynthesisPhase {
    /// The phase synthesis starts in: a probe first where the layouter runs
    /// the region once for its shape alone.
    pub fn start(probe_first: bool) -> (r: Self)
        ensures
            r == (if probe_first { SynthesisPhase::Estimating } else { SynthesisPhase::Assigning }),
    {
        if probe_first {
            SynthesisPhase::Estimating
        } else {
            SynthesisPhase::Assigning
        }
    }

    /// Enters one pass over the region: whether it assigns the witness; the
    /// phase moves on to the next.
    pub fn enter_pass(&mut self) -> (assigns: bool)
        ensures
            assigns == (*old(self) == SynthesisPhase::Assigning),
            *final(self) == phase_after_pass(*old(self)),
    {
        match *self {
            SynthesisPhase::Estimating => {
                *self = SynthesisPhase::Assigning;
                false
            },
            SynthesisPhase::Assigning => {
                *self = SynthesisPhase::Finalized;
                true
            },
            SynthesisPhase::Finalized => false,
        }
    }
}

/// Whatever the start, exactly one of the first three passes assigns the
/// witness: the second after a probe, else the first.
pub proof fn lemma_single_assigning_pass(probe_first: bool)
    ensures
        ({
            let p0 = if probe_first { SynthesisPhase::Estimating } else { SynthesisPhase::Assigning };
            let p1 = phase_after_pass(p0);
            let p2 = phase_after_pass(p1);
            &&& (p0 == SynthesisPhase::Assigning) == !probe_first
            &&& (p1 == SynthesisPhase::Assigning) == probe_first
            &&& p2 != SynthesisPhase::Assigning
            &&& phase_after_pass(p2) == SynthesisPhase::Finalized
        }),
{
}

/// A witness for the relation, as the prover supplies it: the signature
/// (r, s), the interval [lower, upper], the digest and the public key, each
/// absent while keys are derived, and the generator G.
#[derive(Clone, Copy, Debug)]
pub struct ECDSACircuit {
    pub r: Option<Scalar>,
    pub s: Option<Scalar>,
    pub lower: Option<Scalar>,
    pub upper: Option<Scalar>,
    pub msghash: Option<Scalar>,
    pub pk: Option<Point>,
    pub G: Point,
}

impl ECDSACircuit {
    /// Every value of the witness is known.
    pub open spec fn has_witness(&self) -> bool {
        self.r is Some && self.s is Some && self.lower is Some && self.upper is Some
            && self.msghash is Some && self.pk is Some
    }

    /// Every known value is a canonical element of its field.
    pub open spec fn witness_canonical(&self) -> bool {
        self.r->0.wf() && self.s->0.wf() && self.lower->0.wf() && self.upper->0.wf()
            && self.msghash->0.wf() && self.pk->0.wf()
    }

    /// The signature is valid and the digest lies in the interval.
    pub open spec fn relation_holds(&self) -> bool {
        signature_accepts(self.pk->0@, self.r->0.value(), self.s->0.value(), self.msghash->0.value())
            && in_range(self.lower->0.value(), self.msghash->0.value(), self.upper->0.value())
    }

    /// What synthesis yields: the public instance [lower, upper], or the error.
    pub open spec fn synthesis_result(&self) -> Result<Seq<nat>, SynthesisError> {
        if !self.has_witness() {
            Err(SynthesisError::MissingWitness)
        } else if !self.witness_canonical() {
            Err(SynthesisError::WitnessRange)
        } else if !self.relation_holds() {
            Err(SynthesisError::Unsatisfiable)
        } else {
            Ok(seq![self.lower->0.value(), self.upper->0.value()])
        }
    }

    /// A circuit with every witness value unknown, for key derivation.
    pub fn without_witnesses(&self) -> (r: Self)
        ensures
            r.r is None && r.s is None && r.lower is None && r.upper is None
                && r.msghash is None && r.pk is None,
            r.G@ == generator_coords(),
    {
        Self::default()
    }

    /// Checks the witness against the relation and, where it holds, gives the
    /// public instance: the bounds lower and upper, in that order, and nothing else.
    pub fn synthesize(&self) -> (r: Result<Vec<Scalar>, SynthesisError>)
        ensures
            r is Ok <==> self.synthesis_result() is Ok,
            r matches Err(e) ==> self.synthesis_result() == Err::<Seq<nat>, _>(e),
            r matches Ok(v) ==> v@ == seq![self.lower->0, self.upper->0]
                && self.synthesis_result() == Ok::<_, SynthesisError>(seq![v@[0].value(), v@[1].value()]),
    {
        let r = match self.r {
            Some(v) => v,
            None => return Err(SynthesisError::MissingWitness),
        };
        let s = match self.s {
            Some(v) => v,
            None => return Err(SynthesisError::MissingWitness),
        };
        let lower = match self.lower {
            Some(v) => v,
            None => return Err(SynthesisError::MissingWitness),
        };
        let upper = match self.upper {
            Some(v) => v,
            None => return Err(SynthesisError::MissingWitness),
        };
        let m = match self.msghash {
            Some(v) => v,
            None => return Err(SynthesisError::MissingWitness),
        };
        let pk = match self.pk {
            Some(v) => v,
            None => return Err(SynthesisError::MissingWitness),
        };
        if !(r.is_canonical() && s.is_canonical() && lower.is_canonical() && upper.is_canonical()
            && m.is_canonical() && pk.is_canonical()) {
            return Err(SynthesisError::WitnessRange);
        }
        let signed = verify_signature(&pk, &r, &s, &m);
        let inside = lower.le(&m) && m.le(&upper);
        if !(signed && inside) {
            return Err(SynthesisError::Unsatisfiable);
        }
        let instance = vec![lower, upper];
        assert(instance@ =~= seq![lower, upper]);
        Ok(instance)
    }
}

impl Default for ECDSACircuit {
    /// A circuit with every witness value unknown and the curve's generator.
    fn default() -> (r: Self)
        ensures
            r.r is None && r.s is None && r.lower is None && r.upper is None
                && r.msghash is None && r.pk is None,
            r.G@ == generator_coords(),
    {
        ECDSACircuit {
            r: None,
            s: None,
            lower: None,
            upper: None,
            msghash: None,
            pk: None,
            G: generator(),
        }
    }
}

} // verus!
