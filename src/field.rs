//! Elements of the secp256k1 scalar field, held as four little-endian limbs.
use crate::curve::reduce_mod_order;
use vstd::prelude::*;

verus! {

/// The radix of one limb.
pub open spec fn limb_base() -> nat {
    0x1_0000_0000_0000_0000
}

/// The number that four little-endian limbs stand for.
pub open spec fn limbs_value(l: Seq<u64>) -> nat {
    l[0] as nat + limb_base() * (l[1] as nat + limb_base() * (l[2] as nat + limb_base() * l[3] as nat))
}

/// The order n of the secp256k1 group, which is the modulus of its scalar field.
pub open spec fn group_order() -> nat {
    limbs_value(seq![0xbfd25e8cd0364141u64, 0xbaaedce6af48a03bu64, 0xfffffffffffffffeu64, 0xffffffffffffffffu64])
}

/// The modulus p of the secp256k1 base field, in which point coordinates lie.
pub open spec fn base_modulus() -> nat {
    limbs_value(seq![0xfffffffefffffc2fu64, 0xffffffffffffffffu64, 0xffffffffffffffffu64, 0xffffffffffffffffu64])
}

/// `w` is a canonical inverse of `a` modulo the group order.
pub open spec fn is_order_inverse(a: nat, w: nat) -> bool {
    w < group_order() && (a * w) % group_order() == 1
}

/// The inverse of `a` modulo the group order (unique, as the order is prime).
pub open spec fn order_inverse(a: nat) -> nat {
    choose|w: nat| #[trigger] is_order_inverse(a, w)
}

/// Limbs are compared as numbers: the top limb decides unless the tops are equal.
pub proof fn lemma_horner_le(x: nat, xs: nat, y: nat, ys: nat)
    requires
        x < limb_base(),
        y < limb_base(),
    ensures
        (x + limb_base() * xs <= y + limb_base() * ys) == (xs < ys || (xs == ys && x <= y)),
        (x + limb_base() * xs == y + limb_base() * ys) == (xs == ys && x == y),
{
    let b = limb_base();
    if xs < ys {
        assert(b * xs + b <= b * ys) by (nonlinear_arith)
            requires xs < ys, b > 0;
    } else if ys < xs {
        assert(b * ys + b <= b * xs) by (nonlinear_arith)
            requires ys < xs, b > 0;
    }
}

/// Whether the limbs `a` stand for a number at most that of `b`.
pub fn limbs_le(a: &[u64; 4], b: &[u64; 4]) -> (r: bool)
    ensures
        r == (limbs_value(a@) <= limbs_value(b@)),
{
    proof {
        let bs = limb_base();
        lemma_horner_le(a[2] as nat, a[3] as nat, b[2] as nat, b[3] as nat);
        lemma_horner_le(a[1] as nat, a[2] as nat + bs * a[3] as nat, b[1] as nat, b[2] as nat + bs * b[3] as nat);
        lemma_horner_le(a[0] as nat, a[1] as nat + bs * (a[2] as nat + bs * a[3] as nat),
            b[0] as nat, b[1] as nat + bs * (b[2] as nat + bs * b[3] as nat));
    }
    if a[3] != b[3] {
        a[3] < b[3]
    } else if a[2] != b[2] {
        a[2] < b[2]
    } else if a[1] != b[1] {
        a[1] < b[1]
    } else {
        a[0] <= b[0]
    }
}

/// An element of the scalar field: a digest, a signature component or a key.
#[derive(Clone, Copy, Debug)]
pub struct Scalar {
    pub limbs: [u64; 4],
}

impl Scalar {
    /// The number the limbs stand for.
    pub open spec fn value(&self) -> nat {
        limbs_value(self.limbs@)
    }

    /// The limbs hold a canonical representative, below the group order.
    pub open spec fn wf(&self) -> bool {
        self.value() < group_order()
    }

    /// The scalar of a small integer.
    pub fn from_u64(v: u64) -> (r: Scalar)
        ensures
            r.value() == v as nat,
            r.wf(),
    {
        Scalar { limbs: [v, 0, 0, 0] }
    }

    /// The limbs as a scalar, if they hold a number below the group order.
    pub fn from_canonical_limbs(limbs: [u64; 4]) -> (r: Option<Scalar>)
        ensures
            r is Some <==> limbs_value(limbs@) < group_order(),
            r is Some ==> r->0.limbs == limbs,
    {
        let s = Scalar { limbs };
        if s.is_canonical() {
            Some(s)
        } else {
            None
        }
    }

    /// The scalar congruent to any four limbs, such as a coordinate of the
    /// base field read as a number.
    pub fn from_limbs_mod_order(limbs: [u64; 4]) -> (r: Scalar)
        ensures
            r.value() == limbs_value(limbs@) % group_order(),
            r.wf(),
    {
        reduce_mod_order(limbs)
    }

    /// Whether the scalar is zero.
    pub fn is_zero(&self) -> (r: bool)
        ensures
            r == (self.value() == 0),
    {
        let z = Scalar { limbs: [0, 0, 0, 0] };
        self.equals(&z)
    }

    /// Whether `self` is at most `other`, as numbers.
    pub fn le(&self, other: &Scalar) -> (r: bool)
        ensures
            r == (self.value() <= other.value()),
    {
        limbs_le(&self.limbs, &other.limbs)
    }

    /// Whether the limbs hold a canonical representative.
    pub fn is_canonical(&self) -> (r: bool)
        ensures
            r == self.wf(),
    {
        let n: [u64; 4] = [0xbfd25e8cd0364141u64, 0xbaaedce6af48a03bu64, 0xfffffffffffffffeu64, 0xffffffffffffffffu64];
        assert(n@ =~= seq![0xbfd25e8cd0364141u64, 0xbaaedce6af48a03bu64, 0xfffffffffffffffeu64, 0xffffffffffffffffu64]);
        !limbs_le(&n, &self.limbs)
    }

    /// Whether the two scalars stand for the same number.
    pub fn equals(&self, other: &Scalar) -> (r: bool)
        ensures
            r == (self.value() == other.value()),
    {
        let a = self.limbs;
        let b = other.limbs;
        proof {
            let bs = limb_base();
            lemma_horner_le(a[2] as nat, a[3] as nat, b[2] as nat, b[3] as nat);
            lemma_horner_le(a[1] as nat, a[2] as nat + bs * a[3] as nat, b[1] as nat, b[2] as nat + bs * b[3] as nat);
            lemma_horner_le(a[0] as nat, a[1] as nat + bs * (a[2] as nat + bs * a[3] as nat),
                b[0] as nat, b[1] as nat + bs * (b[2] as nat + bs * b[3] as nat));
        }
        a[0] == b[0] && a[1] == b[1] && a[2] == b[2] && a[3] == b[3]
    }
}

} // verus!
