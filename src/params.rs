//! The circuit's geometry: column counts, limb widths and degree.
use vstd::prelude::*;

verus! {

/// The bit length of both secp256k1 moduli (the base field's and the group order).
pub const MODULUS_BITS: usize = 256;

/// How non-native field elements are decomposed into limbs.
#[derive(Clone, Copy, Debug, PartialEq, Eq, Structural)]
pub enum FpStrategy {
    Simple,
    SimplePlus,
}

/// Why a set of circuit parameters is refused.
#[derive(Clone, Copy, Debug, PartialEq, Eq, Structural)]
pub enum ConfigurationError {
    /// The lookup table is wider than one limb.
    LookupWiderThanLimb,
    /// The limbs together hold fewer bits than the modulus.
    LimbsTooNarrow,
}

/// The geometry the field and curve collaborators are configured with.
#[derive(Clone, Copy, Debug)]
pub struct CircuitParams {
    pub strategy: FpStrategy,
    pub degree: u32,
    pub num_advice: usize,
    pub num_lookup_advice: usize,
    pub num_fixed: usize,
    pub lookup_bits: usize,
    pub limb_bits: usize,
    pub num_limbs: usize,
}

impl CircuitParams {
    /// The limbs cover the modulus and a lookup fits in one limb.
    pub open spec fn wf(&self) -> bool {
        self.lookup_bits <= self.limb_bits && self.limb_bits * self.num_limbs >= MODULUS_BITS
    }

    /// Checks the parameters; the first rule that fails names the error.
    pub fn validate(&self) -> (r: Result<(), ConfigurationError>)
        ensures
            r is Ok <==> self.wf(),
            r == Err::<(), _>(ConfigurationError::LookupWiderThanLimb) <==> self.lookup_bits > self.limb_bits,
            r == Err::<(), _>(ConfigurationError::LimbsTooNarrow) <==> (self.lookup_bits <= self.limb_bits
                && self.limb_bits * self.num_limbs < MODULUS_BITS),
    {
        if self.lookup_bits > self.limb_bits {
            return Err(ConfigurationError::LookupWiderThanLimb);
        }
        let a = self.limb_bits as u128;
        let b = self.num_limbs as u128;
        assert(a * b <= u64::MAX as u128 * u64::MAX as u128) by (nonlinear_arith)
            requires a <= u64::MAX, b <= u64::MAX;
        let total = (self.limb_bits as u128) * (self.num_limbs as u128);
        if total < MODULUS_BITS as u128 {
            Err(ConfigurationError::LimbsTooNarrow)
        } else {
            Ok(())
        }
    }
}

} // verus!
