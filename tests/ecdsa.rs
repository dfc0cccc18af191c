use ecdsa_range::circuit::{
    generate_ecdsa_input, public_key, sign_digest, verify_signature, ECDSACircuit,
    SynthesisError, SynthesisPhase,
};
use ecdsa_range::curve::Point;
use ecdsa_range::field::Scalar;
use ecdsa_range::params::{CircuitParams, ConfigurationError, FpStrategy};

const ORDER: [u64; 4] = [
    0xbfd25e8cd0364141,
    0xbaaedce6af48a03b,
    0xfffffffffffffffe,
    0xffffffffffffffff,
];

fn sc(v: u64) -> Scalar {
    Scalar::from_u64(v)
}

fn circuit(r: Scalar, s: Scalar, m: Scalar, pk: Point, lower: u64, upper: u64) -> ECDSACircuit {
    ECDSACircuit {
        r: Some(r),
        s: Some(s),
        lower: Some(sc(lower)),
        upper: Some(sc(upper)),
        msghash: Some(m),
        pk: Some(pk),
        G: ECDSACircuit::default().G,
    }
}

/// A signature on `m` under the key 7 with the nonce 11.
fn fixed_signature(m: u64) -> (Scalar, Scalar, Point) {
    let sk = sc(7);
    let (r, s) = sign_digest(&sk, &sc(11), &sc(m)).expect("nonzero signature");
    (r, s, public_key(&sk))
}

fn limbs_of(v: &[Scalar]) -> Vec<[u64; 4]> {
    v.iter().map(|x| x.limbs).collect()
}

#[test]
fn test_secp256k1_ecdsa() {
    let msg_hash = sc(52);
    let (r, s, m, pubkey, g) = generate_ecdsa_input(msg_hash).expect("signature drawn");
    let lower = 50;
    let upper = 100;
    let c = ECDSACircuit {
        r: Some(r),
        s: Some(s),
        lower: Some(sc(lower)),
        upper: Some(sc(upper)),
        msghash: Some(m),
        pk: Some(pubkey),
        G: g,
    };
    let public_io = c.synthesize().expect("witness satisfies the relation");
    assert_eq!(limbs_of(&public_io), vec![[50, 0, 0, 0], [100, 0, 0, 0]]);
}

#[test]
fn instance_differs_from_narrower_interval() {
    let (r, s, m, pubkey, g) = generate_ecdsa_input(sc(52)).expect("signature drawn");
    let c = ECDSACircuit {
        r: Some(r),
        s: Some(s),
        lower: Some(sc(50)),
        upper: Some(sc(100)),
        msghash: Some(m),
        pk: Some(pubkey),
        G: g,
    };
    let public_io = c.synthesize().expect("witness satisfies the relation");
    assert_ne!(limbs_of(&public_io), vec![[50, 0, 0, 0], [51, 0, 0, 0]]);
    let narrower = ECDSACircuit { upper: Some(sc(51)), ..c };
    assert_eq!(narrower.synthesize().unwrap_err(), SynthesisError::Unsatisfiable);
}

#[test]
fn fixed_key_signature_verifies() {
    let (r, s, pk) = fixed_signature(52);
    assert!(verify_signature(&pk, &r, &s, &sc(52)));
    let c = circuit(r, s, sc(52), pk, 50, 100);
    assert!(c.synthesize().is_ok());
}

#[test]
fn bounds_are_inclusive() {
    for m in [50u64, 100] {
        let (r, s, pk) = fixed_signature(m);
        assert!(circuit(r, s, sc(m), pk, 50, 100).synthesize().is_ok());
    }
    for m in [49u64, 101] {
        let (r, s, pk) = fixed_signature(m);
        assert!(verify_signature(&pk, &r, &s, &sc(m)));
        assert_eq!(
            circuit(r, s, sc(m), pk, 50, 100).synthesize().unwrap_err(),
            SynthesisError::Unsatisfiable
        );
    }
}

#[test]
fn single_point_interval() {
    let (r, s, pk) = fixed_signature(77);
    assert!(circuit(r, s, sc(77), pk, 77, 77).synthesize().is_ok());
}

#[test]
fn mutated_witness_is_rejected() {
    let (r, s, pk) = fixed_signature(52);
    let other_pk = public_key(&sc(8));
    let cases = [
        circuit(sc(r.limbs[0] ^ 1), s, sc(52), pk, 50, 100),
        circuit(r, sc(s.limbs[0] ^ 1), sc(52), pk, 50, 100),
        circuit(r, s, sc(53), pk, 50, 100),
        circuit(r, s, sc(52), other_pk, 50, 100),
    ];
    for c in cases.iter() {
        assert_eq!(c.synthesize().unwrap_err(), SynthesisError::Unsatisfiable);
    }
}

#[test]
fn mutated_scalar_keeps_high_limbs() {
    let (r, s, pk) = fixed_signature(52);
    let mut r2 = r;
    r2.limbs[0] ^= 1;
    let mut s2 = s;
    s2.limbs[0] ^= 1;
    assert!(!verify_signature(&pk, &r2, &s, &sc(52)));
    assert!(!verify_signature(&pk, &r, &s2, &sc(52)));
}

#[test]
fn zero_components_are_rejected() {
    let (r, s, pk) = fixed_signature(52);
    assert!(!verify_signature(&pk, &sc(0), &s, &sc(52)));
    assert!(!verify_signature(&pk, &r, &sc(0), &sc(52)));
}

#[test]
fn witnesses_with_equal_bounds_share_instance() {
    let (r1, s1, pk1) = fixed_signature(60);
    let sk2 = sc(1234);
    let (r2, s2) = sign_digest(&sk2, &sc(99), &sc(90)).unwrap();
    let a = circuit(r1, s1, sc(60), pk1, 50, 100).synthesize().unwrap();
    let b = circuit(r2, s2, sc(90), public_key(&sk2), 50, 100).synthesize().unwrap();
    assert_eq!(limbs_of(&a), limbs_of(&b));
}

#[test]
fn unknown_witness_is_missing() {
    let d = ECDSACircuit::default();
    assert!(d.r.is_none() && d.s.is_none() && d.msghash.is_none() && d.pk.is_none());
    assert_eq!(d.synthesize().unwrap_err(), SynthesisError::MissingWitness);
    let (r, s, pk) = fixed_signature(52);
    let full = circuit(r, s, sc(52), pk, 50, 100);
    let blank = full.without_witnesses();
    assert!(blank.lower.is_none() && blank.upper.is_none());
    assert_eq!(blank.G.x, ECDSACircuit::default().G.x);
    let partial = ECDSACircuit { upper: None, ..full };
    assert_eq!(partial.synthesize().unwrap_err(), SynthesisError::MissingWitness);
}

#[test]
fn non_canonical_witness_is_out_of_range() {
    let (r, s, pk) = fixed_signature(52);
    let c = ECDSACircuit { lower: Some(Scalar { limbs: ORDER }), ..circuit(r, s, sc(52), pk, 50, 100) };
    assert_eq!(c.synthesize().unwrap_err(), SynthesisError::WitnessRange);
    let bad_pk = Point { x: [u64::MAX; 4], y: pk.y };
    let c = circuit(r, s, sc(52), bad_pk, 50, 100);
    assert_eq!(c.synthesize().unwrap_err(), SynthesisError::WitnessRange);
}

#[test]
fn canonical_limbs() {
    assert!(Scalar::from_canonical_limbs(ORDER).is_none());
    let below = [ORDER[0] - 1, ORDER[1], ORDER[2], ORDER[3]];
    assert_eq!(Scalar::from_canonical_limbs(below).unwrap().limbs, below);
    assert!(Scalar { limbs: below }.is_canonical());
    assert!(Scalar { limbs: [0, 0, 0, u64::MAX] }.is_canonical());
    assert!(!Scalar { limbs: [0, 0, u64::MAX, u64::MAX] }.is_canonical());
}

#[test]
fn comparison_spans_limbs() {
    let big = Scalar { limbs: [0, 1, 0, 0] };
    let small = Scalar { limbs: [u64::MAX, 0, 0, 0] };
    assert!(small.le(&big));
    assert!(!big.le(&small));
    assert!(big.le(&big));
    assert!(big.equals(&Scalar { limbs: [0, 1, 0, 0] }));
    assert!(!big.equals(&small));
    assert!(sc(0).is_zero());
    assert!(!big.is_zero());
}

#[test]
fn reduction_modulo_order() {
    assert!(Scalar::from_limbs_mod_order(ORDER).is_zero());
    let above = [ORDER[0] + 5, ORDER[1], ORDER[2], ORDER[3]];
    assert_eq!(Scalar::from_limbs_mod_order(above).limbs, [5, 0, 0, 0]);
    assert_eq!(Scalar::from_limbs_mod_order([9, 0, 0, 0]).limbs, [9, 0, 0, 0]);
}

#[test]
fn generator_and_doubling() {
    let g = ECDSACircuit::default().G;
    assert_eq!(
        g.x,
        [0x59F2815B16F81798, 0x029BFCDB2DCE28D9, 0x55A06295CE870B07, 0x79BE667EF9DCBBAC]
    );
    assert_eq!(public_key(&sc(1)).x, g.x);
    let two_g = public_key(&sc(2));
    assert_eq!(
        two_g.x,
        [0xABAC09B95C709EE5, 0x5C778E4B8CEF3CA7, 0x3045406E95C07CD8, 0xC6047F9441ED7D6D]
    );
}

#[test]
fn zero_nonce_gives_no_signature() {
    assert!(sign_digest(&sc(7), &sc(0), &sc(52)).is_none());
}

#[test]
fn params_validation() {
    let ok = CircuitParams {
        strategy: FpStrategy::Simple,
        degree: 19,
        num_advice: 1,
        num_lookup_advice: 1,
        num_fixed: 1,
        lookup_bits: 18,
        limb_bits: 88,
        num_limbs: 3,
    };
    assert_eq!(ok.validate(), Ok(()));
    let wide = CircuitParams { lookup_bits: 89, ..ok };
    assert_eq!(wide.validate(), Err(ConfigurationError::LookupWiderThanLimb));
    let narrow = CircuitParams { num_limbs: 2, strategy: FpStrategy::SimplePlus, ..ok };
    assert_eq!(narrow.validate(), Err(ConfigurationError::LimbsTooNarrow));
    let exact = CircuitParams { limb_bits: 64, num_limbs: 4, ..ok };
    assert_eq!(exact.validate(), Ok(()));
}

#[test]
fn probe_pass_assigns_nothing() {
    let mut phase = SynthesisPhase::start(true);
    assert_eq!(phase, SynthesisPhase::Estimating);
    assert!(!phase.enter_pass());
    assert!(phase.enter_pass());
    assert_eq!(phase, SynthesisPhase::Finalized);
    assert!(!phase.enter_pass());
    assert_eq!(phase, SynthesisPhase::Finalized);
}

#[test]
fn without_probe_first_pass_assigns() {
    let mut phase = SynthesisPhase::start(false);
    assert!(phase.enter_pass());
    assert!(!phase.enter_pass());
}
