use ark_ec::CurveGroup;
use ark_ec::PrimeGroup;
use rand::thread_rng;
use zkbrownian::{generate_g1_generators, generate_g2_generators, Generators};

#[test]
fn test_generate_g1_generators() {
    let mut rng = thread_rng();
    let gens = generate_g1_generators(&mut rng, 5);
    assert_eq!(gens.len(), 5);

    // Check they're all different
    for i in 0..gens.len() {
        for j in (i + 1)..gens.len() {
            assert_ne!(gens[i].inner.raw, gens[j].inner.raw);
        }
    }
}

#[test]
fn test_generate_g2_generators() {
    let mut rng = thread_rng();
    let gens = generate_g2_generators(&mut rng, 5);
    assert_eq!(gens.len(), 5);

    // Check they're all different
    for i in 0..gens.len() {
        for j in (i + 1)..gens.len() {
            assert_ne!(gens[i].inner.raw, gens[j].inner.raw);
        }
    }
}

#[test]
fn test_generators_struct() {
    let mut rng = thread_rng();
    let generators = Generators::generate(&mut rng, 10, 10);

    // Check base generators
    assert_eq!(
        generators.g1_base.inner.raw,
        ark_bls12_381::G1Projective::generator().into_affine()
    );
    assert_eq!(
        generators.g2_base.inner.raw,
        ark_bls12_381::G2Projective::generator().into_affine()
    );

    // Check indexing
    assert_eq!(generators.g1(0).unwrap().inner.raw, generators.g1_base.inner.raw);
    assert_eq!(generators.g2(0).unwrap().inner.raw, generators.g2_base.inner.raw);

    assert!(generators.g1(1).is_some());
    assert!(generators.g2(1).is_some());
}
