use ark_ec::CurveGroup;
use ark_ec::PrimeGroup;
use rand::thread_rng;
use zkbrownian::{
    check_diversified_ownership, compute_prf_exponent, diversify, keygen, scalar_from_u64,
    scalar_inverse,
};

#[test]
fn test_keygen() {
    let mut rng = thread_rng();
    let (sk, pk) = keygen(&mut rng);

    // Verify pk = G^sk
    let generator = ark_bls12_381::G2Projective::generator();
    let expected_pk = (generator * sk.sk.inner.raw).into_affine();
    assert_eq!(pk.pk.inner.raw, expected_pk);
}

#[test]
fn test_diversify() {
    let mut rng = thread_rng();
    let (sk, pk) = keygen(&mut rng);
    let (ppk, _diversifier) = diversify(&pk, &mut rng);

    // Check ownership
    assert!(check_diversified_ownership(&sk, &ppk));
}

#[test]
fn test_scalar_inverse() {
    let x = scalar_from_u64(42);
    let x_inv = scalar_inverse(&x).unwrap();
    let product = x.inner.raw * x_inv.inner.raw;
    assert_eq!(product, ark_bls12_381::Fr::from(1u64));
}

#[test]
fn test_prf_exponent() {
    let theta = scalar_from_u64(10);
    let sk = scalar_from_u64(5);
    let exponent = compute_prf_exponent(&theta, &sk).unwrap();

    // Verify (θ + sk) * exponent = 1
    let sum = ark_bls12_381::Fr::from(10u64) + ark_bls12_381::Fr::from(5u64);
    let product = sum * exponent.inner.raw;
    assert_eq!(product, ark_bls12_381::Fr::from(1u64));
}

#[test]
fn test_ownership_rejects_other_key() {
    let mut rng = thread_rng();
    let (_sk1, pk1) = keygen(&mut rng);
    let (sk2, _pk2) = keygen(&mut rng);
    let (ppk, _diversifier) = diversify(&pk1, &mut rng);

    // A diversified key for pk1 is not recognized by another node's secret.
    assert!(!check_diversified_ownership(&sk2, &ppk));
}

#[test]
fn test_inverse_of_zero_is_none() {
    let zero = scalar_from_u64(0);
    assert!(scalar_inverse(&zero).is_none());
}

#[test]
fn test_scalar_from_raw_roundtrip() {
    // A scalar wrapped from a raw field element behaves like any other.
    let x = zkbrownian::curve::scalar_from_raw(zkbrownian::curve::FrRepr {
        raw: ark_bls12_381::Fr::from(42u64),
    });
    let x_inv = scalar_inverse(&x).unwrap();
    let product = x.inner.raw * x_inv.inner.raw;
    assert_eq!(product, ark_bls12_381::Fr::from(1u64));
}
