use ark_ec::AffineRepr;
use rand::thread_rng;
use zkbrownian::{compute_prf, extract_routing_value, keygen, scalar_from_u64, Generators};

#[test]
fn test_compute_prf() {
    let mut rng = thread_rng();
    let (sk, _pk) = keygen(&mut rng);

    let theta = scalar_from_u64(42);
    let generator = Generators::generate(&mut rng, 0, 0).g1_base;

    let phi = compute_prf(&theta, &sk, &generator);
    assert!(phi.is_some());
}

#[test]
fn test_extract_routing_value() {
    let mut rng = thread_rng();
    let (sk, _pk) = keygen(&mut rng);

    let theta = scalar_from_u64(123);
    let generator = Generators::generate(&mut rng, 0, 0).g1_base;

    let phi = compute_prf(&theta, &sk, &generator).unwrap();
    let rho = extract_routing_value(&phi);

    println!("Routing value ρ: {}", rho);
}

#[test]
fn test_prf_deterministic() {
    let mut rng = thread_rng();
    let (sk, _pk) = keygen(&mut rng);

    let theta = scalar_from_u64(999);
    let generator = Generators::generate(&mut rng, 0, 0).g1_base;

    let phi1 = compute_prf(&theta, &sk, &generator).unwrap();
    let phi2 = compute_prf(&theta, &sk, &generator).unwrap();

    // Same inputs should give same output
    assert_eq!(phi1.phi.inner.raw, phi2.phi.inner.raw);
}

#[test]
fn test_extraction_matches_rendered_x() {
    let mut rng = thread_rng();
    let (sk, _pk) = keygen(&mut rng);

    let theta = scalar_from_u64(7);
    let generator = Generators::generate(&mut rng, 0, 0).g1_base;
    let phi = compute_prf(&theta, &sk, &generator).unwrap();

    // Recompute the extraction by hand from the point's decimal x-coordinate.
    let rendered = phi.phi.inner.raw.x().unwrap().to_string();
    let bytes = rendered.as_bytes();
    let expected = if bytes.len() >= 4 {
        u32::from_be_bytes([bytes[0], bytes[1], bytes[2], bytes[3]])
    } else {
        0
    };
    assert_eq!(extract_routing_value(&phi), expected);
}
