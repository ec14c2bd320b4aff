use rand::thread_rng;
use zkbrownian::{keygen, select_next_hop, ProtocolError, WeightMatrix, WEIGHT_SUM};

#[test]
fn test_weight_matrix_uniform() {
    let matrix = WeightMatrix::uniform(3, WEIGHT_SUM);

    // Each node should have 2 neighbors (all others)
    for i in 0..3 {
        assert_eq!(matrix.get_weights(i).len(), 2);
    }

    // Check weights sum to WEIGHT_SUM
    let weights = matrix.get_weights(0);
    let sum: u64 = weights.iter().map(|(_, w)| *w as u64).sum();
    assert_eq!(sum, WEIGHT_SUM);
}

#[test]
fn test_select_next_hop() {
    let mut rng = thread_rng();

    // Create 3 nodes
    let (_, pk0) = keygen(&mut rng);
    let (_, pk1) = keygen(&mut rng);
    let (_, pk2) = keygen(&mut rng);
    let all_pks = vec![pk0, pk1, pk2];

    // Create uniform weight matrix
    let matrix = WeightMatrix::uniform(3, WEIGHT_SUM);

    // Test selection with different ρ values, from node 0's row
    let (idx1, _) = select_next_hop(0, &matrix, 0, &all_pks).unwrap();
    let (idx2, _) = select_next_hop(u32::MAX / 2, &matrix, 0, &all_pks).unwrap();
    let (idx3, _) = select_next_hop(u32::MAX, &matrix, 0, &all_pks).unwrap();

    // All selections should be valid
    assert!(idx1 < 3);
    assert!(idx2 < 3);
    assert!(idx3 < 3);

    println!("Selected nodes: {}, {}, {}", idx1, idx2, idx3);
}

#[test]
fn test_weight_matrix_custom() {
    let mut matrix = WeightMatrix::new(3);

    // Node 0 -> Node 1 with weight 3B, Node 2 with weight 1B
    matrix.add_edge(0, 1, 3_000_000_000);
    matrix.add_edge(0, 2, 1_000_000_000);

    let weights = matrix.get_weights(0);
    assert_eq!(weights.len(), 2);
    assert_eq!(weights[0], (1, 3_000_000_000));
    assert_eq!(weights[1], (2, 1_000_000_000));
}

#[test]
fn test_boundary_selects_next_bucket() {
    let mut rng = thread_rng();
    let (_, pk0) = keygen(&mut rng);
    let (_, pk1) = keygen(&mut rng);
    let (_, pk2) = keygen(&mut rng);
    let all_pks = vec![pk0, pk1, pk2];

    let mut matrix = WeightMatrix::new(3);
    matrix.add_edge(0, 1, 10);
    matrix.add_edge(0, 2, 20);

    // Buckets from node 0: [0, 10) -> node 1, [10, 30) -> node 2.
    let (a, _) = select_next_hop(9, &matrix, 0, &all_pks).unwrap();
    assert_eq!(a, 1);
    // A value equal to a cumulative boundary belongs to the next bucket.
    let (b, _) = select_next_hop(10, &matrix, 0, &all_pks).unwrap();
    assert_eq!(b, 2);
    let (c, _) = select_next_hop(29, &matrix, 0, &all_pks).unwrap();
    assert_eq!(c, 2);
    // Past the last bucket: the topology is misconstructed for this value.
    assert!(matches!(
        select_next_hop(30, &matrix, 0, &all_pks),
        Err(ProtocolError::InvalidWeightSelection)
    ));
}

#[test]
fn test_select_empty_row_fails() {
    let mut rng = thread_rng();
    let (_, pk0) = keygen(&mut rng);
    let all_pks = vec![pk0];
    let matrix = WeightMatrix::new(1);
    assert!(matches!(
        select_next_hop(0, &matrix, 0, &all_pks),
        Err(ProtocolError::InvalidWeightSelection)
    ));
}

#[test]
fn test_uniform_distributes_remainder() {
    // 4 nodes: each row has 3 neighbors, 10 / 3 = 3 remainder 1,
    // so the first neighbor of every row is one unit heavier.
    let matrix = WeightMatrix::uniform(4, 10);
    for i in 0..4 {
        let weights = matrix.get_weights(i);
        assert_eq!(weights.len(), 3);
        let ws: Vec<u32> = weights.iter().map(|(_, w)| *w).collect();
        assert_eq!(ws, vec![4, 3, 3]);
        let sum: u64 = ws.iter().map(|w| *w as u64).sum();
        assert_eq!(sum, 10);
    }
    // Neighbor indices skip the node itself, in order.
    let ns: Vec<usize> = matrix.get_weights(1).iter().map(|(n, _)| *n).collect();
    assert_eq!(ns, vec![0, 2, 3]);
}
