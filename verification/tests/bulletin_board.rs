use rand::thread_rng;
use zkbrownian::{
    diversify, keygen, spawn, BulletinBoard, BulletinBoardEntry, InMemoryBulletinBoard,
};

#[test]
fn test_bulletin_board() {
    let mut rng = thread_rng();
    let (sk, pk) = keygen(&mut rng);

    let message = spawn(&sk, &pk, 1, 100, &mut rng).unwrap();

    let mut bb = InMemoryBulletinBoard::new();

    let entry = BulletinBoardEntry {
        message: message.clone(),
        receiver_index: 0,
        addressed_to: message.ppk_0,
    };

    bb.post(entry).unwrap();

    assert_eq!(bb.get_all_messages().len(), 1);

    let messages = bb.get_messages_for(&message.ppk_0);
    assert_eq!(messages.len(), 1);
}

#[test]
fn test_bulletin_board_filters_by_key() {
    let mut rng = thread_rng();
    let (sk, pk) = keygen(&mut rng);
    let message = spawn(&sk, &pk, 1, 100, &mut rng).unwrap();

    let mut bb = InMemoryBulletinBoard::new();
    bb.post(BulletinBoardEntry {
        message: message.clone(),
        receiver_index: 0,
        addressed_to: message.ppk_0,
    })
    .unwrap();

    // A different diversified key matches nothing.
    let (other_ppk, _) = diversify(&pk, &mut rng);
    assert_eq!(bb.get_messages_for(&other_ppk).len(), 0);
    assert_eq!(bb.get_all_messages().len(), 1);
}
