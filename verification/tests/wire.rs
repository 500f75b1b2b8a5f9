use slavic_castles::board::Board;
use slavic_castles::card::{Card, ResourceKind};
use slavic_castles::codec::{
    decode_snapshot, encode_snapshot, snapshot_from_bytes, snapshot_to_bytes, SNAPSHOT_WORDS,
};
use slavic_castles::consts::DELAY_BETWEEN_MOVES;

fn catalog() -> Vec<Card> {
    vec![
        Card {
            id: 0,
            cost_resource: ResourceKind::Tools,
            cost_amount: 1,
            production_resource: ResourceKind::Magic,
            production_change: 1,
            tower_growth: 2,
            walls_growth: 0,
            damage: 0,
        },
        Card {
            id: 1,
            cost_resource: ResourceKind::Soldiers,
            cost_amount: 2,
            production_resource: ResourceKind::Soldiers,
            production_change: 0,
            tower_growth: 0,
            walls_growth: 1,
            damage: 3,
        },
    ]
}

#[test]
fn words_decode_back_to_the_snapshot() {
    let mut b = Board::new_board(catalog());
    b.update(DELAY_BETWEEN_MOVES);
    let played = b.first.deck[3];
    b.try_use_card(&played, 3, false);
    b.update(100);
    let snapshot = b.save_board();
    let words = encode_snapshot(&snapshot);
    assert_eq!(words.len(), SNAPSHOT_WORDS);
    assert_eq!(decode_snapshot(&words), Some(snapshot));
}

#[test]
fn a_whole_game_survives_the_wire() {
    let mut b = Board::new_board(catalog());
    b.reset_game(true);
    for _ in 0..7 {
        b.update(DELAY_BETWEEN_MOVES);
        b.update(0);
    }
    let words = encode_snapshot(&b.save_board());
    let restored = Board::load_board(decode_snapshot(&words), catalog());
    assert_eq!(restored, b);
}

#[test]
fn a_truncated_word_sequence_is_rejected() {
    let b = Board::new_board(catalog());
    let mut words = encode_snapshot(&b.save_board());
    words.pop();
    assert_eq!(decode_snapshot(&words), None);
    words.clear();
    assert_eq!(decode_snapshot(&words), None);
}

#[test]
fn corrupted_words_are_rejected() {
    let b = Board::new_board(catalog());
    let words = encode_snapshot(&b.save_board());

    // A resource tag no encoder writes.
    let mut tampered = words.clone();
    tampered[9] = 9;
    assert_eq!(decode_snapshot(&tampered), None);

    // A signed field outside its shifted 32-bit range.
    let mut tampered = words.clone();
    tampered[0] = u64::MAX;
    assert_eq!(decode_snapshot(&tampered), None);

    // A flag word that is neither 0 nor 1.
    let mut tampered = words.clone();
    tampered[48] = 2;
    assert_eq!(decode_snapshot(&tampered), None);

    // A winner tag no encoder writes.
    let mut tampered = words.clone();
    tampered[105] = 7;
    assert_eq!(decode_snapshot(&tampered), None);
}

#[test]
fn decoded_but_unresumable_words_fall_back_to_a_fresh_game() {
    let mut b = Board::new_board(catalog());
    b.next_draw = 1;
    let mut words = encode_snapshot(&b.save_board());
    // The words decode, but the draw cursor points outside the catalog
    // that load is given, so load starts over.
    words[106] = 40;
    let snapshot = decode_snapshot(&words);
    assert!(snapshot.is_some());
    let restored = Board::load_board(snapshot, catalog());
    assert_eq!(restored, Board::new_board(catalog()));
}

#[test]
fn bytes_decode_back_to_the_snapshot() {
    let mut b = Board::new_board(catalog());
    b.update(DELAY_BETWEEN_MOVES);
    let played = b.first.deck[0];
    b.try_use_card(&played, 0, false);
    let snapshot = b.save_board();
    let bytes = snapshot_to_bytes(&snapshot);
    assert_eq!(bytes.len(), SNAPSHOT_WORDS * 8);
    assert_eq!(snapshot_from_bytes(&bytes), Some(snapshot));
}

#[test]
fn byte_values_are_little_endian_words() {
    let b = Board::new_board(catalog());
    let snapshot = b.save_board();
    let words = encode_snapshot(&snapshot);
    let bytes = snapshot_to_bytes(&snapshot);
    for (k, w) in words.iter().enumerate() {
        for j in 0..8 {
            assert_eq!(bytes[8 * k + j], (w >> (8 * j)) as u8);
        }
    }
}

#[test]
fn a_byte_string_of_the_wrong_shape_is_rejected() {
    let b = Board::new_board(catalog());
    let mut bytes = snapshot_to_bytes(&b.save_board());
    bytes.pop(); // no longer whole words
    assert_eq!(snapshot_from_bytes(&bytes), None);
    bytes.truncate(800); // whole words, but too few
    assert_eq!(snapshot_from_bytes(&bytes), None);
    assert_eq!(snapshot_from_bytes(&Vec::new()), None);
}
