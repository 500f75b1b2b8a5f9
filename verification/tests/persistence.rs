use slavic_castles::board::Board;
use slavic_castles::card::{Card, ResourceKind};
use slavic_castles::consts::DELAY_BETWEEN_MOVES;
use slavic_castles::player::PlayerNumer;

fn catalog() -> Vec<Card> {
    vec![
        Card {
            id: 0,
            cost_resource: ResourceKind::Tools,
            cost_amount: 1,
            production_resource: ResourceKind::Magic,
            production_change: 1,
            tower_growth: 2,
            walls_growth: 0,
            damage: 0,
        },
        Card {
            id: 1,
            cost_resource: ResourceKind::Soldiers,
            cost_amount: 2,
            production_resource: ResourceKind::Soldiers,
            production_change: 0,
            tower_growth: 0,
            walls_growth: 1,
            damage: 3,
        },
    ]
}

#[test]
fn save_then_load_reproduces_a_running_game() {
    let mut b = Board::new_board(catalog());
    b.update(DELAY_BETWEEN_MOVES);
    let played = b.first.deck[0];
    b.try_use_card(&played, 0, false);
    b.update(300);
    let saved = b.save_board();
    let restored = Board::load_board(Some(saved), catalog());
    assert_eq!(restored, b);
}

#[test]
fn loading_nothing_starts_a_fresh_game() {
    let b = Board::load_board(None, catalog());
    assert_eq!(b, Board::new_board(catalog()));
}

#[test]
fn a_finished_game_is_never_resumed() {
    let mut b = Board::new_board(catalog());
    b.game_ended = true;
    b.winner = Some(PlayerNumer::First);
    b.moves_made = 31;
    let saved = b.save_board();
    let restored = Board::load_board(Some(saved), catalog());
    assert!(!restored.is_game_ended());
    assert_eq!(restored.moves_made, 0);
    assert_eq!(restored, Board::new_board(catalog()));
}

#[test]
fn a_snapshot_that_breaks_the_invariant_is_discarded() {
    let mut b = Board::new_board(catalog());
    let mut saved = b.save_board();
    saved.first.tower_hp = 10_000; // tampered: out of range
    let restored = Board::load_board(Some(saved), catalog());
    assert_eq!(restored, Board::new_board(catalog()));

    let mut saved = b.save_board();
    saved.next_draw = 99; // tampered: outside the catalog
    let restored = Board::load_board(Some(saved), catalog());
    assert_eq!(restored, Board::new_board(catalog()));

    b.second.is_active = true; // both players owing a move is impossible
    let saved = b.save_board();
    let restored = Board::load_board(Some(saved), catalog());
    assert_eq!(restored, Board::new_board(catalog()));
}

#[test]
fn the_snapshot_never_carries_the_catalog() {
    let mut b = Board::new_board(catalog());
    b.update(DELAY_BETWEEN_MOVES);
    let saved = b.save_board();
    // Resuming over a re-supplied, different catalog keeps the saved
    // state and draws future cards from the new catalog.
    let other_catalog = vec![Card {
        id: 9,
        cost_resource: ResourceKind::Magic,
        cost_amount: 0,
        production_resource: ResourceKind::Magic,
        production_change: 0,
        tower_growth: 1,
        walls_growth: 1,
        damage: 1,
    }];
    let restored = Board::load_board(Some(saved), other_catalog.clone());
    assert_eq!(restored.first, b.first);
    assert_eq!(restored.second, b.second);
    assert_eq!(restored.game_duration, b.game_duration);
    assert_eq!(restored.catalog, other_catalog);
}
