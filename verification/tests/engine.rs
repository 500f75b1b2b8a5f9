use slavic_castles::board::Board;
use slavic_castles::card::{Card, ResourceKind};
use slavic_castles::consts::{
    BASE_RESOURCE_AMOUNT, BASE_RESOURCE_PRODUCTION, BASE_TOWER_HP, BASE_WALLS_HP, CARDS_IN_DECK,
    DELAY_BETWEEN_MOVES, MAX_TOWER_HP,
};
use slavic_castles::player::PlayerNumer;

fn card(
    id: u32,
    cost_resource: ResourceKind,
    cost_amount: i32,
    production_change: i32,
    tower_growth: i32,
    walls_growth: i32,
    damage: i32,
) -> Card {
    Card {
        id,
        cost_resource,
        cost_amount,
        production_resource: cost_resource,
        production_change,
        tower_growth,
        walls_growth,
        damage,
    }
}

fn catalog() -> Vec<Card> {
    vec![
        card(0, ResourceKind::Tools, 1, 0, 1, 0, 0),
        card(1, ResourceKind::Magic, 2, 1, 0, 2, 0),
        card(2, ResourceKind::Soldiers, 3, 0, 0, 0, 4),
    ]
}

#[test]
fn fresh_game_has_base_state() {
    let b = Board::new_board(catalog());
    assert_eq!(b.first.tower_hp, BASE_TOWER_HP);
    assert_eq!(b.first.walls_hp, BASE_WALLS_HP);
    assert_eq!(b.first.resources.tools.amount, BASE_RESOURCE_AMOUNT);
    assert_eq!(b.first.resources.magic.production, BASE_RESOURCE_PRODUCTION);
    assert_eq!(b.second.tower_hp, BASE_TOWER_HP);
    assert_eq!(b.first.deck.len(), CARDS_IN_DECK);
    assert_eq!(b.second.deck.len(), CARDS_IN_DECK);
    assert!(b.first.is_human);
    assert!(!b.second.is_human);
    assert!(b.first.is_active);
    assert!(!b.second.is_active);
    assert_eq!(b.active_player, PlayerNumer::First);
    assert_eq!(b.time_before_next_move, DELAY_BETWEEN_MOVES);
    assert!(!b.is_game_ended());
    assert_eq!(b.game_duration, 0);
    assert_eq!(b.moves_made, 0);
    assert_eq!(b.winner, None);
}

#[test]
fn decks_are_drawn_from_the_catalog_in_turn() {
    let b = Board::new_board(catalog());
    // Ten cards drawn from a three-card catalog wrap around it.
    for i in 0..CARDS_IN_DECK {
        assert_eq!(b.first.deck[i].id, (i % 3) as u32);
        assert_eq!(b.second.deck[i].id, ((i + CARDS_IN_DECK) % 3) as u32);
    }
    assert_eq!(b.next_draw, (2 * CARDS_IN_DECK) % 3);
}

#[test]
fn reset_game_ai_only_makes_first_non_human() {
    let mut b = Board::new_board(catalog());
    b.game_ended = true;
    b.winner = Some(PlayerNumer::Second);
    b.moves_made = 9;
    b.game_duration = 77;
    b.reset_game(true);
    assert!(!b.first.is_human);
    assert!(!b.second.is_human);
    assert!(!b.is_game_ended());
    assert_eq!(b.winner, None);
    assert_eq!(b.moves_made, 0);
    assert_eq!(b.game_duration, 0);
    assert_eq!(b.active_player, PlayerNumer::First);
}

#[test]
fn other_player_flips_the_identity() {
    let mut b = Board::new_board(catalog());
    assert_eq!(b.other_player(), PlayerNumer::Second);
    b.active_player = PlayerNumer::Second;
    assert_eq!(b.other_player(), PlayerNumer::First);
}

#[test]
fn update_decrements_cooldown_and_accumulates_duration() {
    let mut b = Board::new_board(catalog());
    b.update(500);
    assert_eq!(b.time_before_next_move, DELAY_BETWEEN_MOVES - 500);
    assert_eq!(b.game_duration, 500);
    assert_eq!(b.moves_made, 0);
    b.update(10_000);
    assert_eq!(b.time_before_next_move, 0);
    assert_eq!(b.game_duration, 10_500);
}

#[test]
fn update_on_ended_game_changes_nothing() {
    let mut b = Board::new_board(catalog());
    b.game_ended = true;
    b.winner = Some(PlayerNumer::First);
    let before = b.clone();
    b.update(5_000);
    assert_eq!(b, before);
}

#[test]
fn card_use_applies_all_effects_exactly() {
    let mut b = Board::new_board(catalog());
    b.update(DELAY_BETWEEN_MOVES); // run the cooldown out
    let played = Card {
        id: 42,
        cost_resource: ResourceKind::Tools,
        cost_amount: 2,
        production_resource: ResourceKind::Magic,
        production_change: 3,
        tower_growth: 4,
        walls_growth: 5,
        damage: 7,
    };
    let drawn = b.catalog[b.next_draw];
    b.try_use_card(&played, 1, false);
    assert_eq!(b.first.resources.tools.amount, BASE_RESOURCE_AMOUNT - 2);
    assert_eq!(
        b.first.resources.magic.production,
        BASE_RESOURCE_PRODUCTION + 3
    );
    assert_eq!(b.first.tower_hp, BASE_TOWER_HP + 4);
    assert_eq!(b.first.walls_hp, BASE_WALLS_HP + 5);
    // Walls absorb their height's worth of damage: 7 < 15 reaches nothing.
    assert_eq!(b.second.tower_hp, BASE_TOWER_HP);
    assert_eq!(b.second.walls_hp, BASE_WALLS_HP);
    assert_eq!(b.first.deck[1], drawn);
    assert!(!b.first.is_active);
    assert_eq!(b.time_before_next_move, DELAY_BETWEEN_MOVES);
}

#[test]
fn damage_beyond_walls_reaches_the_tower() {
    let mut b = Board::new_board(catalog());
    b.update(DELAY_BETWEEN_MOVES);
    b.second.walls_hp = 3;
    let played = card(50, ResourceKind::Tools, 0, 0, 0, 0, 10);
    b.try_use_card(&played, 0, false);
    assert_eq!(b.second.tower_hp, BASE_TOWER_HP - 7);
    // Walls are a defensive stat, not a shield-charge counter.
    assert_eq!(b.second.walls_hp, 3);
}

#[test]
fn growth_and_production_are_clamped_to_their_ranges() {
    let mut b = Board::new_board(catalog());
    b.update(DELAY_BETWEEN_MOVES);
    let played = Card {
        id: 51,
        cost_resource: ResourceKind::Tools,
        cost_amount: 0,
        production_resource: ResourceKind::Tools,
        production_change: 100,
        tower_growth: 1_000,
        walls_growth: 1_000,
        damage: 0,
    };
    b.try_use_card(&played, 0, false);
    assert_eq!(b.first.tower_hp, 100);
    assert_eq!(b.first.walls_hp, 50);
    assert_eq!(b.first.resources.tools.production, 10);
}

#[test]
fn negative_growth_is_floored_at_zero() {
    let mut b = Board::new_board(catalog());
    b.update(DELAY_BETWEEN_MOVES);
    let played = card(52, ResourceKind::Tools, 0, -100, -1_000, -1_000, 0);
    b.try_use_card(&played, 0, false);
    assert_eq!(b.first.tower_hp, 0);
    assert_eq!(b.first.walls_hp, 0);
    assert_eq!(b.first.resources.tools.production, 0);
}

#[test]
fn unaffordable_card_is_a_complete_no_op() {
    let mut b = Board::new_board(catalog());
    b.update(DELAY_BETWEEN_MOVES);
    let too_dear = card(
        60,
        ResourceKind::Tools,
        BASE_RESOURCE_AMOUNT + 1,
        0,
        9,
        9,
        9,
    );
    assert!(!too_dear.can_aford(&b.first.resources));
    let before = b.clone();
    b.try_use_card(&too_dear, 0, false);
    assert_eq!(b, before);
}

#[test]
fn discard_changes_only_the_slot_and_the_cooldown() {
    let mut b = Board::new_board(catalog());
    b.update(DELAY_BETWEEN_MOVES);
    let first_before = b.first.clone();
    let second_before = b.second.clone();
    let discarded = b.first.deck[2];
    let drawn = b.catalog[b.next_draw];
    b.try_use_card(&discarded, 2, true);
    assert_eq!(b.first.resources, first_before.resources);
    assert_eq!(b.first.tower_hp, first_before.tower_hp);
    assert_eq!(b.first.walls_hp, first_before.walls_hp);
    assert_eq!(b.second, second_before);
    assert_eq!(b.first.deck[2], drawn);
    assert!(!b.first.is_active);
    assert_eq!(b.time_before_next_move, DELAY_BETWEEN_MOVES);
    assert_eq!(b.moves_made, 0);
    assert!(!b.is_game_ended());
}

#[test]
fn intent_during_cooldown_is_ignored() {
    let mut b = Board::new_board(catalog());
    assert!(b.time_before_next_move > 0);
    let played = card(61, ResourceKind::Tools, 0, 0, 5, 0, 0);
    let before = b.clone();
    b.try_use_card(&played, 0, false);
    assert_eq!(b, before);
}

#[test]
fn intent_after_game_end_is_ignored() {
    let mut b = Board::new_board(catalog());
    b.update(DELAY_BETWEEN_MOVES);
    b.game_ended = true;
    b.winner = Some(PlayerNumer::First);
    let played = card(62, ResourceKind::Tools, 0, 0, 5, 0, 0);
    let before = b.clone();
    b.try_use_card(&played, 0, false);
    assert_eq!(b, before);
}

#[test]
fn second_intent_in_one_turn_is_ignored() {
    let mut b = Board::new_board(catalog());
    b.update(DELAY_BETWEEN_MOVES);
    let played = card(63, ResourceKind::Tools, 0, 0, 5, 0, 0);
    b.try_use_card(&played, 0, false);
    b.time_before_next_move = 0; // even once the cooldown is gone
    let before = b.clone();
    b.try_use_card(&played, 1, false);
    assert_eq!(b, before);
}

#[test]
fn turn_switch_counts_the_move_and_runs_production() {
    let mut b = Board::new_board(catalog());
    b.update(DELAY_BETWEEN_MOVES);
    let played = card(64, ResourceKind::Tools, 1, 0, 0, 0, 0);
    b.try_use_card(&played, 0, false);
    b.update(DELAY_BETWEEN_MOVES); // run the new cooldown out
    b.update(0); // resolves the completed move: switch turns
    assert_eq!(b.moves_made, 1);
    assert_eq!(b.active_player, PlayerNumer::Second);
    assert!(b.second.is_active);
    assert!(!b.first.is_active);
    assert_eq!(b.time_before_next_move, DELAY_BETWEEN_MOVES);
    // The new active player's pools each grew by their production.
    assert_eq!(
        b.second.resources.tools.amount,
        BASE_RESOURCE_AMOUNT + BASE_RESOURCE_PRODUCTION
    );
    assert_eq!(
        b.second.resources.magic.amount,
        BASE_RESOURCE_AMOUNT + BASE_RESOURCE_PRODUCTION
    );
    assert_eq!(
        b.second.resources.soldiers.amount,
        BASE_RESOURCE_AMOUNT + BASE_RESOURCE_PRODUCTION
    );
}

#[test]
fn ai_resolves_exactly_one_move_per_turn() {
    let mut b = Board::new_board(catalog());
    b.reset_game(true); // both players machine-driven
    let deck_before = b.first.deck.clone();
    b.update(DELAY_BETWEEN_MOVES); // cooldown runs out; no move yet
    assert!(b.first.is_active);
    b.update(0); // exactly one policy move resolves
    assert!(!b.first.is_active);
    assert_eq!(b.time_before_next_move, DELAY_BETWEEN_MOVES);
    assert_eq!(b.moves_made, 0);
    let changed: Vec<usize> = (0..CARDS_IN_DECK)
        .filter(|&i| b.first.deck[i] != deck_before[i])
        .collect();
    assert!(changed.len() <= 1);
    b.update(DELAY_BETWEEN_MOVES);
    b.update(0); // the completed move is resolved: the turn passes
    assert_eq!(b.moves_made, 1);
    assert_eq!(b.active_player, PlayerNumer::Second);
}

#[test]
fn tower_at_zero_ends_the_game_for_the_survivor() {
    let mut b = Board::new_board(catalog());
    b.second.tower_hp = 0;
    b.first.is_active = false; // a move has been completed
    b.time_before_next_move = 0;
    b.update(0);
    assert!(b.is_game_ended());
    assert_eq!(b.winner, Some(PlayerNumer::First));
}

#[test]
fn maxed_tower_ends_the_game_for_its_builder() {
    let mut b = Board::new_board(catalog());
    b.second.tower_hp = MAX_TOWER_HP;
    b.first.is_active = false;
    b.time_before_next_move = 0;
    b.update(0);
    assert!(b.is_game_ended());
    assert_eq!(b.winner, Some(PlayerNumer::Second));
}

#[test]
fn destroyed_tower_outranks_maxed_tower() {
    let mut b = Board::new_board(catalog());
    b.first.tower_hp = 0;
    b.second.tower_hp = MAX_TOWER_HP;
    b.first.is_active = false;
    b.time_before_next_move = 0;
    b.update(0);
    assert!(b.is_game_ended());
    // The survivor wins by destruction; the maxed tower is not consulted.
    assert_eq!(b.winner, Some(PlayerNumer::Second));
}

#[test]
fn no_win_condition_passes_the_turn_instead() {
    let mut b = Board::new_board(catalog());
    b.first.is_active = false;
    b.time_before_next_move = 0;
    b.update(0);
    assert!(!b.is_game_ended());
    assert_eq!(b.winner, None);
    assert_eq!(b.active_player, PlayerNumer::Second);
}

#[test]
fn ended_game_keeps_its_winner_forever() {
    let mut b = Board::new_board(catalog());
    b.second.tower_hp = 0;
    b.first.is_active = false;
    b.time_before_next_move = 0;
    b.update(0);
    assert_eq!(b.winner, Some(PlayerNumer::First));
    for _ in 0..10 {
        b.update(DELAY_BETWEEN_MOVES);
    }
    assert!(b.is_game_ended());
    assert_eq!(b.winner, Some(PlayerNumer::First));
    assert_eq!(b.moves_made, 0);
}
