//! The game engine: both players, the active-player pointer, turn timing,
//! move application, turn switching and win detection.
//!
//! The engine is driven by two calls from a presentation layer: an intent
//! (`try_use_card`) and a per-frame `update(delta)` with `delta` in
//! milliseconds. Intents arriving after the game ended, during the
//! cooldown, or once the active player has already moved this turn are
//! silently ignored, never queued.

use vstd::prelude::*;
use crate::card::Card;
use crate::consts::{CARDS_IN_DECK, DELAY_BETWEEN_MOVES, MAX_TOWER_HP};
use crate::player::{Player, PlayerNumer, PlayerView};

verus! {

/// `a + b`, saturated at the machine limit.
pub open spec fn sat_add_u64(a: u64, b: u64) -> u64 {
    if a + b > u64::MAX {
        u64::MAX
    } else {
        (a + b) as u64
    }
}

/// `a - b`, floored at zero.
pub open spec fn sat_sub_u64(a: u64, b: u64) -> u64 {
    if b >= a {
        0
    } else {
        (a - b) as u64
    }
}

/// `a + 1`, saturated at the machine limit.
pub open spec fn sat_inc_i32(a: i32) -> i32 {
    if a == i32::MAX {
        a
    } else {
        (a + 1) as i32
    }
}

/// The hand refilled slot by slot: `n` cards drawn from the catalog
/// starting at `cursor`, wrapping around, and the cursor left after them.
pub open spec fn spec_draw_seq(catalog: Seq<Card>, cursor: int, n: nat) -> (Seq<Card>, int)
    decreases n,
{
    if n == 0 {
        (Seq::empty(), cursor)
    } else {
        let (drawn, cur) = spec_draw_seq(catalog, cursor, (n - 1) as nat);
        (drawn.push(catalog[cur]), (cur + 1) % catalog.len() as int)
    }
}

/// The game engine. All fields are observable; the contracts hold
/// whenever the well-formedness invariant `wf` of the view does, which
/// every constructor establishes and every method preserves.
#[derive(Clone, Debug, PartialEq, Eq)]
pub struct Board {
    pub first: Player,
    pub second: Player,
    pub active_player: PlayerNumer,
    /// Cooldown in milliseconds; while positive, no move is accepted.
    pub time_before_next_move: u64,
    pub game_ended: bool,
    /// Total played time in milliseconds.
    pub game_duration: u64,
    pub moves_made: i32,
    /// Set exactly when `game_ended` is.
    pub winner: Option<PlayerNumer>,
    /// The fixed set of card definitions hands are refilled from.
    pub catalog: Vec<Card>,
    /// Next catalog slot a replacement card is drawn from.
    pub next_draw: usize,
}

/// Mathematical image of the engine.
#[verifier::ext_equal]
pub struct BoardView {
    pub first: PlayerView,
    pub second: PlayerView,
    pub active_player: PlayerNumer,
    pub time_before_next_move: u64,
    pub game_ended: bool,
    pub game_duration: u64,
    pub moves_made: i32,
    pub winner: Option<PlayerNumer>,
    pub catalog: Seq<Card>,
    pub next_draw: int,
}

impl View for Board {
    type V = BoardView;

    open spec fn view(&self) -> BoardView {
        BoardView {
            first: self.first@,
            second: self.second@,
            active_player: self.active_player,
            time_before_next_move: self.time_before_next_move,
            game_ended: self.game_ended,
            game_duration: self.game_duration,
            moves_made: self.moves_made,
            winner: self.winner,
            catalog: self.catalog@,
            next_draw: self.next_draw as int,
        }
    }
}

impl BoardView {
    /// Both players well formed, a usable catalog, the draw cursor inside
    /// it, a winner exactly when the game ended, and only the active
    /// player ever owing a move.
    pub open spec fn wf(self) -> bool {
        &&& self.first.wf()
        &&& self.second.wf()
        &&& self.catalog.len() > 0
        &&& forall|i: int| 0 <= i < self.catalog.len() ==> #[trigger] self.catalog[i].wf()
        &&& 0 <= self.next_draw < self.catalog.len()
        &&& (self.game_ended <==> self.winner is Some)
        &&& !self.player(self.active_player.spec_other()).is_active
    }

    pub open spec fn player(self, id: PlayerNumer) -> PlayerView {
        match id {
            PlayerNumer::First => self.first,
            PlayerNumer::Second => self.second,
        }
    }

    /// This board with the state of one player replaced.
    pub open spec fn with_player(self, id: PlayerNumer, p: PlayerView) -> BoardView {
        match id {
            PlayerNumer::First => BoardView { first: p, ..self },
            PlayerNumer::Second => BoardView { second: p, ..self },
        }
    }

    /// The player entitled to act this turn.
    pub open spec fn active(self) -> PlayerView {
        self.player(self.active_player)
    }

    /// The winner by destruction: when either tower is down, the player
    /// whose tower still stands.
    pub open spec fn dead_winner(self) -> Option<PlayerNumer> {
        if !self.first.is_alive() || !self.second.is_alive() {
            Some(
                if self.first.is_alive() {
                    PlayerNumer::First
                } else {
                    PlayerNumer::Second
                },
            )
        } else {
            None
        }
    }

    /// The winner by construction: when either tower reached its maximum,
    /// the player who built it.
    pub open spec fn maxed_winner(self) -> Option<PlayerNumer> {
        if self.first.has_max_possible_tower() || self.second.has_max_possible_tower() {
            Some(
                if self.first.has_max_possible_tower() {
                    PlayerNumer::First
                } else {
                    PlayerNumer::Second
                },
            )
        } else {
            None
        }
    }

    /// The winner a move-end resolution reports: destruction decides
    /// first; a maxed tower is consulted only when both towers stand.
    pub open spec fn end_winner(self) -> Option<PlayerNumer> {
        if self.dead_winner() is Some {
            self.dead_winner()
        } else {
            self.maxed_winner()
        }
    }

    /// The engine after an intent `use card` / `discard card` on hand
    /// slot `index`. Ignored intents leave the board untouched; a discard
    /// only refills the slot; a use resolves the card's full effects and
    /// the opponent's damage. Every accepted move restarts the cooldown
    /// and refills the slot from the catalog.
    pub open spec fn spec_try_use(self, card: Card, index: int, discard: bool) -> BoardView {
        if self.game_ended || self.time_before_next_move > 0 || !self.active().is_active {
            self
        } else if discard {
            let drawn = self.catalog[self.next_draw];
            BoardView {
                time_before_next_move: DELAY_BETWEEN_MOVES,
                next_draw: (self.next_draw + 1) % self.catalog.len() as int,
                ..self.with_player(
                    self.active_player,
                    self.active().spec_with_replaced(index, drawn),
                )
            }
        } else if !card.spec_can_aford(self.active().resources) {
            self
        } else {
            let drawn = self.catalog[self.next_draw];
            let user = self.active().spec_after_use(card).spec_with_replaced(index, drawn);
            let opponent = self.player(self.active_player.spec_other()).spec_after_damage(
                card.damage as int,
                false,
            );
            BoardView {
                time_before_next_move: DELAY_BETWEEN_MOVES,
                next_draw: (self.next_draw + 1) % self.catalog.len() as int,
                ..self.with_player(self.active_player, user).with_player(
                    self.active_player.spec_other(),
                    opponent,
                )
            }
        }
    }

    /// The engine after the turn passes to the opponent: the move counter
    /// grows, the new active player starts its turn (production step) and
    /// the cooldown restarts.
    pub open spec fn spec_switch_player(self) -> BoardView {
        let next = self.active_player.spec_other();
        BoardView {
            moves_made: sat_inc_i32(self.moves_made),
            active_player: next,
            time_before_next_move: DELAY_BETWEEN_MOVES,
            ..self.with_player(next, self.player(next).spec_after_new_turn())
        }
    }

    /// The engine after a completed move is resolved: the game ends with
    /// the reported winner when a win condition holds, else the turn
    /// passes to the opponent.
    pub open spec fn spec_move_end(self) -> BoardView {
        match self.end_winner() {
            Some(w) => BoardView { game_ended: true, winner: Some(w), ..self },
            None => self.spec_switch_player(),
        }
    }

    /// The engine after one time tick of `delta` milliseconds: an ended
    /// game is untouched; played time accumulates; a running cooldown is
    /// only decremented; a completed move is resolved; a non-human active
    /// player that still owes a move has the policy's choice applied; a
    /// human's turn awaits an intent.
    pub open spec fn spec_update(self, delta: u64) -> BoardView {
        if self.game_ended {
            self
        } else {
            let b = BoardView { game_duration: sat_add_u64(self.game_duration, delta), ..self };
            if self.time_before_next_move > 0 {
                BoardView {
                    time_before_next_move: sat_sub_u64(self.time_before_next_move, delta),
                    ..b
                }
            } else if !self.active().is_active {
                b.spec_move_end()
            } else if !self.active().is_human {
                let (i, discard) = self.active().spec_possible_move();
                b.spec_try_use(self.active().deck[i], i, discard)
            } else {
                b
            }
        }
    }
}

/// A board reset over a catalog: both hands refilled slot by slot from
/// `cursor` on, base player state (the first player human unless the game
/// is between two machine players, the second never human), the first
/// player active and owing a move, and all counters fresh.
pub open spec fn spec_reset_board(catalog: Seq<Card>, cursor: int, ai_only: bool) -> BoardView {
    let (deck1, cur1) = spec_draw_seq(catalog, cursor, CARDS_IN_DECK as nat);
    let (deck2, cur2) = spec_draw_seq(catalog, cur1, CARDS_IN_DECK as nat);
    BoardView {
        first: PlayerView::spec_new(true, !ai_only, deck1),
        second: PlayerView::spec_new(false, false, deck2),
        active_player: PlayerNumer::First,
        time_before_next_move: DELAY_BETWEEN_MOVES,
        game_ended: false,
        game_duration: 0,
        moves_made: 0,
        winner: None,
        catalog,
        next_draw: cur2,
    }
}

/// A fresh game over a catalog, drawn from its first card on.
pub open spec fn spec_new_board(catalog: Seq<Card>) -> BoardView {
    spec_reset_board(catalog, 0, false)
}

/// Draws `n` cards from the catalog starting at `cursor`, wrapping
/// around, and returns them with the cursor left after them.
fn draw_cards(catalog: &Vec<Card>, cursor: usize, n: usize) -> (r: (Vec<Card>, usize))
    requires
        cursor < catalog@.len(),
    ensures
        (r.0@, r.1 as int) == spec_draw_seq(catalog@, cursor as int, n as nat),
        r.1 < catalog@.len(),
        r.0@.len() == n,
{
    let mut drawn: Vec<Card> = Vec::new();
    let mut cur = cursor;
    let mut k: usize = 0;
    while k < n
        invariant
            cur < catalog@.len(),
            k <= n,
            (drawn@, cur as int) == spec_draw_seq(catalog@, cursor as int, k as nat),
            drawn@.len() == k,
        decreases n - k,
    {
        let len = catalog.len();
        drawn.push(catalog[cur]);
        cur = (cur + 1) % len;
        k += 1;
    }
    (drawn, cur)
}

impl Board {
    /// The well-formedness invariant of the engine.
    pub open spec fn wf(self) -> bool {
        self@.wf()
    }

    /// A fresh game over the given card catalog.
    pub fn new_board(catalog: Vec<Card>) -> (r: Board)
        requires
            catalog@.len() > 0,
            forall|i: int| 0 <= i < catalog@.len() ==> #[trigger] catalog@[i].wf(),
        ensures
            r@ == spec_new_board(catalog@),
            r.wf(),
    {
        let (deck1, cur1) = draw_cards(&catalog, 0, CARDS_IN_DECK);
        let (deck2, cur2) = draw_cards(&catalog, cur1, CARDS_IN_DECK);
        proof {
            lemma_draw_seq_wf(catalog@, 0, CARDS_IN_DECK as nat);
            lemma_draw_seq_wf(catalog@, cur1 as int, CARDS_IN_DECK as nat);
        }
        let r = Board {
            first: Player::new(true, true, deck1),
            second: Player::new(false, false, deck2),
            active_player: PlayerNumer::First,
            time_before_next_move: DELAY_BETWEEN_MOVES,
            game_ended: false,
            game_duration: 0,
            moves_made: 0,
            winner: None,
            catalog,
            next_draw: cur2,
        };
        assert(r@ =~~= spec_new_board(r.catalog@));
        r
    }

    /// Reinitializes both players and all counters for a new game over
    /// the same catalog; the first player is human unless `ai_only`.
    pub fn reset_game(&mut self, ai_only: bool)
        requires
            old(self).wf(),
        ensures
            final(self)@ == spec_reset_board(old(self)@.catalog, old(self)@.next_draw, ai_only),
            final(self).wf(),
    {
        let (deck1, cur1) = draw_cards(&self.catalog, self.next_draw, CARDS_IN_DECK);
        let (deck2, cur2) = draw_cards(&self.catalog, cur1, CARDS_IN_DECK);
        proof {
            lemma_draw_seq_wf(self.catalog@, self.next_draw as int, CARDS_IN_DECK as nat);
            lemma_draw_seq_wf(self.catalog@, cur1 as int, CARDS_IN_DECK as nat);
        }
        self.first = Player::new(true, !ai_only, deck1);
        self.second = Player::new(false, false, deck2);
        self.active_player = PlayerNumer::First;
        self.time_before_next_move = DELAY_BETWEEN_MOVES;
        self.game_ended = false;
        self.game_duration = 0;
        self.moves_made = 0;
        self.winner = None;
        self.next_draw = cur2;
        assert(final(self)@ =~~= spec_reset_board(old(self)@.catalog, old(self)@.next_draw, ai_only));
    }

    pub fn is_game_ended(&self) -> (r: bool)
        ensures
            r == self@.game_ended,
    {
        self.game_ended
    }

    /// The identity of the player not entitled to act this turn.
    pub fn other_player(&self) -> (r: PlayerNumer)
        ensures
            r == self@.active_player.spec_other(),
    {
        self.active_player.other()
    }

    /// Applies an intent on behalf of the active player: use the card in
    /// hand slot `index`, or discard it. Ignored (without any state
    /// change) when the game has ended, the cooldown still runs, the
    /// active player has already moved this turn, or the card cannot be
    /// paid for.
    pub fn try_use_card(&mut self, card: &Card, index: i32, discard: bool)
        requires
            old(self).wf(),
            card.wf(),
            0 <= index < CARDS_IN_DECK,
        ensures
            final(self)@ == old(self)@.spec_try_use(*card, index as int, discard),
            final(self).wf(),
            !discard && !card.spec_can_aford(old(self)@.active().resources) ==> final(self)@
                == old(self)@,
            discard ==> {
                &&& final(self)@.first.resources == old(self)@.first.resources
                &&& final(self)@.second.resources == old(self)@.second.resources
                &&& final(self)@.first.tower_hp == old(self)@.first.tower_hp
                &&& final(self)@.second.tower_hp == old(self)@.second.tower_hp
                &&& final(self)@.first.walls_hp == old(self)@.first.walls_hp
                &&& final(self)@.second.walls_hp == old(self)@.second.walls_hp
                &&& final(self)@.game_ended == old(self)@.game_ended
                &&& final(self)@.winner == old(self)@.winner
                &&& final(self)@.active_player == old(self)@.active_player
            },
    {
        if self.game_ended || self.time_before_next_move > 0 {
            return;
        }
        let is_owed = match self.active_player {
            PlayerNumer::First => self.first.is_active,
            PlayerNumer::Second => self.second.is_active,
        };
        if !is_owed {
            return;
        }
        if discard {
            let len = self.catalog.len();
            let drawn = self.catalog[self.next_draw];
            self.next_draw = (self.next_draw + 1) % len;
            match self.active_player {
                PlayerNumer::First => self.first.replace_card(index as usize, drawn),
                PlayerNumer::Second => self.second.replace_card(index as usize, drawn),
            }
            self.time_before_next_move = DELAY_BETWEEN_MOVES;
            assert(final(self)@ =~~= old(self)@.spec_try_use(*card, index as int, discard));
            return;
        }
        let affordable = match self.active_player {
            PlayerNumer::First => card.can_aford(&self.first.resources),
            PlayerNumer::Second => card.can_aford(&self.second.resources),
        };
        if !affordable {
            return;
        }
        let len = self.catalog.len();
        let drawn = self.catalog[self.next_draw];
        self.next_draw = (self.next_draw + 1) % len;
        match self.active_player {
            PlayerNumer::First => {
                self.first.card_used(card, true);
                self.first.replace_card(index as usize, drawn);
                self.second.card_used(card, false);
            },
            PlayerNumer::Second => {
                self.second.card_used(card, true);
                self.second.replace_card(index as usize, drawn);
                self.first.card_used(card, false);
            },
        }
        self.time_before_next_move = DELAY_BETWEEN_MOVES;
        assert(final(self)@ =~~= old(self)@.spec_try_use(*card, index as int, discard));
    }

    /// Passes the turn: counts the move, makes the opponent active and
    /// runs its turn-start production step, and restarts the cooldown.
    fn switch_player(&mut self)
        requires
            old(self).wf(),
            !old(self)@.active().is_active,
        ensures
            final(self)@ == old(self)@.spec_switch_player(),
            final(self).wf(),
    {
        if self.moves_made < i32::MAX {
            self.moves_made = self.moves_made + 1;
        }
        self.active_player = self.active_player.other();
        match self.active_player {
            PlayerNumer::First => self.first.start_new_turn(),
            PlayerNumer::Second => self.second.start_new_turn(),
        }
        self.time_before_next_move = DELAY_BETWEEN_MOVES;
        assert(final(self)@ =~~= old(self)@.spec_switch_player());
    }

    /// Resolves a completed move: ends the game with its winner when a
    /// win condition holds, else passes the turn.
    fn handle_move_end(&mut self)
        requires
            old(self).wf(),
            !old(self).game_ended,
            !old(self)@.active().is_active,
        ensures
            final(self)@ == old(self)@.spec_move_end(),
            final(self).wf(),
    {
        let first_alive = self.first.tower_hp > 0;
        let second_alive = self.second.tower_hp > 0;
        if !first_alive || !second_alive {
            let id = if first_alive {
                PlayerNumer::First
            } else {
                PlayerNumer::Second
            };
            self.game_ended = true;
            self.winner = Some(id);
            assert(final(self)@ =~~= old(self)@.spec_move_end());
        } else if self.first.tower_hp == MAX_TOWER_HP || self.second.tower_hp == MAX_TOWER_HP {
            let id = if self.first.tower_hp == MAX_TOWER_HP {
                PlayerNumer::First
            } else {
                PlayerNumer::Second
            };
            self.game_ended = true;
            self.winner = Some(id);
            assert(final(self)@ =~~= old(self)@.spec_move_end());
        } else {
            self.switch_player();
        }
    }

    /// Advances the game by `delta` milliseconds: accumulates played
    /// time, runs down the cooldown, resolves a completed move, and makes
    /// the policy's move for a non-human active player.
    pub fn update(&mut self, delta: u64)
        requires
            old(self).wf(),
        ensures
            final(self)@ == old(self)@.spec_update(delta),
            final(self).wf(),
    {
        if self.game_ended {
            return;
        }
        self.game_duration = if delta > u64::MAX - self.game_duration {
            u64::MAX
        } else {
            self.game_duration + delta
        };
        if self.time_before_next_move > 0 {
            self.time_before_next_move = if delta >= self.time_before_next_move {
                0
            } else {
                self.time_before_next_move - delta
            };
            assert(final(self)@ =~~= old(self)@.spec_update(delta));
            return;
        }
        let (is_owed, is_human) = match self.active_player {
            PlayerNumer::First => (self.first.is_active, self.first.is_human),
            PlayerNumer::Second => (self.second.is_active, self.second.is_human),
        };
        if !is_owed {
            self.handle_move_end();
            assert(final(self)@ =~~= old(self)@.spec_update(delta));
        } else if !is_human {
            let (i, discard) = match self.active_player {
                PlayerNumer::First => self.first.get_possible_move(),
                PlayerNumer::Second => self.second.get_possible_move(),
            };
            let card = match self.active_player {
                PlayerNumer::First => self.first.deck[i as usize],
                PlayerNumer::Second => self.second.deck[i as usize],
            };
            self.try_use_card(&card, i, discard);
            assert(final(self)@ =~~= old(self)@.spec_update(delta));
        } else {
            assert(final(self)@ =~~= old(self)@.spec_update(delta));
        }
    }
}

/// Every card a refill draws comes from the catalog, so a well-formed
/// catalog only ever yields well-formed hands.
proof fn lemma_draw_seq_wf(catalog: Seq<Card>, cursor: int, n: nat)
    requires
        catalog.len() > 0,
        0 <= cursor < catalog.len(),
        forall|i: int| 0 <= i < catalog.len() ==> #[trigger] catalog[i].wf(),
    ensures
        ({
            let (drawn, cur) = spec_draw_seq(catalog, cursor, n);
            &&& drawn.len() == n
            &&& 0 <= cur < catalog.len()
            &&& forall|i: int| 0 <= i < drawn.len() ==> #[trigger] drawn[i].wf()
        }),
    decreases n,
{
    if n > 0 {
        lemma_draw_seq_wf(catalog, cursor, (n - 1) as nat);
    }
}

/// Law: within one move-end resolution the two win paths are mutually
/// exclusive and exactly one winner is reported. A destroyed tower
/// decides the game by itself; a maxed tower is consulted only when both
/// towers stand; and the resolution ends the game exactly when it reports
/// a winner.
pub proof fn lemma_exactly_one_winner(b: BoardView)
    requires
        b.wf(),
        !b.game_ended,
    ensures
        b.dead_winner() is Some ==> b.spec_move_end().winner == b.dead_winner(),
        b.dead_winner() is None ==> b.spec_move_end().winner == b.maxed_winner(),
        b.spec_move_end().game_ended <==> (b.dead_winner() is Some || b.maxed_winner() is Some),
        b.spec_move_end().game_ended <==> b.spec_move_end().winner is Some,
{
}

/// Law: a terminated game is frozen: no tick changes it, so the winner it
/// reported is the only one it ever reports.
pub proof fn lemma_winner_stable(b: BoardView, delta: u64)
    requires
        b.game_ended,
    ensures
        b.spec_update(delta) == b,
{
}

} // verus!
