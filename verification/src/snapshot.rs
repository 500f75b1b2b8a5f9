//! Persistence semantics: the serializable subset of the engine's state,
//! and what resuming from it means.
//!
//! A snapshot never carries the card catalog (nor anything of a
//! presentation layer): the caller re-supplies the already-parsed catalog
//! on load. Load never fails: a missing snapshot, a snapshot of a
//! finished game, and a snapshot that does not fit the engine's invariant
//! all fall back to a fresh game.

use vstd::prelude::*;
use crate::board::{spec_new_board, Board, BoardView};
use crate::card::Card;
use crate::consts::{CARDS_IN_DECK, MAX_PRODUCTION, MAX_TOWER_HP, MAX_WALLS_HP};
use crate::player::{Player, PlayerNumer, PlayerView};

verus! {

/// The serializable subset of the engine's state: everything but the
/// card catalog.
#[derive(Clone, Debug, PartialEq, Eq)]
pub struct Snapshot {
    pub first: Player,
    pub second: Player,
    pub active_player: PlayerNumer,
    pub time_before_next_move: u64,
    pub game_ended: bool,
    pub game_duration: u64,
    pub moves_made: i32,
    pub winner: Option<PlayerNumer>,
    pub next_draw: usize,
}

/// Mathematical image of a `Snapshot`.
#[verifier::ext_equal]
pub struct SnapshotView {
    pub first: PlayerView,
    pub second: PlayerView,
    pub active_player: PlayerNumer,
    pub time_before_next_move: u64,
    pub game_ended: bool,
    pub game_duration: u64,
    pub moves_made: i32,
    pub winner: Option<PlayerNumer>,
    pub next_draw: int,
}

impl View for Snapshot {
    type V = SnapshotView;

    open spec fn view(&self) -> SnapshotView {
        SnapshotView {
            first: self.first@,
            second: self.second@,
            active_player: self.active_player,
            time_before_next_move: self.time_before_next_move,
            game_ended: self.game_ended,
            game_duration: self.game_duration,
            moves_made: self.moves_made,
            winner: self.winner,
            next_draw: self.next_draw as int,
        }
    }
}

impl BoardView {
    /// What a save writes: the engine's observable fields, catalog left out.
    pub open spec fn spec_snapshot(self) -> SnapshotView {
        SnapshotView {
            first: self.first,
            second: self.second,
            active_player: self.active_player,
            time_before_next_move: self.time_before_next_move,
            game_ended: self.game_ended,
            game_duration: self.game_duration,
            moves_made: self.moves_made,
            winner: self.winner,
            next_draw: self.next_draw,
        }
    }
}

impl SnapshotView {
    /// The engine this snapshot stands for, over a re-supplied catalog.
    pub open spec fn spec_as_board(self, catalog: Seq<Card>) -> BoardView {
        BoardView {
            first: self.first,
            second: self.second,
            active_player: self.active_player,
            time_before_next_move: self.time_before_next_move,
            game_ended: self.game_ended,
            game_duration: self.game_duration,
            moves_made: self.moves_made,
            winner: self.winner,
            catalog,
            next_draw: self.next_draw,
        }
    }

    /// A snapshot is fit to resume from exactly when the engine it stands
    /// for satisfies the engine's invariant.
    pub open spec fn valid_for(self, catalog: Seq<Card>) -> bool {
        self.spec_as_board(catalog).wf()
    }
}

/// What loading yields: a fresh game when no snapshot exists, when the
/// snapshot is of a finished game (never resume a finished game), or when
/// it does not fit the engine's invariant; otherwise exactly the saved
/// state over the re-supplied catalog.
pub open spec fn spec_load(s: Option<SnapshotView>, catalog: Seq<Card>) -> BoardView {
    match s {
        Option::None => spec_new_board(catalog),
        Option::Some(sv) => if sv.game_ended || !sv.valid_for(catalog) {
            spec_new_board(catalog)
        } else {
            sv.spec_as_board(catalog)
        },
    }
}

/// The view of an optional snapshot.
pub open spec fn spec_snapshot_opt_view(s: Option<Snapshot>) -> Option<SnapshotView> {
    match s {
        Option::None => Option::None,
        Option::Some(snap) => Option::Some(snap@),
    }
}

/// An element-wise copy of a hand.
fn copy_cards(cards: &Vec<Card>) -> (r: Vec<Card>)
    ensures
        r@ == cards@,
{
    let mut out: Vec<Card> = Vec::new();
    let mut k: usize = 0;
    while k < cards.len()
        invariant
            k <= cards@.len(),
            out@ == cards@.take(k as int),
        decreases cards@.len() - k,
    {
        out.push(cards[k]);
        k += 1;
    }
    assert(out@ =~= cards@);
    out
}

/// A field-wise copy of a player.
fn copy_player(p: &Player) -> (r: Player)
    ensures
        r@ == p@,
{
    let r = Player {
        resources: p.resources,
        tower_hp: p.tower_hp,
        walls_hp: p.walls_hp,
        deck: copy_cards(&p.deck),
        is_human: p.is_human,
        is_active: p.is_active,
    };
    assert(r@ =~= p@);
    r
}

/// Whether a saved player fits the engine's invariant.
fn check_player(p: &Player) -> (r: bool)
    ensures
        r == p@.wf(),
{
    let bounds = 0 <= p.resources.tools.amount && 0 <= p.resources.tools.production
        && p.resources.tools.production <= MAX_PRODUCTION && 0 <= p.resources.magic.amount && 0
        <= p.resources.magic.production && p.resources.magic.production <= MAX_PRODUCTION && 0
        <= p.resources.soldiers.amount && 0 <= p.resources.soldiers.production
        && p.resources.soldiers.production <= MAX_PRODUCTION && 0 <= p.tower_hp && p.tower_hp
        <= MAX_TOWER_HP && 0 <= p.walls_hp && p.walls_hp <= MAX_WALLS_HP && p.deck.len()
        == CARDS_IN_DECK;
    if !bounds {
        return false;
    }
    let mut k: usize = 0;
    while k < p.deck.len()
        invariant
            k <= p.deck@.len(),
            forall|i: int| 0 <= i < k ==> #[trigger] p.deck@[i].wf(),
        decreases p.deck@.len() - k,
    {
        let c = p.deck[k];
        if !(0 <= c.cost_amount && 0 <= c.damage) {
            assert(!p@.deck[k as int].wf());
            return false;
        }
        k += 1;
    }
    true
}

impl Board {
    /// The snapshot of this engine's state, ready to be persisted by the
    /// host under its one application slot.
    pub fn save_board(&self) -> (s: Snapshot)
        ensures
            s@ == self@.spec_snapshot(),
    {
        let s = Snapshot {
            first: copy_player(&self.first),
            second: copy_player(&self.second),
            active_player: self.active_player,
            time_before_next_move: self.time_before_next_move,
            game_ended: self.game_ended,
            game_duration: self.game_duration,
            moves_made: self.moves_made,
            winner: self.winner,
            next_draw: self.next_draw,
        };
        assert(s@ =~~= self@.spec_snapshot());
        s
    }

    /// Resumes from a persisted snapshot, or starts a fresh game when
    /// there is none, when it records a finished game, or when it does
    /// not fit the engine's invariant.
    pub fn load_board(snapshot: Option<Snapshot>, catalog: Vec<Card>) -> (r: Board)
        requires
            catalog@.len() > 0,
            forall|i: int| 0 <= i < catalog@.len() ==> #[trigger] catalog@[i].wf(),
        ensures
            r@ == spec_load(spec_snapshot_opt_view(snapshot), catalog@),
            r.wf(),
    {
        match snapshot {
            Option::None => Board::new_board(catalog),
            Option::Some(s) => {
                let fits = !s.game_ended && check_player(&s.first) && check_player(&s.second)
                    && s.next_draw < catalog.len() && (match s.winner {
                    Option::Some(_) => false,
                    Option::None => true,
                }) && (match s.active_player {
                    PlayerNumer::First => !s.second.is_active,
                    PlayerNumer::Second => !s.first.is_active,
                });
                if !fits {
                    Board::new_board(catalog)
                } else {
                    let r = Board {
                        first: s.first,
                        second: s.second,
                        active_player: s.active_player,
                        time_before_next_move: s.time_before_next_move,
                        game_ended: s.game_ended,
                        game_duration: s.game_duration,
                        moves_made: s.moves_made,
                        winner: s.winner,
                        catalog,
                        next_draw: s.next_draw,
                    };
                    assert(r@ =~~= s@.spec_as_board(r.catalog@));
                    r
                }
            },
        }
    }
}

/// Law: saving and loading a non-ended game reproduces the engine
/// exactly. Over the same catalog, a snapshot of a well-formed, unended
/// board is fit to resume from, and resuming from it yields the very
/// board it was taken of.
pub proof fn lemma_save_load_round_trip(b: BoardView)
    requires
        b.wf(),
        !b.game_ended,
    ensures
        b.spec_snapshot().valid_for(b.catalog),
        spec_load(Option::Some(b.spec_snapshot()), b.catalog) == b,
{
    assert(b.spec_snapshot().spec_as_board(b.catalog) =~~= b);
}

} // verus!
