//! One side's full state, and the policy that picks a move for a
//! non-human player.

use vstd::prelude::*;
use crate::card::{clamp, clamp_i64, Card, Resource, Resources};
use crate::consts::{
    BASE_RESOURCE_AMOUNT, BASE_RESOURCE_PRODUCTION, BASE_TOWER_HP, BASE_WALLS_HP, CARDS_IN_DECK,
    MAX_TOWER_HP, MAX_WALLS_HP,
};

verus! {

/// The fixed two-valued identity of a player within a game.
#[derive(Clone, Copy, Debug, PartialEq, Eq, Structural)]
pub enum PlayerNumer {
    First,
    Second,
}

impl PlayerNumer {
    /// The identity of the opponent.
    pub open spec fn spec_other(self) -> PlayerNumer {
        match self {
            PlayerNumer::First => PlayerNumer::Second,
            PlayerNumer::Second => PlayerNumer::First,
        }
    }

    pub fn other(self) -> (r: PlayerNumer)
        ensures
            r == self.spec_other(),
    {
        match self {
            PlayerNumer::First => PlayerNumer::Second,
            PlayerNumer::Second => PlayerNumer::First,
        }
    }
}

/// One side of the game: resource pools, tower and wall heights, the hand
/// of cards, whether a human controls it, and whether it still has a move
/// to make this turn.
#[derive(Clone, Debug, PartialEq, Eq)]
pub struct Player {
    pub resources: Resources,
    pub tower_hp: i32,
    pub walls_hp: i32,
    pub deck: Vec<Card>,
    pub is_human: bool,
    pub is_active: bool,
}

/// Mathematical image of a `Player`: the hand as a sequence.
#[verifier::ext_equal]
pub struct PlayerView {
    pub resources: Resources,
    pub tower_hp: i32,
    pub walls_hp: i32,
    pub deck: Seq<Card>,
    pub is_human: bool,
    pub is_active: bool,
}

impl View for Player {
    type V = PlayerView;

    open spec fn view(&self) -> PlayerView {
        PlayerView {
            resources: self.resources,
            tower_hp: self.tower_hp,
            walls_hp: self.walls_hp,
            deck: self.deck@,
            is_human: self.is_human,
            is_active: self.is_active,
        }
    }
}

/// Greedy worth of a card: what it grows and deals, less what it costs.
pub open spec fn spec_card_score(c: Card) -> int {
    c.tower_growth + c.walls_growth + c.damage + c.production_change - c.cost_amount
}

/// Greedy worth of a card, as the move policy computes it.
pub fn card_score(c: &Card) -> (r: i64)
    ensures
        r == spec_card_score(*c),
{
    c.tower_growth as i64 + c.walls_growth as i64 + c.damage as i64 + c.production_change as i64
        - c.cost_amount as i64
}

impl PlayerView {
    /// Pools, tower and walls within bounds, a full hand of well-formed cards.
    pub open spec fn wf(self) -> bool {
        &&& self.resources.wf()
        &&& 0 <= self.tower_hp <= MAX_TOWER_HP
        &&& 0 <= self.walls_hp <= MAX_WALLS_HP
        &&& self.deck.len() == CARDS_IN_DECK
        &&& forall|i: int| 0 <= i < self.deck.len() ==> #[trigger] self.deck[i].wf()
    }

    pub open spec fn is_alive(self) -> bool {
        self.tower_hp > 0
    }

    pub open spec fn has_max_possible_tower(self) -> bool {
        self.tower_hp == MAX_TOWER_HP
    }

    /// The player as a fresh game leaves it: base pools, base tower and
    /// walls, the given hand.
    pub open spec fn spec_new(is_active: bool, is_human: bool, deck: Seq<Card>) -> PlayerView {
        PlayerView {
            resources: spec_base_resources(),
            tower_hp: BASE_TOWER_HP,
            walls_hp: BASE_WALLS_HP,
            deck,
            is_human,
            is_active,
        }
    }

    /// The player after paying for and benefiting from a card it used:
    /// cost subtracted, then production, tower and walls grown, each
    /// clamped to its range.
    pub open spec fn spec_after_use(self, c: Card) -> PlayerView {
        let paid = self.resources.spec_set(
            c.cost_resource,
            self.resources.spec_get(c.cost_resource).spec_changed_amount(-c.cost_amount as int),
        );
        let produced = paid.spec_set(
            c.production_resource,
            paid.spec_get(c.production_resource).spec_changed_production(c.production_change as int),
        );
        PlayerView {
            resources: produced,
            tower_hp: clamp(self.tower_hp + c.tower_growth, 0, MAX_TOWER_HP as int) as i32,
            walls_hp: clamp(self.walls_hp + c.walls_growth, 0, MAX_WALLS_HP as int) as i32,
            ..self
        }
    }

    /// The player after taking `amount` damage. Walls absorb damage up to
    /// their current height without being depleted; only the rest reaches
    /// the tower, unless the walls are ignored.
    pub open spec fn spec_after_damage(self, amount: int, ignore_walls: bool) -> PlayerView {
        let reaching = if ignore_walls {
            amount
        } else if amount > self.walls_hp {
            amount - self.walls_hp
        } else {
            0
        };
        PlayerView { tower_hp: clamp(self.tower_hp - reaching, 0, MAX_TOWER_HP as int) as i32, ..self }
    }

    /// The player at the start of its turn: every pool grows by its
    /// production, and it owes a move again.
    pub open spec fn spec_after_new_turn(self) -> PlayerView {
        PlayerView {
            resources: Resources {
                tools: self.resources.tools.spec_changed_amount(self.resources.tools.production as int),
                magic: self.resources.magic.spec_changed_amount(self.resources.magic.production as int),
                soldiers: self.resources.soldiers.spec_changed_amount(
                    self.resources.soldiers.production as int,
                ),
            },
            is_active: true,
            ..self
        }
    }

    /// The player after one hand slot is refilled; replacing a card is a
    /// move, so the player no longer owes one this turn.
    pub open spec fn spec_with_replaced(self, index: int, c: Card) -> PlayerView {
        PlayerView { deck: self.deck.update(index, c), is_active: false, ..self }
    }

    /// Whether the card in slot `i` can be paid for.
    pub open spec fn affordable(self, i: int) -> bool {
        self.deck[i].spec_can_aford(self.resources)
    }

    /// Among the first `n` slots, the affordable one with the highest
    /// score, earliest slot on ties; `-1` when none is affordable.
    pub open spec fn best_use_up_to(self, n: int) -> int
        decreases n,
    {
        if n <= 0 {
            -1
        } else {
            let prev = self.best_use_up_to(n - 1);
            if self.affordable(n - 1) && (prev == -1 || spec_card_score(self.deck[n - 1])
                > spec_card_score(self.deck[prev])) {
                n - 1
            } else {
                prev
            }
        }
    }

    /// Among the first `n` slots, the one with the lowest score, earliest
    /// slot on ties: the least useful card, offered up for a discard.
    pub open spec fn worst_slot_up_to(self, n: int) -> int
        decreases n,
    {
        if n <= 1 {
            0
        } else {
            let prev = self.worst_slot_up_to(n - 1);
            if spec_card_score(self.deck[n - 1]) < spec_card_score(self.deck[prev]) {
                n - 1
            } else {
                prev
            }
        }
    }

    /// The move the policy picks: use the best affordable card, or, when
    /// none is affordable, discard the least useful one.
    pub open spec fn spec_possible_move(self) -> (int, bool) {
        let best = self.best_use_up_to(self.deck.len() as int);
        if best >= 0 {
            (best, false)
        } else {
            (self.worst_slot_up_to(self.deck.len() as int), true)
        }
    }
}

/// Every pool as a fresh game fills it.
pub open spec fn spec_base_resources() -> Resources {
    Resources {
        tools: Resource { amount: BASE_RESOURCE_AMOUNT, production: BASE_RESOURCE_PRODUCTION },
        magic: Resource { amount: BASE_RESOURCE_AMOUNT, production: BASE_RESOURCE_PRODUCTION },
        soldiers: Resource { amount: BASE_RESOURCE_AMOUNT, production: BASE_RESOURCE_PRODUCTION },
    }
}

impl Player {
    pub open spec fn wf(self) -> bool {
        self@.wf()
    }

    /// A fresh player with base pools, base tower and walls, and the
    /// given hand.
    pub fn new(is_active: bool, is_human: bool, deck: Vec<Card>) -> (r: Player)
        requires
            deck@.len() == CARDS_IN_DECK,
            forall|i: int| 0 <= i < deck@.len() ==> #[trigger] deck@[i].wf(),
        ensures
            r@ == PlayerView::spec_new(is_active, is_human, deck@),
            r.wf(),
    {
        Player {
            resources: Resources {
                tools: Resource { amount: BASE_RESOURCE_AMOUNT, production: BASE_RESOURCE_PRODUCTION },
                magic: Resource { amount: BASE_RESOURCE_AMOUNT, production: BASE_RESOURCE_PRODUCTION },
                soldiers: Resource {
                    amount: BASE_RESOURCE_AMOUNT,
                    production: BASE_RESOURCE_PRODUCTION,
                },
            },
            tower_hp: BASE_TOWER_HP,
            walls_hp: BASE_WALLS_HP,
            deck,
            is_human,
            is_active,
        }
    }

    /// Applies a resolved card to this player: the full effects when this
    /// player used it, or its damage when the opponent did.
    pub fn card_used(&mut self, card: &Card, is_user: bool)
        requires
            card.wf(),
            old(self).wf(),
        ensures
            final(self)@ == if is_user {
                old(self)@.spec_after_use(*card)
            } else {
                old(self)@.spec_after_damage(card.damage as int, false)
            },
            final(self).wf(),
    {
        if is_user {
            self.resources.change_amount(card.cost_resource, -card.cost_amount);
            self.resources.change_production(card.production_resource, card.production_change);
            self.make_tower_higher(card.tower_growth);
            self.make_walls_higher(card.walls_growth);
            assert(final(self)@ =~= old(self)@.spec_after_use(*card));
        } else {
            self.give_damage(card.damage, false);
        }
    }

    /// Grows (or, for a negative `delta`, shrinks) the tower, clamped to
    /// its range.
    pub fn make_tower_higher(&mut self, delta: i32)
        ensures
            *final(self) == (Player {
                tower_hp: clamp(old(self).tower_hp + delta, 0, MAX_TOWER_HP as int) as i32,
                ..*old(self)
            }),
    {
        self.tower_hp = clamp_i64(self.tower_hp as i64 + delta as i64, 0, MAX_TOWER_HP);
    }

    /// Grows (or shrinks) the walls, clamped to their range.
    pub fn make_walls_higher(&mut self, delta: i32)
        ensures
            *final(self) == (Player {
                walls_hp: clamp(old(self).walls_hp + delta, 0, MAX_WALLS_HP as int) as i32,
                ..*old(self)
            }),
    {
        self.walls_hp = clamp_i64(self.walls_hp as i64 + delta as i64, 0, MAX_WALLS_HP);
    }

    /// Deals `amount` damage to this player's tower; walls absorb their
    /// height's worth of it first unless ignored.
    pub fn give_damage(&mut self, amount: i32, ignore_walls: bool)
        requires
            amount >= 0,
        ensures
            final(self)@ == old(self)@.spec_after_damage(amount as int, ignore_walls),
    {
        let reaching: i64 = if ignore_walls {
            amount as i64
        } else if amount as i64 > self.walls_hp as i64 {
            amount as i64 - self.walls_hp as i64
        } else {
            0
        };
        self.tower_hp = clamp_i64(self.tower_hp as i64 - reaching, 0, MAX_TOWER_HP);
        assert(final(self)@ =~= old(self)@.spec_after_damage(amount as int, ignore_walls));
    }

    /// Starts this player's turn: every pool grows by its production and
    /// the player owes a move.
    pub fn start_new_turn(&mut self)
        ensures
            final(self)@ == old(self)@.spec_after_new_turn(),
    {
        let tools_production = self.resources.tools.production;
        let magic_production = self.resources.magic.production;
        let soldiers_production = self.resources.soldiers.production;
        self.resources.tools.change_amount(tools_production);
        self.resources.magic.change_amount(magic_production);
        self.resources.soldiers.change_amount(soldiers_production);
        self.is_active = true;
        assert(final(self)@ =~= old(self)@.spec_after_new_turn());
    }

    /// Refills one hand slot with `c`; this counts as the player's move
    /// for the turn.
    pub fn replace_card(&mut self, index: usize, c: Card)
        requires
            index < old(self).deck@.len(),
        ensures
            final(self)@ == old(self)@.spec_with_replaced(index as int, c),
    {
        self.deck[index] = c;
        self.is_active = false;
        assert(final(self)@ =~= old(self)@.spec_with_replaced(index as int, c));
    }

    /// Picks a move for a non-human player: the affordable card with the
    /// highest greedy score (earliest slot on ties), or, when nothing is
    /// affordable, a discard of the lowest-scoring slot. Deterministic in
    /// the player's state.
    pub fn get_possible_move(&self) -> (r: (i32, bool))
        requires
            self.wf(),
        ensures
            (r.0 as int, r.1) == self@.spec_possible_move(),
            0 <= r.0 < CARDS_IN_DECK,
    {
        let mut worst: usize = 0;
        let mut best: i64 = -1;
        let mut k: usize = 1;
        while k < CARDS_IN_DECK
            invariant
                self.wf(),
                1 <= k <= CARDS_IN_DECK,
                worst as int == self@.worst_slot_up_to(k as int),
                worst < k,
            decreases CARDS_IN_DECK - k,
        {
            if card_score(&self.deck[k]) < card_score(&self.deck[worst]) {
                worst = k;
            }
            k += 1;
        }
        let mut k: usize = 0;
        while k < CARDS_IN_DECK
            invariant
                self.wf(),
                0 <= k <= CARDS_IN_DECK,
                best as int == self@.best_use_up_to(k as int),
                -1 <= best < k as i64,
            decreases CARDS_IN_DECK - k,
        {
            let card = self.deck[k];
            if card.can_aford(&self.resources) && (best < 0 || card_score(&card) > card_score(
                &self.deck[best as usize],
            )) {
                best = k as i64;
            }
            k += 1;
        }
        if best >= 0 {
            (best as i32, false)
        } else {
            (worst as i32, true)
        }
    }
}

/// Law: the policy's choice is sound and greedy-optimal. A discard is
/// offered exactly when no card is affordable; a chosen use is of an
/// affordable card no affordable card out-scores, and no earlier
/// affordable slot ties it; a chosen discard is of a slot no slot
/// under-scores, and no earlier slot ties it.
pub proof fn lemma_possible_move_optimal(p: PlayerView)
    requires
        p.wf(),
    ensures
        ({
            let (i, discard) = p.spec_possible_move();
            &&& 0 <= i < p.deck.len()
            &&& (discard <==> forall|j: int| 0 <= j < p.deck.len() ==> !p.affordable(j))
            &&& (!discard ==> p.affordable(i) && (forall|j: int|
                0 <= j < p.deck.len() && p.affordable(j) ==> spec_card_score(#[trigger] p.deck[j])
                    <= spec_card_score(p.deck[i])) && (forall|j: int|
                0 <= j < i && p.affordable(j) ==> spec_card_score(#[trigger] p.deck[j])
                    < spec_card_score(p.deck[i])))
            &&& (discard ==> (forall|j: int|
                0 <= j < p.deck.len() ==> spec_card_score(p.deck[i]) <= spec_card_score(
                    #[trigger] p.deck[j],
                )) && (forall|j: int|
                0 <= j < i ==> spec_card_score(p.deck[i]) < spec_card_score(#[trigger] p.deck[j])))
        }),
{
    lemma_best_use_props(p, p.deck.len() as int);
    lemma_worst_slot_props(p, p.deck.len() as int);
}

/// Induction step behind `lemma_possible_move_optimal`: what the best
/// affordable slot of a prefix satisfies.
proof fn lemma_best_use_props(p: PlayerView, n: int)
    requires
        0 <= n <= p.deck.len(),
    ensures
        p.best_use_up_to(n) == -1 ==> forall|j: int| 0 <= j < n ==> !p.affordable(j),
        p.best_use_up_to(n) != -1 ==> {
            let i = p.best_use_up_to(n);
            &&& 0 <= i < n
            &&& p.affordable(i)
            &&& forall|j: int|
                0 <= j < n && p.affordable(j) ==> spec_card_score(#[trigger] p.deck[j])
                    <= spec_card_score(p.deck[i])
            &&& forall|j: int|
                0 <= j < i && p.affordable(j) ==> spec_card_score(#[trigger] p.deck[j])
                    < spec_card_score(p.deck[i])
        },
    decreases n,
{
    if n > 0 {
        lemma_best_use_props(p, n - 1);
    }
}

/// Induction step behind `lemma_possible_move_optimal`: what the
/// lowest-scoring slot of a prefix satisfies.
proof fn lemma_worst_slot_props(p: PlayerView, n: int)
    requires
        1 <= n <= p.deck.len(),
    ensures
        ({
            let i = p.worst_slot_up_to(n);
            &&& 0 <= i < n
            &&& forall|j: int|
                0 <= j < n ==> spec_card_score(p.deck[i]) <= spec_card_score(#[trigger] p.deck[j])
            &&& forall|j: int|
                0 <= j < i ==> spec_card_score(p.deck[i]) < spec_card_score(#[trigger] p.deck[j])
        }),
    decreases n,
{
    if n > 1 {
        lemma_worst_slot_props(p, n - 1);
    }
}

} // verus!
