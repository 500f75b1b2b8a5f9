//! Wire form of a snapshot: a fixed-length sequence of 64-bit words.
//!
//! Every field is packed into one word — signed values offset into the
//! unsigned range, enumerations as small tags — so the host only has to
//! write words out and read them back, with no knowledge of the layout.
//! Decoding validates every word and fails (`None`) on anything a real
//! encoder could not have produced; `lemma_words_round_trip` proves that
//! decoding undoes encoding exactly.

use vstd::prelude::*;
use crate::board::Board;
use crate::card::{Card, Resource, ResourceKind, Resources};
use crate::player::{Player, PlayerNumer, PlayerView};
use crate::snapshot::{
    lemma_save_load_round_trip, spec_load, spec_snapshot_opt_view, Snapshot, SnapshotView,
};

verus! {

/// Words of a whole packed snapshot: fifty for each player — six pool
/// words, tower, walls, five eight-word cards, two flags — and seven
/// engine words.
pub const SNAPSHOT_WORDS: usize = 107;

/// A signed 32-bit value, shifted into `[0, 2^32)`.
pub open spec fn word_of_i32(x: i32) -> u64 {
    (x + 0x8000_0000) as u64
}

pub open spec fn is_i32_word(w: u64) -> bool {
    w <= 0xFFFF_FFFF
}

pub open spec fn i32_of_word(w: u64) -> i32 {
    (w - 0x8000_0000) as i32
}

pub open spec fn word_of_bool(b: bool) -> u64 {
    if b {
        1
    } else {
        0
    }
}

pub open spec fn is_bool_word(w: u64) -> bool {
    w <= 1
}

pub open spec fn bool_of_word(w: u64) -> bool {
    w == 1
}

pub open spec fn word_of_kind(k: ResourceKind) -> u64 {
    match k {
        ResourceKind::Tools => 0,
        ResourceKind::Magic => 1,
        ResourceKind::Soldiers => 2,
    }
}

pub open spec fn is_kind_word(w: u64) -> bool {
    w <= 2
}

pub open spec fn kind_of_word(w: u64) -> ResourceKind {
    if w == 0 {
        ResourceKind::Tools
    } else if w == 1 {
        ResourceKind::Magic
    } else {
        ResourceKind::Soldiers
    }
}

pub open spec fn word_of_numer(n: PlayerNumer) -> u64 {
    match n {
        PlayerNumer::First => 0,
        PlayerNumer::Second => 1,
    }
}

pub open spec fn numer_of_word(w: u64) -> PlayerNumer {
    if w == 0 {
        PlayerNumer::First
    } else {
        PlayerNumer::Second
    }
}

pub open spec fn word_of_winner(w: Option<PlayerNumer>) -> u64 {
    match w {
        Option::None => 0,
        Option::Some(PlayerNumer::First) => 1,
        Option::Some(PlayerNumer::Second) => 2,
    }
}

pub open spec fn is_winner_word(w: u64) -> bool {
    w <= 2
}

pub open spec fn winner_of_word(w: u64) -> Option<PlayerNumer> {
    if w == 0 {
        Option::None
    } else if w == 1 {
        Option::Some(PlayerNumer::First)
    } else {
        Option::Some(PlayerNumer::Second)
    }
}

/// The eight words of one card.
pub open spec fn spec_card_words(c: Card) -> Seq<u64> {
    seq![
        c.id as u64,
        word_of_kind(c.cost_resource),
        word_of_i32(c.cost_amount),
        word_of_kind(c.production_resource),
        word_of_i32(c.production_change),
        word_of_i32(c.tower_growth),
        word_of_i32(c.walls_growth),
        word_of_i32(c.damage),
    ]
}

/// Whether the eight words at `at` are a card a real encoder could have
/// written.
pub open spec fn spec_card_valid(ws: Seq<u64>, at: int) -> bool {
    &&& ws[at] <= 0xFFFF_FFFF
    &&& is_kind_word(ws[at + 1])
    &&& is_i32_word(ws[at + 2])
    &&& is_kind_word(ws[at + 3])
    &&& is_i32_word(ws[at + 4])
    &&& is_i32_word(ws[at + 5])
    &&& is_i32_word(ws[at + 6])
    &&& is_i32_word(ws[at + 7])
}

/// The card the eight words at `at` stand for.
pub open spec fn spec_card_val(ws: Seq<u64>, at: int) -> Card {
    Card {
        id: ws[at] as u32,
        cost_resource: kind_of_word(ws[at + 1]),
        cost_amount: i32_of_word(ws[at + 2]),
        production_resource: kind_of_word(ws[at + 3]),
        production_change: i32_of_word(ws[at + 4]),
        tower_growth: i32_of_word(ws[at + 5]),
        walls_growth: i32_of_word(ws[at + 6]),
        damage: i32_of_word(ws[at + 7]),
    }
}

/// The fifty words of one player with a full five-card hand.
pub open spec fn spec_player_words(p: PlayerView) -> Seq<u64> {
    seq![
        word_of_i32(p.resources.tools.amount),
        word_of_i32(p.resources.tools.production),
        word_of_i32(p.resources.magic.amount),
        word_of_i32(p.resources.magic.production),
        word_of_i32(p.resources.soldiers.amount),
        word_of_i32(p.resources.soldiers.production),
        word_of_i32(p.tower_hp),
        word_of_i32(p.walls_hp),
    ] + spec_card_words(p.deck[0]) + spec_card_words(p.deck[1]) + spec_card_words(p.deck[2])
        + spec_card_words(p.deck[3]) + spec_card_words(p.deck[4]) + seq![
        word_of_bool(p.is_human),
        word_of_bool(p.is_active),
    ]
}

/// Whether the fifty words at `at` are a player a real encoder could
/// have written.
pub open spec fn spec_player_valid(ws: Seq<u64>, at: int) -> bool {
    &&& is_i32_word(ws[at])
    &&& is_i32_word(ws[at + 1])
    &&& is_i32_word(ws[at + 2])
    &&& is_i32_word(ws[at + 3])
    &&& is_i32_word(ws[at + 4])
    &&& is_i32_word(ws[at + 5])
    &&& is_i32_word(ws[at + 6])
    &&& is_i32_word(ws[at + 7])
    &&& spec_card_valid(ws, at + 8)
    &&& spec_card_valid(ws, at + 16)
    &&& spec_card_valid(ws, at + 24)
    &&& spec_card_valid(ws, at + 32)
    &&& spec_card_valid(ws, at + 40)
    &&& is_bool_word(ws[at + 48])
    &&& is_bool_word(ws[at + 49])
}

/// The player the fifty words at `at` stand for.
pub open spec fn spec_player_val(ws: Seq<u64>, at: int) -> PlayerView {
    PlayerView {
        resources: Resources {
            tools: Resource {
                amount: i32_of_word(ws[at]),
                production: i32_of_word(ws[at + 1]),
            },
            magic: Resource {
                amount: i32_of_word(ws[at + 2]),
                production: i32_of_word(ws[at + 3]),
            },
            soldiers: Resource {
                amount: i32_of_word(ws[at + 4]),
                production: i32_of_word(ws[at + 5]),
            },
        },
        tower_hp: i32_of_word(ws[at + 6]),
        walls_hp: i32_of_word(ws[at + 7]),
        deck: seq![
            spec_card_val(ws, at + 8),
            spec_card_val(ws, at + 16),
            spec_card_val(ws, at + 24),
            spec_card_val(ws, at + 32),
            spec_card_val(ws, at + 40),
        ],
        is_human: bool_of_word(ws[at + 48]),
        is_active: bool_of_word(ws[at + 49]),
    }
}

/// The whole wire form of a snapshot.
pub open spec fn spec_snapshot_words(s: SnapshotView) -> Seq<u64> {
    spec_player_words(s.first) + spec_player_words(s.second) + seq![
        word_of_numer(s.active_player),
        s.time_before_next_move,
        word_of_bool(s.game_ended),
        s.game_duration,
        word_of_i32(s.moves_made),
        word_of_winner(s.winner),
        s.next_draw as u64,
    ]
}

/// What decoding a word sequence yields: the snapshot it stands for, or
/// nothing when any word is one a real encoder could not have written.
pub open spec fn spec_decode_words(ws: Seq<u64>) -> Option<SnapshotView> {
    if ws.len() == SNAPSHOT_WORDS && spec_player_valid(ws, 0) && spec_player_valid(ws, 50)
        && is_bool_word(ws[100]) && is_bool_word(ws[102]) && is_i32_word(ws[104]) && is_winner_word(
        ws[105],
    ) && ws[106] <= usize::MAX as u64 {
        Option::Some(
            SnapshotView {
                first: spec_player_val(ws, 0),
                second: spec_player_val(ws, 50),
                active_player: numer_of_word(ws[100]),
                time_before_next_move: ws[101],
                game_ended: bool_of_word(ws[102]),
                game_duration: ws[103],
                moves_made: i32_of_word(ws[104]),
                winner: winner_of_word(ws[105]),
                next_draw: ws[106] as int,
            },
        )
    } else {
        Option::None
    }
}

/// Packs a signed value.
fn i32_word(x: i32) -> (w: u64)
    ensures
        w == word_of_i32(x),
        is_i32_word(w),
{
    (x as i64 + 0x8000_0000i64) as u64
}

/// Unpacks a signed value; fails on a word outside its range.
fn word_i32(w: u64) -> (r: Option<i32>)
    ensures
        is_i32_word(w) ==> r == Option::Some(i32_of_word(w)),
        !is_i32_word(w) ==> r is None,
{
    if w <= 0xFFFF_FFFF {
        Some((w as i64 - 0x8000_0000i64) as i32)
    } else {
        None
    }
}

fn kind_word(k: ResourceKind) -> (w: u64)
    ensures
        w == word_of_kind(k),
{
    match k {
        ResourceKind::Tools => 0,
        ResourceKind::Magic => 1,
        ResourceKind::Soldiers => 2,
    }
}

fn word_kind(w: u64) -> (r: Option<ResourceKind>)
    ensures
        is_kind_word(w) ==> r == Option::Some(kind_of_word(w)),
        !is_kind_word(w) ==> r is None,
{
    if w == 0 {
        Some(ResourceKind::Tools)
    } else if w == 1 {
        Some(ResourceKind::Magic)
    } else if w == 2 {
        Some(ResourceKind::Soldiers)
    } else {
        None
    }
}

fn word_bool(w: u64) -> (r: Option<bool>)
    ensures
        is_bool_word(w) ==> r == Option::Some(bool_of_word(w)),
        !is_bool_word(w) ==> r is None,
{
    if w == 0 {
        Some(false)
    } else if w == 1 {
        Some(true)
    } else {
        None
    }
}

/// Appends the eight words of one card.
fn push_card_words(out: &mut Vec<u64>, c: &Card)
    ensures
        final(out)@ == old(out)@ + spec_card_words(*c),
{
    out.push(c.id as u64);
    out.push(kind_word(c.cost_resource));
    out.push(i32_word(c.cost_amount));
    out.push(kind_word(c.production_resource));
    out.push(i32_word(c.production_change));
    out.push(i32_word(c.tower_growth));
    out.push(i32_word(c.walls_growth));
    out.push(i32_word(c.damage));
    assert(out@ =~= old(out)@ + spec_card_words(*c));
}

/// Appends the fifty words of one player.
#[verifier::rlimit(60)]
fn push_player_words(out: &mut Vec<u64>, p: &Player)
    requires
        p.deck@.len() == 5,
    ensures
        final(out)@ == old(out)@ + spec_player_words(p@),
{
    out.push(i32_word(p.resources.tools.amount));
    out.push(i32_word(p.resources.tools.production));
    out.push(i32_word(p.resources.magic.amount));
    out.push(i32_word(p.resources.magic.production));
    out.push(i32_word(p.resources.soldiers.amount));
    out.push(i32_word(p.resources.soldiers.production));
    out.push(i32_word(p.tower_hp));
    out.push(i32_word(p.walls_hp));
    push_card_words(out, &p.deck[0]);
    push_card_words(out, &p.deck[1]);
    push_card_words(out, &p.deck[2]);
    push_card_words(out, &p.deck[3]);
    push_card_words(out, &p.deck[4]);
    out.push(if p.is_human { 1 } else { 0 });
    out.push(if p.is_active { 1 } else { 0 });
    assert(out@ =~= old(out)@ + spec_player_words(p@));
}

/// The wire form of a snapshot: `SNAPSHOT_WORDS` words the host can
/// persist without knowing the layout.
pub fn encode_snapshot(s: &Snapshot) -> (r: Vec<u64>)
    requires
        s.first.deck@.len() == 5,
        s.second.deck@.len() == 5,
    ensures
        r@ == spec_snapshot_words(s@),
        r@.len() == SNAPSHOT_WORDS,
{
    let mut out: Vec<u64> = Vec::new();
    push_player_words(&mut out, &s.first);
    push_player_words(&mut out, &s.second);
    out.push(match s.active_player {
        PlayerNumer::First => 0,
        PlayerNumer::Second => 1,
    });
    out.push(s.time_before_next_move);
    out.push(if s.game_ended { 1 } else { 0 });
    out.push(s.game_duration);
    out.push(i32_word(s.moves_made));
    out.push(match s.winner {
        Option::None => 0,
        Option::Some(PlayerNumer::First) => 1,
        Option::Some(PlayerNumer::Second) => 2,
    });
    out.push(s.next_draw as u64);
    assert(out@ =~= spec_snapshot_words(s@));
    out
}

/// Reads the eight words of one card at `at`.
fn read_card_words(ws: &Vec<u64>, at: usize) -> (r: Option<Card>)
    requires
        at + 8 <= ws@.len(),
    ensures
        spec_card_valid(ws@, at as int) ==> r == Option::Some(spec_card_val(ws@, at as int)),
        !spec_card_valid(ws@, at as int) ==> r is None,
{
    let n = ws.len();
    assert(at + 8 <= n);
    if ws[at] > 0xFFFF_FFFF {
        return None;
    }
    let id = ws[at] as u32;
    let cost_resource = match word_kind(ws[at + 1]) {
        Some(k) => k,
        None => {
            return None;
        },
    };
    let cost_amount = match word_i32(ws[at + 2]) {
        Some(x) => x,
        None => {
            return None;
        },
    };
    let production_resource = match word_kind(ws[at + 3]) {
        Some(k) => k,
        None => {
            return None;
        },
    };
    let production_change = match word_i32(ws[at + 4]) {
        Some(x) => x,
        None => {
            return None;
        },
    };
    let tower_growth = match word_i32(ws[at + 5]) {
        Some(x) => x,
        None => {
            return None;
        },
    };
    let walls_growth = match word_i32(ws[at + 6]) {
        Some(x) => x,
        None => {
            return None;
        },
    };
    let damage = match word_i32(ws[at + 7]) {
        Some(x) => x,
        None => {
            return None;
        },
    };
    Some(
        Card {
            id,
            cost_resource,
            cost_amount,
            production_resource,
            production_change,
            tower_growth,
            walls_growth,
            damage,
        },
    )
}

/// Reads the fifty words of one player at `at`.
fn read_player_words(ws: &Vec<u64>, at: usize) -> (r: Option<Player>)
    requires
        at + 50 <= ws@.len(),
    ensures
        spec_player_valid(ws@, at as int) ==> (r matches Option::Some(p) && p@ == spec_player_val(
            ws@,
            at as int,
        )),
        !spec_player_valid(ws@, at as int) ==> r is None,
{
    let n = ws.len();
    assert(at + 50 <= n);
    let mut pools: Vec<i32> = Vec::new();
    let mut k: usize = 0;
    while k < 8
        invariant
            at + 50 <= ws@.len(),
            ws@.len() <= usize::MAX,
            k <= 8,
            pools@.len() == k,
            forall|i: int| 0 <= i < k ==> is_i32_word(#[trigger] ws@[at + i]),
            forall|i: int| 0 <= i < k ==> #[trigger] pools@[i] == i32_of_word(ws@[at + i]),
        decreases 8 - k,
    {
        match word_i32(ws[at + k]) {
            Some(x) => pools.push(x),
            None => {
                return None;
            },
        }
        k += 1;
    }
    let mut deck: Vec<Card> = Vec::new();
    let mut k: usize = 0;
    while k < 5
        invariant
            at + 50 <= ws@.len(),
            ws@.len() <= usize::MAX,
            k <= 5,
            deck@.len() == k,
            forall|i: int| 0 <= i < k ==> #[trigger] spec_card_valid(ws@, at + 8 + 8 * i),
            forall|i: int| 0 <= i < k ==> #[trigger] deck@[i] == spec_card_val(ws@, at + 8 + 8 * i),
        decreases 5 - k,
    {
        match read_card_words(ws, at + 8 + 8 * k) {
            Some(c) => deck.push(c),
            None => {
                return None;
            },
        }
        k += 1;
    }
    let is_human = match word_bool(ws[at + 48]) {
        Some(b) => b,
        None => {
            return None;
        },
    };
    let is_active = match word_bool(ws[at + 49]) {
        Some(b) => b,
        None => {
            return None;
        },
    };
    let p = Player {
        resources: Resources {
            tools: Resource { amount: pools[0], production: pools[1] },
            magic: Resource { amount: pools[2], production: pools[3] },
            soldiers: Resource { amount: pools[4], production: pools[5] },
        },
        tower_hp: pools[6],
        walls_hp: pools[7],
        deck,
        is_human,
        is_active,
    };
    assert(p@ =~= spec_player_val(ws@, at as int));
    Some(p)
}

/// Decodes a persisted word sequence back into a snapshot; yields `None`
/// on any sequence a real encoder could not have produced.
pub fn decode_snapshot(ws: &Vec<u64>) -> (r: Option<Snapshot>)
    ensures
        spec_snapshot_opt_view(r) == spec_decode_words(ws@),
{
    if ws.len() != SNAPSHOT_WORDS {
        return None;
    }
    let first = match read_player_words(ws, 0) {
        Some(p) => p,
        None => {
            return None;
        },
    };
    let second = match read_player_words(ws, 50) {
        Some(p) => p,
        None => {
            return None;
        },
    };
    let active_player = if ws[100] == 0 {
        PlayerNumer::First
    } else if ws[100] == 1 {
        PlayerNumer::Second
    } else {
        return None;
    };
    let time_before_next_move = ws[101];
    let game_ended = match word_bool(ws[102]) {
        Some(b) => b,
        None => {
            return None;
        },
    };
    let game_duration = ws[103];
    let moves_made = match word_i32(ws[104]) {
        Some(x) => x,
        None => {
            return None;
        },
    };
    let winner = if ws[105] == 0 {
        None
    } else if ws[105] == 1 {
        Some(PlayerNumer::First)
    } else if ws[105] == 2 {
        Some(PlayerNumer::Second)
    } else {
        return None;
    };
    if ws[106] > usize::MAX as u64 {
        return None;
    }
    let next_draw = ws[106] as usize;
    let s = Snapshot {
        first,
        second,
        active_player,
        time_before_next_move,
        game_ended,
        game_duration,
        moves_made,
        winner,
        next_draw,
    };
    assert(s@ =~~= spec_decode_words(ws@)->Some_0);
    Some(s)
}

/// Step behind the round-trip law: the eight words of a card decode to
/// that card.
proof fn lemma_card_words_round_trip(c: Card, ws: Seq<u64>, at: int)
    requires
        0 <= at,
        at + 8 <= ws.len(),
        ws[at + 0] == spec_card_words(c)[0],
        ws[at + 1] == spec_card_words(c)[1],
        ws[at + 2] == spec_card_words(c)[2],
        ws[at + 3] == spec_card_words(c)[3],
        ws[at + 4] == spec_card_words(c)[4],
        ws[at + 5] == spec_card_words(c)[5],
        ws[at + 6] == spec_card_words(c)[6],
        ws[at + 7] == spec_card_words(c)[7],
    ensures
        spec_card_valid(ws, at),
        spec_card_val(ws, at) == c,
{
}

/// Step behind the round-trip law: the fifty words of a player decode to
/// that player.
#[verifier::rlimit(60)]
proof fn lemma_player_words_round_trip(p: PlayerView, ws: Seq<u64>, at: int)
    requires
        p.deck.len() == 5,
        0 <= at,
        at + 50 <= ws.len(),
        forall|i: int| 0 <= i < 50 ==> ws[at + i] == spec_player_words(p)[i],
    ensures
        spec_player_valid(ws, at),
        spec_player_val(ws, at) == p,
{
    let pw = spec_player_words(p);
    assert(ws[at + 0] == pw[0]);
    assert(ws[at + 1] == pw[1]);
    assert(ws[at + 2] == pw[2]);
    assert(ws[at + 3] == pw[3]);
    assert(ws[at + 4] == pw[4]);
    assert(ws[at + 5] == pw[5]);
    assert(ws[at + 6] == pw[6]);
    assert(ws[at + 7] == pw[7]);
    assert(ws[at + 48] == pw[48]);
    assert(ws[at + 49] == pw[49]);
    assert(ws[at + 8] == pw[8]);
    assert(ws[at + 9] == pw[9]);
    assert(ws[at + 10] == pw[10]);
    assert(ws[at + 11] == pw[11]);
    assert(ws[at + 12] == pw[12]);
    assert(ws[at + 13] == pw[13]);
    assert(ws[at + 14] == pw[14]);
    assert(ws[at + 15] == pw[15]);
    assert(ws[at + 16] == pw[16]);
    assert(ws[at + 17] == pw[17]);
    assert(ws[at + 18] == pw[18]);
    assert(ws[at + 19] == pw[19]);
    assert(ws[at + 20] == pw[20]);
    assert(ws[at + 21] == pw[21]);
    assert(ws[at + 22] == pw[22]);
    assert(ws[at + 23] == pw[23]);
    assert(ws[at + 24] == pw[24]);
    assert(ws[at + 25] == pw[25]);
    assert(ws[at + 26] == pw[26]);
    assert(ws[at + 27] == pw[27]);
    assert(ws[at + 28] == pw[28]);
    assert(ws[at + 29] == pw[29]);
    assert(ws[at + 30] == pw[30]);
    assert(ws[at + 31] == pw[31]);
    assert(ws[at + 32] == pw[32]);
    assert(ws[at + 33] == pw[33]);
    assert(ws[at + 34] == pw[34]);
    assert(ws[at + 35] == pw[35]);
    assert(ws[at + 36] == pw[36]);
    assert(ws[at + 37] == pw[37]);
    assert(ws[at + 38] == pw[38]);
    assert(ws[at + 39] == pw[39]);
    assert(ws[at + 40] == pw[40]);
    assert(ws[at + 41] == pw[41]);
    assert(ws[at + 42] == pw[42]);
    assert(ws[at + 43] == pw[43]);
    assert(ws[at + 44] == pw[44]);
    assert(ws[at + 45] == pw[45]);
    assert(ws[at + 46] == pw[46]);
    assert(ws[at + 47] == pw[47]);
    lemma_card_words_round_trip(p.deck[0], ws, at + 8);
    lemma_card_words_round_trip(p.deck[1], ws, at + 16);
    lemma_card_words_round_trip(p.deck[2], ws, at + 24);
    lemma_card_words_round_trip(p.deck[3], ws, at + 32);
    lemma_card_words_round_trip(p.deck[4], ws, at + 40);
    assert(spec_player_val(ws, at).deck =~= p.deck);
    assert(spec_player_val(ws, at) =~= p);
}

/// Law: decoding undoes encoding exactly. The wire form of any snapshot
/// with full hands is valid, and decoding it yields that snapshot back.
#[verifier::rlimit(100)]
#[verifier::spinoff_prover]
pub proof fn lemma_words_round_trip(s: SnapshotView)
    requires
        s.first.deck.len() == 5,
        s.second.deck.len() == 5,
        0 <= s.next_draw <= usize::MAX,
    ensures
        spec_decode_words(spec_snapshot_words(s)) == Option::Some(s),
{
    let ws = spec_snapshot_words(s);
    assert(ws.len() == SNAPSHOT_WORDS);
    assert(forall|i: int| 0 <= i < 50 ==> ws[i] == spec_player_words(s.first)[i]);
    assert(forall|i: int| 0 <= i < 50 ==> ws[50 + i] == spec_player_words(s.second)[i]);
    lemma_player_words_round_trip(s.first, ws, 0);
    lemma_player_words_round_trip(s.second, ws, 50);
    assert(spec_decode_words(ws)->Some_0 =~= s);
}

/// Law: the whole persistence pipeline reproduces a running game. For a
/// well-formed, unended engine, packing its snapshot into words, decoding
/// the words, and resuming from the result over the same catalog yields
/// the engine back exactly.
pub proof fn lemma_persisted_round_trip(b: Board)
    requires
        b.wf(),
        !b@.game_ended,
    ensures
        spec_decode_words(spec_snapshot_words(b@.spec_snapshot())) == Option::Some(
            b@.spec_snapshot(),
        ),
        spec_load(Option::Some(b@.spec_snapshot()), b@.catalog) == b@,
{
    lemma_words_round_trip(b@.spec_snapshot());
    lemma_save_load_round_trip(b@);
}

/// Byte `k` of a word, little-endian.
pub open spec fn u64_byte(v: u64, k: u64) -> u8 {
    (v >> (8 * k)) as u8
}

/// The little-endian byte form of a word sequence.
pub open spec fn bytes_of_words(ws: Seq<u64>) -> Seq<u8> {
    Seq::new(ws.len() * 8, |i: int| u64_byte(ws[i / 8], (i % 8) as u64))
}

/// The word read back from positions `8k..8k+8` of a byte sequence.
pub open spec fn word_of_bytes_at(bs: Seq<u8>, k: int) -> u64 {
    (bs[8 * k] as u64) | ((bs[8 * k + 1] as u64) << 8) | ((bs[8 * k + 2] as u64) << 16) | ((bs[8
        * k + 3] as u64) << 24) | ((bs[8 * k + 4] as u64) << 32) | ((bs[8 * k + 5] as u64) << 40)
        | ((bs[8 * k + 6] as u64) << 48) | ((bs[8 * k + 7] as u64) << 56)
}

/// The words read back from a byte sequence.
pub open spec fn words_of_bytes(bs: Seq<u8>) -> Seq<u64> {
    Seq::new(bs.len() / 8, |k: int| word_of_bytes_at(bs, k))
}

/// The eight little-endian bytes of a word recombine to the word.
proof fn lemma_u64_byte_recombine(v: u64)
    ensures
        (u64_byte(v, 0) as u64) | ((u64_byte(v, 1) as u64) << 8) | ((u64_byte(v, 2) as u64) << 16) | ((u64_byte(v, 3) as u64) << 24) | ((u64_byte(v, 4) as u64) << 32) | ((u64_byte(v, 5) as u64) << 40) | ((u64_byte(v, 6) as u64) << 48) | ((u64_byte(v, 7) as u64) << 56) == v,
{
    assert(v >> 0 == v) by (bit_vector);
    assert(((v as u8) as u64) | ((((v >> 8) as u8) as u64) << 8) | ((((v >> 16) as u8) as u64) << 16) | ((((v >> 24) as u8) as u64) << 24) | ((((v >> 32) as u8) as u64) << 32) | ((((v >> 40) as u8) as u64) << 40) | ((((v >> 48) as u8) as u64) << 48) | ((((v >> 56) as u8) as u64) << 56) == v) by (bit_vector);
}

/// Splitting a word sequence into bytes and reading the words back is
/// the identity.
proof fn lemma_words_bytes_round_trip(ws: Seq<u64>)
    ensures
        words_of_bytes(bytes_of_words(ws)) == ws,
{
    let bs = bytes_of_words(ws);
    assert(bs.len() / 8 == ws.len()) by (nonlinear_arith)
        requires
            bs.len() == ws.len() * 8,
    ;
    assert forall|k: int| 0 <= k < ws.len() implies words_of_bytes(bs)[k] == ws[k] by {
        assert forall|j: int| 0 <= j < 8 implies #[trigger] bs[8 * k + j] == u64_byte(ws[k], j as u64) by {
            assert((8 * k + j) / 8 == k && (8 * k + j) % 8 == j) by (nonlinear_arith)
                requires
                    0 <= j < 8,
            ;
            assert(0 <= 8 * k + j < bs.len()) by (nonlinear_arith)
                requires
                    0 <= k < ws.len(),
                    0 <= j < 8,
                    bs.len() == ws.len() * 8,
            ;
        }
        lemma_u64_byte_recombine(ws[k]);
    }
    assert(words_of_bytes(bs) =~= ws);
}

/// Splits words into their little-endian bytes.
fn words_to_bytes(ws: &Vec<u64>) -> (r: Vec<u8>)
    requires
        ws@.len() * 8 <= usize::MAX,
    ensures
        r@ == bytes_of_words(ws@),
{
    let n = ws.len();
    let mut out: Vec<u8> = Vec::new();
    let mut k: usize = 0;
    while k < n
        invariant
            n == ws@.len(),
            n * 8 <= usize::MAX,
            k <= n,
            out@.len() == 8 * k,
            forall|i: int|
                0 <= i < out@.len() ==> #[trigger] out@[i] == u64_byte(ws@[i / 8], (i % 8) as u64),
        decreases n - k,
    {
        let v = ws[k];
        proof {
            assert(8 * (k as int) + 8 <= 8 * (n as int)) by (nonlinear_arith)
                requires
                    k < n,
            ;
        }
        out.push(#[verifier::truncate] (v as u8));
        out.push(#[verifier::truncate] ((v >> 8) as u8));
        out.push(#[verifier::truncate] ((v >> 16) as u8));
        out.push(#[verifier::truncate] ((v >> 24) as u8));
        out.push(#[verifier::truncate] ((v >> 32) as u8));
        out.push(#[verifier::truncate] ((v >> 40) as u8));
        out.push(#[verifier::truncate] ((v >> 48) as u8));
        out.push(#[verifier::truncate] ((v >> 56) as u8));
        proof {
            assert(v >> 0 == v) by (bit_vector);
            assert forall|i: int| 8 * (k as int) <= i < 8 * (k as int) + 8 implies #[trigger] (i
                / 8) == k as int && i % 8 == i - 8 * (k as int) by {
                assert(i / 8 == k as int && i % 8 == i - 8 * (k as int)) by (nonlinear_arith)
                    requires
                        8 * (k as int) <= i < 8 * (k as int) + 8,
                ;
            }
        }
        k += 1;
    }
    assert(out@ =~= bytes_of_words(ws@));
    out
}

/// Reads words back from little-endian bytes; fails on a length no word
/// sequence produces.
fn bytes_to_words(bs: &Vec<u8>) -> (r: Option<Vec<u64>>)
    ensures
        bs@.len() % 8 == 0 ==> (r matches Option::Some(ws) && ws@ == words_of_bytes(bs@)),
        bs@.len() % 8 != 0 ==> r is None,
{
    let n = bs.len();
    if n % 8 != 0 {
        return None;
    }
    let count = n / 8;
    let mut out: Vec<u64> = Vec::new();
    let mut k: usize = 0;
    while k < count
        invariant
            n == bs@.len(),
            n % 8 == 0,
            count == n / 8,
            k <= count,
            out@.len() == k,
            forall|t: int| 0 <= t < k ==> #[trigger] out@[t] == word_of_bytes_at(bs@, t),
        decreases count - k,
    {
        proof {
            assert(8 * (k as int) + 8 <= n as int) by (nonlinear_arith)
                requires
                    k < n / 8,
                    n % 8 == 0,
                    n >= 0,
            ;
        }
        let base = 8 * k;
        let w = (bs[base] as u64) | ((bs[base + 1] as u64) << 8) | ((bs[base + 2] as u64) << 16)
            | ((bs[base + 3] as u64) << 24) | ((bs[base + 4] as u64) << 32) | ((bs[base + 5]
            as u64) << 40) | ((bs[base + 6] as u64) << 48) | ((bs[base + 7] as u64) << 56);
        out.push(w);
        k += 1;
    }
    assert(out@ =~= words_of_bytes(bs@));
    Some(out)
}

/// What decoding a persisted byte string yields.
pub open spec fn spec_decode_bytes(bs: Seq<u8>) -> Option<SnapshotView> {
    if bs.len() % 8 == 0 {
        spec_decode_words(words_of_bytes(bs))
    } else {
        Option::None
    }
}

/// The persisted byte form of a snapshot: its words, little-endian.
pub fn snapshot_to_bytes(s: &Snapshot) -> (r: Vec<u8>)
    requires
        s.first.deck@.len() == 5,
        s.second.deck@.len() == 5,
    ensures
        r@ == bytes_of_words(spec_snapshot_words(s@)),
{
    let words = encode_snapshot(s);
    words_to_bytes(&words)
}

/// Decodes a persisted byte string back into a snapshot; yields `None`
/// on anything a real encoder could not have produced.
pub fn snapshot_from_bytes(bs: &Vec<u8>) -> (r: Option<Snapshot>)
    ensures
        spec_snapshot_opt_view(r) == spec_decode_bytes(bs@),
{
    match bytes_to_words(bs) {
        Option::Some(words) => decode_snapshot(&words),
        Option::None => None,
    }
}

/// Law: the byte form round-trips too: decoding the persisted bytes of
/// any snapshot with full hands yields that snapshot back.
pub proof fn lemma_bytes_round_trip(s: SnapshotView)
    requires
        s.first.deck.len() == 5,
        s.second.deck.len() == 5,
        0 <= s.next_draw <= usize::MAX,
    ensures
        spec_decode_bytes(bytes_of_words(spec_snapshot_words(s))) == Option::Some(s),
{
    lemma_words_bytes_round_trip(spec_snapshot_words(s));
    lemma_words_round_trip(s);
}

} // verus!
