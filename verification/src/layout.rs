//! What an observation holds, cell by cell: the channels of the board array
//! and the sections of the flat and hidden arrays.
//!
//! Everything here is specification. The encoder is proved to fill its
//! arrays with exactly these values.

use crate::relative::{relative_offset, seat_at_offset};
use crate::state::{
    Coord, DevelopmentPhase, GameState, Harbor, Hex, HexSite, IntersectionSite, LandHex,
    PathSite, Phase, PlayerHand, total_of,
};
use vstd::prelude::*;

verus! {

/// Channel of the desert.
pub const DESERT_CHANNEL: usize = 5;

/// Channel of the robber.
pub const ROBBER_CHANNEL: usize = 6;

/// First of the road channels, one for each seat by its offset from the
/// observer.
pub const ROAD_CHANNELS: usize = 7;

/// Cells of the flat array that describe the observer's own hand.
pub const OWN_CELLS: usize = 27;

/// Cells of the flat array that describe one opponent.
pub const SUMMARY_CELLS: usize = 8;

/// Cells of the flat array that describe the bank.
pub const BANK_CELLS: usize = 6;

/// Cells of the flat array that describe the phase.
pub const PHASE_CELLS: usize = 4;

/// Cells of the hidden array that belong to one opponent.
pub const HIDDEN_CELLS: usize = 27;

/// Number of channels of the board array.
pub open spec fn board_depth(seats: int) -> int {
    13 + 2 * seats
}

/// First of the harbor channels: one for each resource, then the generic
/// harbor.
pub open spec fn harbor_channels(seats: int) -> int {
    7 + seats
}

/// First of the building channels, one for each seat by its offset from the
/// observer.
pub open spec fn building_channels(seats: int) -> int {
    13 + seats
}

/// Length of the flat array.
pub open spec fn flat_len(seats: int) -> int {
    29 + 8 * seats
}

/// Length of the hidden array.
pub open spec fn hidden_len(seats: int) -> int {
    (seats - 1) * 27
}

/// 1 for `true`, 0 for `false`.
pub open spec fn flag(b: bool) -> i32 {
    if b {
        1
    } else {
        0
    }
}

/// What a hex puts into channel `ch` of its cell, if anything: a land hex
/// that produces puts its dice number into the channel of its resource, the
/// desert puts 1 into the desert channel, and the land hex under the robber
/// puts 1 into the robber channel.
pub open spec fn hex_mark(site: HexSite, thief: Coord, ch: int) -> Option<i32> {
    match site.hex {
        Hex::Water => None,
        Hex::Land(land) => {
            if ch == ROBBER_CHANNEL && site.coord == thief {
                Some(1i32)
            } else {
                match land {
                    LandHex::Desert => if ch == DESERT_CHANNEL {
                        Some(1i32)
                    } else {
                        None
                    },
                    LandHex::Prod(resource, number) => if ch == resource.index() {
                        Some(number as i32)
                    } else {
                        None
                    },
                }
            }
        },
    }
}

/// What a path puts into channel `ch` of its cell, if anything: a road puts
/// 1 into the road channel of its owner's offset from the observer.
pub open spec fn path_mark(site: PathSite, observer: int, seats: int, ch: int) -> Option<i32> {
    match site.road {
        Some(owner) => if ch == ROAD_CHANNELS + relative_offset(observer, owner as int, seats) {
            Some(1i32)
        } else {
            None
        },
        None => None,
    }
}

/// What an intersection puts into channel `ch` of its cell, if anything: a
/// harbor puts 1 into the channel of its kind, and a building puts 1 for a
/// settlement or 2 for a city into the building channel of its owner's
/// offset from the observer.
pub open spec fn intersection_mark(
    site: IntersectionSite,
    observer: int,
    seats: int,
    ch: int,
) -> Option<i32> {
    let built = match site.building {
        Some(b) => if ch == building_channels(seats) + relative_offset(
            observer,
            b.owner as int,
            seats,
        ) {
            Some(
                if b.is_city {
                    2i32
                } else {
                    1i32
                },
            )
        } else {
            None
        },
        None => None,
    };
    let harbored = match site.harbor {
        Harbor::Absent => None,
        Harbor::Generic => if ch == harbor_channels(seats) + 5 {
            Some(1i32)
        } else {
            None
        },
        Harbor::Special(resource) => if ch == harbor_channels(seats) + resource.index() {
            Some(1i32)
        } else {
            None
        },
    };
    if built is Some {
        built
    } else {
        harbored
    }
}

/// The value that the first `upto` hexes leave at `(x, y, ch)`: what the last
/// of them that lies in the cell and marks the channel puts there, and 0 if
/// none does.
pub open spec fn hexes_value(
    cells: spec_fn(Coord) -> (int, int),
    hexes: Seq<HexSite>,
    thief: Coord,
    upto: nat,
    x: int,
    y: int,
    ch: int,
) -> i32
    decreases upto,
{
    if upto == 0 {
        0
    } else {
        let site = hexes[upto - 1];
        let mark = hex_mark(site, thief, ch);
        if mark is Some && cells(site.coord) == (x, y) {
            mark->0
        } else {
            hexes_value(cells, hexes, thief, (upto - 1) as nat, x, y, ch)
        }
    }
}

/// The value that the first `upto` paths leave at `(x, y, ch)`.
pub open spec fn paths_value(
    cells: spec_fn(Coord) -> (int, int),
    paths: Seq<PathSite>,
    observer: int,
    seats: int,
    upto: nat,
    x: int,
    y: int,
    ch: int,
) -> i32
    decreases upto,
{
    if upto == 0 {
        0
    } else {
        let site = paths[upto - 1];
        let mark = path_mark(site, observer, seats, ch);
        if mark is Some && cells(site.coord) == (x, y) {
            mark->0
        } else {
            paths_value(cells, paths, observer, seats, (upto - 1) as nat, x, y, ch)
        }
    }
}

/// The value that the first `upto` intersections leave at `(x, y, ch)`.
pub open spec fn intersections_value(
    cells: spec_fn(Coord) -> (int, int),
    intersections: Seq<IntersectionSite>,
    observer: int,
    seats: int,
    upto: nat,
    x: int,
    y: int,
    ch: int,
) -> i32
    decreases upto,
{
    if upto == 0 {
        0
    } else {
        let site = intersections[upto - 1];
        let mark = intersection_mark(site, observer, seats, ch);
        if mark is Some && cells(site.coord) == (x, y) {
            mark->0
        } else {
            intersections_value(
                cells,
                intersections,
                observer,
                seats,
                (upto - 1) as nat,
                x,
                y,
                ch,
            )
        }
    }
}

/// The value of the board array at `(x, y, ch)` for `observer`: channels 0
/// to 6 come from the hexes, the next `seats` channels from the roads, and
/// the rest from the intersections.
pub open spec fn board_value(
    cells: spec_fn(Coord) -> (int, int),
    state: GameState,
    observer: int,
    x: int,
    y: int,
    ch: int,
) -> i32 {
    let seats = state.seats();
    if ch < ROAD_CHANNELS {
        hexes_value(cells, state.hexes@, state.thief_hex, state.hexes@.len(), x, y, ch)
    } else if ch < harbor_channels(seats) {
        paths_value(cells, state.paths@, observer, seats, state.paths@.len(), x, y, ch)
    } else {
        intersections_value(
            cells,
            state.intersections@,
            observer,
            seats,
            state.intersections@.len(),
            x,
            y,
            ch,
        )
    }
}

/// The 27 cells of a hand in full: the five resource counts, the road,
/// settlement and city pieces, the knights, the five counts of development
/// cards held, the five counts of development cards bought this turn, the six
/// harbor flags, and the flags for the longest road and the largest army.
pub open spec fn own_block(hand: PlayerHand, longest_road: bool, largest_army: bool) -> Seq<i32> {
    seq![
        hand.resources@[0] as i32,
        hand.resources@[1] as i32,
        hand.resources@[2] as i32,
        hand.resources@[3] as i32,
        hand.resources@[4] as i32,
        hand.road_pieces as i32,
        hand.settlement_pieces as i32,
        hand.city_pieces as i32,
        hand.knights as i32,
        hand.development_cards@[0] as i32,
        hand.development_cards@[1] as i32,
        hand.development_cards@[2] as i32,
        hand.development_cards@[3] as i32,
        hand.development_cards@[4] as i32,
        hand.new_development_cards@[0] as i32,
        hand.new_development_cards@[1] as i32,
        hand.new_development_cards@[2] as i32,
        hand.new_development_cards@[3] as i32,
        hand.new_development_cards@[4] as i32,
        flag(hand.harbor@[0]),
        flag(hand.harbor@[1]),
        flag(hand.harbor@[2]),
        flag(hand.harbor@[3]),
        flag(hand.harbor@[4]),
        flag(hand.harbor@[5]),
        flag(longest_road),
        flag(largest_army),
    ]
}

/// The 8 cells of a hand in summary: the number of resource cards, the road,
/// settlement and city pieces, the knights, the number of development cards
/// held, and the flags for the longest road and the largest army.
pub open spec fn summary_block(hand: PlayerHand, longest_road: bool, largest_army: bool) -> Seq<
    i32,
> {
    seq![
        total_of(hand.resources@) as i32,
        hand.road_pieces as i32,
        hand.settlement_pieces as i32,
        hand.city_pieces as i32,
        hand.knights as i32,
        total_of(hand.development_cards@) as i32,
        flag(longest_road),
        flag(largest_army),
    ]
}

/// The summary of the seat that lies `offset` places after the observer.
pub open spec fn opponent_block(state: GameState, observer: int, offset: int) -> Seq<i32> {
    let seat = seat_at_offset(observer, offset, state.seats());
    summary_block(state.hands@[seat], state.has_longest_road(seat), state.has_largest_army(seat))
}

/// The summaries of the opponents at offsets 1 to `upto - 1`, in that order.
pub open spec fn opponent_blocks(state: GameState, observer: int, upto: nat) -> Seq<i32>
    decreases upto,
{
    if upto <= 1 {
        Seq::empty()
    } else {
        opponent_blocks(state, observer, (upto - 1) as nat) + opponent_block(
            state,
            observer,
            upto - 1,
        )
    }
}

/// The 6 cells of the bank: its five resource counts and the number of
/// development cards left.
pub open spec fn bank_block(state: GameState) -> Seq<i32> {
    seq![
        state.bank_resources@[0] as i32,
        state.bank_resources@[1] as i32,
        state.bank_resources@[2] as i32,
        state.bank_resources@[3] as i32,
        state.bank_resources@[4] as i32,
        total_of(state.bank_development_cards@) as i32,
    ]
}

/// 2 or 1 for what is left of a card's effect.
pub open spec fn remaining(two_left: bool) -> i32 {
    if two_left {
        2
    } else {
        1
    }
}

/// The 4 cells of the phase: whether the dice are still to be rolled,
/// whether a development card may be played, how many roads are left of a
/// road building card, and how many picks of a year of plenty card. Outside a
/// regular turn all four are 0.
pub open spec fn phase_block(phase: Phase) -> Seq<i32> {
    match phase {
        Phase::OutOfTurn => seq![0i32, 0i32, 0i32, 0i32],
        Phase::Turn { player, turn_phase, development_phase } => seq![
            flag(turn_phase is PreRoll),
            flag(development_phase is Ready),
            match development_phase {
                DevelopmentPhase::RoadBuildingActive { two_left } => remaining(two_left),
                _ => 0i32,
            },
            match development_phase {
                DevelopmentPhase::YearOfPlentyActive { two_left } => remaining(two_left),
                _ => 0i32,
            },
        ],
    }
}

/// The flat array for `observer`: the observer's own hand in full, the
/// opponents in summary by increasing offset, the bank, and the phase.
pub open spec fn flat_layout(state: GameState, observer: int, phase: Phase) -> Seq<i32> {
    own_block(
        state.hands@[observer],
        state.has_longest_road(observer),
        state.has_largest_army(observer),
    ) + opponent_blocks(state, observer, state.seats() as nat) + bank_block(state) + phase_block(
        phase,
    )
}

/// The 27 cells that the hidden array keeps for one opponent: the summary,
/// then zeros.
pub open spec fn hidden_block(state: GameState, observer: int, offset: int) -> Seq<i32> {
    opponent_block(state, observer, offset) + blank((HIDDEN_CELLS - SUMMARY_CELLS) as nat)
}

/// The hidden cells of the opponents at offsets 1 to `upto - 1`, in that
/// order.
pub open spec fn hidden_blocks(state: GameState, observer: int, upto: nat) -> Seq<i32>
    decreases upto,
{
    if upto <= 1 {
        Seq::empty()
    } else {
        hidden_blocks(state, observer, (upto - 1) as nat) + hidden_block(state, observer, upto - 1)
    }
}

/// The hidden array for `observer`.
pub open spec fn hidden_layout(state: GameState, observer: int) -> Seq<i32> {
    hidden_blocks(state, observer, state.seats() as nat)
}

/// `len` cells of 0.
pub open spec fn blank(len: nat) -> Seq<i32> {
    Seq::new(len, |i: int| 0i32)
}

/// `base` with `block` written over it from index `at` on.
pub open spec fn overlay(base: Seq<i32>, at: int, block: Seq<i32>) -> Seq<i32> {
    Seq::new(
        base.len(),
        |i: int|
            if at <= i < at + block.len() {
                block[i - at]
            } else {
                base[i]
            },
    )
}

/// The opponents' summaries take 8 cells for each opponent.
pub proof fn lemma_opponent_blocks_len(state: GameState, observer: int, upto: nat)
    ensures
        opponent_blocks(state, observer, upto).len() == if upto <= 1 {
            0
        } else {
            8 * (upto - 1)
        },
    decreases upto,
{
    if upto > 1 {
        lemma_opponent_blocks_len(state, observer, (upto - 1) as nat);
    }
}

/// The opponents' hidden cells take 27 cells for each opponent.
pub proof fn lemma_hidden_blocks_len(state: GameState, observer: int, upto: nat)
    ensures
        hidden_blocks(state, observer, upto).len() == if upto <= 1 {
            0
        } else {
            27 * (upto - 1)
        },
    decreases upto,
{
    if upto > 1 {
        lemma_hidden_blocks_len(state, observer, (upto - 1) as nat);
    }
}

/// The flat array has `29 + 8 * seats` cells and the hidden array
/// `(seats - 1) * 27`.
pub proof fn lemma_layout_len(state: GameState, observer: int, phase: Phase)
    requires
        state.seats() >= 1,
    ensures
        flat_layout(state, observer, phase).len() == flat_len(state.seats()),
        hidden_layout(state, observer).len() == hidden_len(state.seats()),
{
    lemma_opponent_blocks_len(state, observer, state.seats() as nat);
    lemma_hidden_blocks_len(state, observer, state.seats() as nat);
}

} // verus!
