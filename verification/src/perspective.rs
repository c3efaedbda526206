//! How an observation depends on who observes: what stays the same when the
//! seats are renumbered, by how much two observers differ, what an opponent's
//! cells keep back and what the observer's own cells give away.

use crate::layout::{
    ROAD_CHANNELS, board_value, building_channels, flat_layout, hidden_blocks,
    hidden_layout, intersection_mark, intersections_value, opponent_block, opponent_blocks,
    own_block, path_mark, paths_value, summary_block,
};
use crate::relative::{
    lemma_offset_observer_shift, lemma_offset_range, lemma_offset_rotation, relative_offset,
    rotated_seat, seat_at_offset,
};
use crate::state::{Coord, GameState, IntersectionSite, PathSite, Phase, PlayerHand, total_of};
use vstd::prelude::*;

verus! {

/// `holder` after every seat has moved `shift` places upwards.
pub open spec fn rotated_holder(
    before: Option<u8>,
    after: Option<u8>,
    shift: int,
    seats: int,
) -> bool {
    match before {
        Some(seat) => after matches Some(moved) && moved == rotated_seat(seat as int, shift, seats),
        None => after is None,
    }
}

/// `b` is the state `a` with every seat moved `shift` places upwards: the
/// hands, the owners of roads and buildings and the holders of the longest
/// road and the largest army move, and nothing else changes.
pub open spec fn is_rotation(a: GameState, b: GameState, shift: int) -> bool {
    let seats = a.seats();
    &&& b.seats() == seats
    &&& forall|seat: int|
        0 <= seat < seats ==> b.hands@[#[trigger] rotated_seat(seat, shift, seats)]
            == a.hands@[seat]
    &&& b.hexes@ == a.hexes@
    &&& b.thief_hex == a.thief_hex
    &&& b.paths@.len() == a.paths@.len()
    &&& forall|i: int|
        0 <= i < a.paths@.len() ==> (#[trigger] b.paths@[i]).coord == a.paths@[i].coord
            && rotated_holder(a.paths@[i].road, b.paths@[i].road, shift, seats)
    &&& b.intersections@.len() == a.intersections@.len()
    &&& forall|i: int|
        0 <= i < a.intersections@.len() ==> {
            &&& (#[trigger] b.intersections@[i]).coord == a.intersections@[i].coord
            &&& b.intersections@[i].harbor == a.intersections@[i].harbor
            &&& match a.intersections@[i].building {
                Some(built) => b.intersections@[i].building matches Some(moved) && moved.is_city
                    == built.is_city && moved.owner == rotated_seat(
                    built.owner as int,
                    shift,
                    seats,
                ),
                None => b.intersections@[i].building is None,
            }
        }
    &&& rotated_holder(a.longest_road, b.longest_road, shift, seats)
    &&& rotated_holder(a.largest_army, b.largest_army, shift, seats)
    &&& b.bank_resources@ == a.bank_resources@
    &&& b.bank_development_cards@ == a.bank_development_cards@
}

/// Two hands have the same summary: as many resource cards, road,
/// settlement and city pieces, knights and development cards.
pub open spec fn same_summary(a: PlayerHand, b: PlayerHand) -> bool {
    &&& total_of(a.resources@) == total_of(b.resources@)
    &&& a.road_pieces == b.road_pieces
    &&& a.settlement_pieces == b.settlement_pieces
    &&& a.city_pieces == b.city_pieces
    &&& a.knights == b.knights
    &&& total_of(a.development_cards@) == total_of(b.development_cards@)
}

/// `a` and `b` are the same state but for the hand of `seat`.
pub open spec fn differ_in_hand_only(a: GameState, b: GameState, seat: int) -> bool {
    &&& b.seats() == a.seats()
    &&& forall|other: int|
        0 <= other < a.seats() && other != seat ==> #[trigger] b.hands@[other] == a.hands@[other]
    &&& b.hexes@ == a.hexes@
    &&& b.thief_hex == a.thief_hex
    &&& b.paths@ == a.paths@
    &&& b.intersections@ == a.intersections@
    &&& b.longest_road == a.longest_road
    &&& b.largest_army == a.largest_army
    &&& b.bank_resources@ == a.bank_resources@
    &&& b.bank_development_cards@ == a.bank_development_cards@
}

/// Moving seats is one-to-one: two seats that land on the same seat were the
/// same seat.
pub proof fn lemma_rotation_one_to_one(first: int, second: int, shift: int, seats: int)
    requires
        0 <= first < seats,
        0 <= second < seats,
        rotated_seat(first, shift, seats) == rotated_seat(second, shift, seats),
    ensures
        first == second,
{
    lemma_offset_rotation(first, second, shift, seats);
    vstd::arithmetic::div_mod::lemma_small_mod(0, seats as nat);
    lemma_offset_range(first, second, seats);
}

/// The seat at an offset from a moved observer is the moved seat at that
/// offset from the observer.
pub proof fn lemma_offset_seat_rotation(observer: int, offset: int, shift: int, seats: int)
    requires
        0 < seats,
    ensures
        seat_at_offset(rotated_seat(observer, shift, seats), offset, seats) == rotated_seat(
            seat_at_offset(observer, offset, seats),
            shift,
            seats,
        ),
{
    vstd::arithmetic::div_mod::lemma_add_mod_noop_right(offset, observer + shift, seats);
    vstd::arithmetic::div_mod::lemma_add_mod_noop_right(shift, observer + offset, seats);
}

/// The channel of a seat's roads and the channel of its buildings lie at the
/// seat's offset from the observer, so for two observers they differ by the
/// offset between the observers, modulo the number of seats.
pub proof fn lemma_seat_channels_shift(
    road: PathSite,
    corner: IntersectionSite,
    first: int,
    second: int,
    seat: int,
    seats: int,
    ch: int,
)
    requires
        0 <= first < seats,
        0 <= second < seats,
        0 <= seat < seats,
        road.road matches Some(owner) && owner == seat,
        corner.harbor is Absent,
        corner.building matches Some(built) && built.owner == seat,
    ensures
        0 <= relative_offset(first, seat, seats) < seats,
        0 <= relative_offset(second, seat, seats) < seats,
        relative_offset(second, seat, seats) == (relative_offset(first, seat, seats)
            + relative_offset(second, first, seats)) % seats,
        path_mark(road, first, seats, ch) is Some <==> ch == ROAD_CHANNELS + relative_offset(
            first,
            seat,
            seats,
        ),
        path_mark(road, second, seats, ch) is Some <==> ch == ROAD_CHANNELS + (relative_offset(
            first,
            seat,
            seats,
        ) + relative_offset(second, first, seats)) % seats,
        intersection_mark(corner, first, seats, ch) is Some <==> ch == building_channels(seats)
            + relative_offset(first, seat, seats),
        intersection_mark(corner, second, seats, ch) is Some <==> ch == building_channels(seats)
            + (relative_offset(first, seat, seats) + relative_offset(second, first, seats))
            % seats,
{
    lemma_offset_observer_shift(first, second, seat, seats);
}

/// Renumbering the seats does not change what a path marks.
proof fn lemma_paths_rotation(
    cells: spec_fn(Coord) -> (int, int),
    a: GameState,
    b: GameState,
    shift: int,
    observer: int,
    upto: nat,
    x: int,
    y: int,
    ch: int,
)
    requires
        a.seats() > 0,
        is_rotation(a, b, shift),
        upto <= a.paths@.len(),
    ensures
        paths_value(
            cells,
            b.paths@,
            rotated_seat(observer, shift, a.seats()),
            a.seats(),
            upto,
            x,
            y,
            ch,
        ) == paths_value(cells, a.paths@, observer, a.seats(), upto, x, y, ch),
    decreases upto,
{
    if upto > 0 {
        if let Some(owner) = a.paths@[upto - 1].road {
            lemma_offset_rotation(observer, owner as int, shift, a.seats());
        }
        lemma_paths_rotation(cells, a, b, shift, observer, (upto - 1) as nat, x, y, ch);
    }
}

/// Renumbering the seats does not change what an intersection marks.
proof fn lemma_intersections_rotation(
    cells: spec_fn(Coord) -> (int, int),
    a: GameState,
    b: GameState,
    shift: int,
    observer: int,
    upto: nat,
    x: int,
    y: int,
    ch: int,
)
    requires
        a.seats() > 0,
        is_rotation(a, b, shift),
        upto <= a.intersections@.len(),
    ensures
        intersections_value(
            cells,
            b.intersections@,
            rotated_seat(observer, shift, a.seats()),
            a.seats(),
            upto,
            x,
            y,
            ch,
        ) == intersections_value(cells, a.intersections@, observer, a.seats(), upto, x, y, ch),
    decreases upto,
{
    if upto > 0 {
        if let Some(built) = a.intersections@[upto - 1].building {
            lemma_offset_rotation(observer, built.owner as int, shift, a.seats());
        }
        lemma_intersections_rotation(cells, a, b, shift, observer, (upto - 1) as nat, x, y, ch);
    }
}

/// Whether a moved seat holds a moved title is whether the seat held it.
proof fn lemma_holder_rotation(
    before: Option<u8>,
    after: Option<u8>,
    seat: int,
    shift: int,
    seats: int,
)
    requires
        0 <= seat < seats,
        before matches Some(holder) ==> holder < seats,
        rotated_holder(before, after, shift, seats),
    ensures
        (after matches Some(moved) && moved == rotated_seat(seat, shift, seats)) <==> (
        before matches Some(holder) && holder == seat),
{
    match before {
        Some(holder) => {
            if rotated_seat(holder as int, shift, seats) == rotated_seat(seat, shift, seats) {
                lemma_rotation_one_to_one(holder as int, seat, shift, seats);
            }
        },
        None => {},
    }
}

/// Renumbering the seats does not change the summary at an offset.
proof fn lemma_opponent_block_rotation(
    a: GameState,
    b: GameState,
    shift: int,
    observer: int,
    offset: int,
)
    requires
        a.wf(),
        is_rotation(a, b, shift),
        0 <= observer < a.seats(),
        0 <= offset < a.seats(),
    ensures
        opponent_block(b, rotated_seat(observer, shift, a.seats()), offset) == opponent_block(
            a,
            observer,
            offset,
        ),
{
    let seats = a.seats();
    let seat = seat_at_offset(observer, offset, seats);
    lemma_offset_seat_rotation(observer, offset, shift, seats);
    lemma_holder_rotation(a.longest_road, b.longest_road, seat, shift, seats);
    lemma_holder_rotation(a.largest_army, b.largest_army, seat, shift, seats);
}

/// Renumbering the seats does not change the opponents' summaries.
proof fn lemma_opponent_blocks_rotation(
    a: GameState,
    b: GameState,
    shift: int,
    observer: int,
    upto: nat,
)
    requires
        a.wf(),
        is_rotation(a, b, shift),
        0 <= observer < a.seats(),
        upto <= a.seats(),
    ensures
        opponent_blocks(b, rotated_seat(observer, shift, a.seats()), upto) == opponent_blocks(
            a,
            observer,
            upto,
        ),
        hidden_blocks(b, rotated_seat(observer, shift, a.seats()), upto) == hidden_blocks(
            a,
            observer,
            upto,
        ),
    decreases upto,
{
    if upto > 1 {
        lemma_opponent_blocks_rotation(a, b, shift, observer, (upto - 1) as nat);
        lemma_opponent_block_rotation(a, b, shift, observer, upto - 1);
    }
}

/// Renumbering the seats changes nothing: where every seat of a state and the
/// observer move the same number of places, the board, the flat array and
/// the hidden array are cell for cell what they were.
pub proof fn lemma_rotation_invariance(
    cells: spec_fn(Coord) -> (int, int),
    a: GameState,
    b: GameState,
    shift: int,
    observer: int,
    phase: Phase,
)
    requires
        a.wf(),
        is_rotation(a, b, shift),
        0 <= observer < a.seats(),
    ensures
        forall|x: int, y: int, ch: int|
            #[trigger] board_value(cells, b, rotated_seat(observer, shift, a.seats()), x, y, ch)
                == board_value(cells, a, observer, x, y, ch),
        flat_layout(b, rotated_seat(observer, shift, a.seats()), phase) == flat_layout(
            a,
            observer,
            phase,
        ),
        hidden_layout(b, rotated_seat(observer, shift, a.seats())) == hidden_layout(a, observer),
{
    let seats = a.seats();
    let moved = rotated_seat(observer, shift, seats);
    assert forall|x: int, y: int, ch: int| #[trigger]
        board_value(cells, b, moved, x, y, ch) == board_value(cells, a, observer, x, y, ch) by {
        lemma_paths_rotation(cells, a, b, shift, observer, a.paths@.len(), x, y, ch);
        lemma_intersections_rotation(
            cells,
            a,
            b,
            shift,
            observer,
            a.intersections@.len(),
            x,
            y,
            ch,
        );
    }
    lemma_opponent_blocks_rotation(a, b, shift, observer, seats as nat);
    lemma_holder_rotation(a.longest_road, b.longest_road, observer, shift, seats);
    lemma_holder_rotation(a.largest_army, b.largest_army, observer, shift, seats);
}

/// The summary of a hand depends on the hand through its totals only.
pub proof fn lemma_summary_keeps_detail_back(
    a: PlayerHand,
    b: PlayerHand,
    longest_road: bool,
    largest_army: bool,
)
    requires
        same_summary(a, b),
    ensures
        summary_block(a, longest_road, largest_army) == summary_block(
            b,
            longest_road,
            largest_army,
        ),
{
}

/// An opponent's cards stay hidden in the opponents' summaries.
proof fn lemma_opponent_blocks_keep_detail_back(
    a: GameState,
    b: GameState,
    observer: int,
    opponent: int,
    upto: nat,
)
    requires
        a.seats() >= 1,
        0 <= observer < a.seats(),
        0 <= opponent < a.seats(),
        differ_in_hand_only(a, b, opponent),
        same_summary(a.hands@[opponent], b.hands@[opponent]),
        upto <= a.seats(),
    ensures
        opponent_blocks(a, observer, upto) == opponent_blocks(b, observer, upto),
        hidden_blocks(a, observer, upto) == hidden_blocks(b, observer, upto),
    decreases upto,
{
    if upto > 1 {
        lemma_opponent_blocks_keep_detail_back(a, b, observer, opponent, (upto - 1) as nat);
    }
}

/// What an observer is shown of an opponent is the opponent's totals and no
/// card: two states that differ only in which cards an opponent holds, with
/// the same totals, give the observer the same board, the same flat array
/// and the same hidden array.
pub proof fn lemma_opponent_detail_hidden(
    cells: spec_fn(Coord) -> (int, int),
    a: GameState,
    b: GameState,
    observer: int,
    opponent: int,
    phase: Phase,
)
    requires
        a.seats() >= 1,
        0 <= observer < a.seats(),
        0 <= opponent < a.seats(),
        opponent != observer,
        differ_in_hand_only(a, b, opponent),
        same_summary(a.hands@[opponent], b.hands@[opponent]),
    ensures
        flat_layout(a, observer, phase) == flat_layout(b, observer, phase),
        hidden_layout(a, observer) == hidden_layout(b, observer),
        forall|x: int, y: int, ch: int|
            #[trigger] board_value(cells, a, observer, x, y, ch) == board_value(
                cells,
                b,
                observer,
                x,
                y,
                ch,
            ),
{
    lemma_opponent_blocks_keep_detail_back(a, b, observer, opponent, a.seats() as nat);
}

/// The observer's own cells show the hand in full: two hands with the same
/// cells hold the same resources, pieces, knights, development cards and
/// harbors, card for card, and the same titles.
pub proof fn lemma_own_block_shows_detail(
    a: PlayerHand,
    b: PlayerHand,
    a_longest_road: bool,
    a_largest_army: bool,
    b_longest_road: bool,
    b_largest_army: bool,
)
    requires
        own_block(a, a_longest_road, a_largest_army) == own_block(
            b,
            b_longest_road,
            b_largest_army,
        ),
    ensures
        a.resources@ == b.resources@,
        a.road_pieces == b.road_pieces,
        a.settlement_pieces == b.settlement_pieces,
        a.city_pieces == b.city_pieces,
        a.knights == b.knights,
        a.development_cards@ == b.development_cards@,
        a.new_development_cards@ == b.new_development_cards@,
        a.harbor@ == b.harbor@,
        a_longest_road == b_longest_road,
        a_largest_army == b_largest_army,
{
}

} // verus!
