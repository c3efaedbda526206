//! The encoder: from a game state, seen from one seat, to the arrays of an
//! observation.

use crate::arrays::{
    BoolArray1, IntArray1, IntArray3, index_in_dim, int_array1_cells, int_array1_put,
    int_array1_zeros, int_array3_cells, int_array3_clone, int_array3_dim, int_array3_put,
    int_array3_zeros, shape_fits,
};
use crate::format::EncodingFormat;
use crate::layout::{
    BANK_CELLS, DESERT_CHANNEL, OWN_CELLS, PHASE_CELLS, ROAD_CHANNELS, ROBBER_CHANNEL,
    SUMMARY_CELLS, bank_block, blank, board_depth, board_value, flat_layout, flat_len,
    harbor_channels, hexes_value, hidden_blocks, hidden_layout, hidden_len, intersections_value,
    lemma_hidden_blocks_len, lemma_opponent_blocks_len, opponent_blocks, overlay, own_block,
    paths_value, phase_block, summary_block,
};
use crate::relative::{offset_to_player_id, player_id_to_relative};
use crate::state::{
    Coord, DevelopmentPhase, GameState, Harbor, Hex, LandHex, Phase, PlayerHand, TurnPhase, total,
};
use vstd::prelude::*;

verus! {

/// What one seat is shown at one decision point.
pub struct PyCatanObservation {
    /// The legal actions: `true` at the index of each action that may be
    /// played.
    pub actions: BoolArray1,
    /// The board, as width x height x channels.
    pub board: IntArray3,
    /// The hands, the bank and the phase.
    pub flat: IntArray1,
    /// The opponents' cells of the hidden array, where the format includes
    /// them.
    pub hidden: Option<IntArray1>,
}

/// The boards that a game keeps up to date for its seats, one for each seat.
pub struct PythonState {
    pub boards: Vec<IntArray3>,
}

/// 1 for `true`, 0 for `false`.
fn flag_of(b: bool) -> (v: i32)
    ensures
        v == crate::layout::flag(b),
{
    if b {
        1
    } else {
        0
    }
}

/// Whether `holder` names `seat`.
fn holds(holder: Option<u8>, seat: u8) -> (b: bool)
    ensures
        b == (holder matches Some(h) && h == seat),
{
    match holder {
        Some(h) => h == seat,
        None => false,
    }
}

/// Writes the 6 cells of the bank into `array`, from `index` on.
fn fill_bank(array: &mut IntArray1, index: usize, state: &GameState)
    requires
        index + BANK_CELLS <= int_array1_cells(*old(array)).len() <= usize::MAX,
    ensures
        int_array1_cells(*final(array)) == overlay(
            int_array1_cells(*old(array)),
            index as int,
            bank_block(*state),
        ),
{
    let ghost before = int_array1_cells(*array);
    let mut res: usize = 0;
    while res < 5
        invariant
            res <= 5,
            index + BANK_CELLS <= before.len() <= usize::MAX,
            int_array1_cells(*array) == overlay(
                before,
                index as int,
                bank_block(*state).take(res as int),
            ),
        decreases 5 - res,
    {
        int_array1_put(array, index + res, state.bank_resources[res] as i32);
        res += 1;
    }
    int_array1_put(array, index + 5, total(&state.bank_development_cards) as i32);
}

/// Writes the 4 cells of the phase into `array`, from `index` on. Outside a
/// regular turn it writes nothing, and the cells must hold 0 already.
fn fill_phase(array: &mut IntArray1, index: usize, phase: &Phase)
    requires
        index + PHASE_CELLS <= int_array1_cells(*old(array)).len() <= usize::MAX,
        forall|i: int| index <= i < index + PHASE_CELLS ==> int_array1_cells(*old(array))[i] == 0,
    ensures
        int_array1_cells(*final(array)) == overlay(
            int_array1_cells(*old(array)),
            index as int,
            phase_block(*phase),
        ),
{
    match phase {
        Phase::Turn { player: _, turn_phase, development_phase } => {
            let pre_roll: i32 = match turn_phase {
                TurnPhase::PreRoll => 1,
                _ => 0,
            };
            let ready: i32 = match development_phase {
                DevelopmentPhase::Ready => 1,
                _ => 0,
            };
            let roads: i32 = match development_phase {
                DevelopmentPhase::RoadBuildingActive { two_left } => if *two_left {
                    2
                } else {
                    1
                },
                _ => 0,
            };
            let picks: i32 = match development_phase {
                DevelopmentPhase::YearOfPlentyActive { two_left } => if *two_left {
                    2
                } else {
                    1
                },
                _ => 0,
            };
            int_array1_put(array, index, pre_roll);
            int_array1_put(array, index + 1, ready);
            int_array1_put(array, index + 2, roads);
            int_array1_put(array, index + 3, picks);
        },
        Phase::OutOfTurn => {},
    }
}

impl PyCatanObservation {
    /// The board array for `player`: `format.width` by `format.height` cells
    /// of `13 + 2 * seats` channels, holding `board_value` at every index.
    pub fn generate_board<F: Fn(Coord) -> (usize, usize)>(
        format: &EncodingFormat<F>,
        player: u8,
        state: &GameState,
    ) -> (board: IntArray3)
        requires
            state.wf(),
            player < state.seats(),
            format.callable_on(state),
            format.within_grid(state),
            shape_fits(format.width as int, format.height as int, board_depth(state.seats())),
        ensures
            int_array3_dim(board) == (
                format.width as nat,
                format.height as nat,
                board_depth(state.seats()) as nat,
            ),
            forall|x: int, y: int, ch: int|
                index_in_dim(int_array3_dim(board), x, y, ch) ==> #[trigger] int_array3_cells(
                    board,
                )[(x, y, ch)] == board_value(format.cell_map(), *state, player as int, x, y, ch),
    {
        let player_count = state.player_count();
        let seats = player_count as usize;
        let depth: usize = 13 + 2 * seats;
        let mut board = int_array3_zeros(format.width, format.height, depth);
        let ghost cells = format.cell_map();
        let ghost dim = (format.width as nat, format.height as nat, depth as nat);

        // Hexes: channels 0 to 6.
        let mut i: usize = 0;
        while i < state.hexes.len()
            invariant
                i <= state.hexes@.len(),
                format.callable_on(state),
                format.within_grid(state),
                cells == format.cell_map(),
                depth == 13 + 2 * seats,
                dim == (format.width as nat, format.height as nat, depth as nat),
                int_array3_dim(board) == dim,
                forall|x: int, y: int, ch: int|
                    index_in_dim(dim, x, y, ch) ==> #[trigger] int_array3_cells(board)[(x, y, ch)]
                        == if ch < ROAD_CHANNELS {
                        hexes_value(cells, state.hexes@, state.thief_hex, i as nat, x, y, ch)
                    } else {
                        0
                    },
            decreases state.hexes@.len() - i,
        {
            let site = state.hexes[i];
            match site.hex {
                Hex::Land(land) => {
                    let (x, y) = format.locate(site.coord);
                    match land {
                        LandHex::Desert => {
                            int_array3_put(&mut board, x, y, DESERT_CHANNEL, 1);
                        },
                        LandHex::Prod(resource, number) => {
                            int_array3_put(&mut board, x, y, resource.to_usize(), number as i32);
                        },
                    }
                    if site.coord == state.thief_hex {
                        int_array3_put(&mut board, x, y, ROBBER_CHANNEL, 1);
                    }
                },
                Hex::Water => {},
            }
            i += 1;
        }

        // Paths: one channel for each seat, by its offset from the player.
        let mut j: usize = 0;
        while j < state.paths.len()
            invariant
                j <= state.paths@.len(),
                state.wf(),
                player < state.seats(),
                seats == state.seats(),
                player_count == seats,
                format.callable_on(state),
                format.within_grid(state),
                cells == format.cell_map(),
                depth == 13 + 2 * seats,
                dim == (format.width as nat, format.height as nat, depth as nat),
                int_array3_dim(board) == dim,
                forall|x: int, y: int, ch: int|
                    index_in_dim(dim, x, y, ch) ==> #[trigger] int_array3_cells(board)[(x, y, ch)]
                        == if ch < ROAD_CHANNELS {
                        hexes_value(
                            cells,
                            state.hexes@,
                            state.thief_hex,
                            state.hexes@.len(),
                            x,
                            y,
                            ch,
                        )
                    } else if ch < harbor_channels(seats as int) {
                        paths_value(
                            cells,
                            state.paths@,
                            player as int,
                            seats as int,
                            j as nat,
                            x,
                            y,
                            ch,
                        )
                    } else {
                        0
                    },
            decreases state.paths@.len() - j,
        {
            let site = state.paths[j];
            match site.road {
                Some(owner) => {
                    let offset = player_id_to_relative(player, owner, player_count);
                    let (x, y) = format.locate(site.coord);
                    int_array3_put(&mut board, x, y, ROAD_CHANNELS + offset as usize, 1);
                },
                None => {},
            }
            j += 1;
        }

        // Intersections: six harbor channels, then one building channel for
        // each seat, by its offset from the player.
        let c_harbor: usize = 7 + seats;
        let c_buildings: usize = c_harbor + 6;
        let mut k: usize = 0;
        while k < state.intersections.len()
            invariant
                k <= state.intersections@.len(),
                state.wf(),
                player < state.seats(),
                seats == state.seats(),
                player_count == seats,
                format.callable_on(state),
                format.within_grid(state),
                cells == format.cell_map(),
                depth == 13 + 2 * seats,
                c_harbor == 7 + seats,
                c_buildings == 13 + seats,
                dim == (format.width as nat, format.height as nat, depth as nat),
                int_array3_dim(board) == dim,
                forall|x: int, y: int, ch: int|
                    index_in_dim(dim, x, y, ch) ==> #[trigger] int_array3_cells(board)[(x, y, ch)]
                        == if ch < ROAD_CHANNELS {
                        hexes_value(
                            cells,
                            state.hexes@,
                            state.thief_hex,
                            state.hexes@.len(),
                            x,
                            y,
                            ch,
                        )
                    } else if ch < harbor_channels(seats as int) {
                        paths_value(
                            cells,
                            state.paths@,
                            player as int,
                            seats as int,
                            state.paths@.len(),
                            x,
                            y,
                            ch,
                        )
                    } else {
                        intersections_value(
                            cells,
                            state.intersections@,
                            player as int,
                            seats as int,
                            k as nat,
                            x,
                            y,
                            ch,
                        )
                    },
            decreases state.intersections@.len() - k,
        {
            let site = state.intersections[k];
            let (x, y) = format.locate(site.coord);
            match site.harbor {
                Harbor::Generic => {
                    int_array3_put(&mut board, x, y, c_harbor + 5, 1);
                },
                Harbor::Special(resource) => {
                    int_array3_put(&mut board, x, y, c_harbor + resource.to_usize(), 1);
                },
                Harbor::Absent => {},
            }
            match site.building {
                Some(b) => {
                    let offset = player_id_to_relative(player, b.owner, player_count);
                    let level: i32 = if b.is_city { 2 } else { 1 };
                    int_array3_put(&mut board, x, y, c_buildings + offset as usize, level);
                },
                None => {},
            }
            k += 1;
        }
        board
    }

    /// Writes the 27 cells of a hand in full into `array`, from `index` on.
    pub fn fill_flat_visible(
        array: &mut IntArray1,
        index: usize,
        hand: &PlayerHand,
        has_longest_road: bool,
        has_largest_army: bool,
    )
        requires
            index + OWN_CELLS <= int_array1_cells(*old(array)).len() <= usize::MAX,
        ensures
            int_array1_cells(*final(array)) == overlay(
                int_array1_cells(*old(array)),
                index as int,
                own_block(*hand, has_longest_road, has_largest_army),
            ),
    {
        let ghost before = int_array1_cells(*array);
        let ghost block = own_block(*hand, has_longest_road, has_largest_army);
        let mut res: usize = 0;
        while res < 5
            invariant
                res <= 5,
                index + OWN_CELLS <= before.len() <= usize::MAX,
                block == own_block(*hand, has_longest_road, has_largest_army),
                int_array1_cells(*array) == overlay(before, index as int, block.take(res as int)),
            decreases 5 - res,
        {
            int_array1_put(array, index + res, hand.resources[res] as i32);
            res += 1;
        }
        int_array1_put(array, index + 5, hand.road_pieces as i32);
        int_array1_put(array, index + 6, hand.settlement_pieces as i32);
        int_array1_put(array, index + 7, hand.city_pieces as i32);
        int_array1_put(array, index + 8, hand.knights as i32);
        let mut d: usize = 0;
        while d < 5
            invariant
                d <= 5,
                index + OWN_CELLS <= before.len() <= usize::MAX,
                block == own_block(*hand, has_longest_road, has_largest_army),
                int_array1_cells(*array) == overlay(before, index as int, block.take(9 + d)),
            decreases 5 - d,
        {
            int_array1_put(array, index + 9 + d, hand.development_cards[d] as i32);
            d += 1;
        }
        let mut n: usize = 0;
        while n < 5
            invariant
                n <= 5,
                index + OWN_CELLS <= before.len() <= usize::MAX,
                block == own_block(*hand, has_longest_road, has_largest_army),
                int_array1_cells(*array) == overlay(before, index as int, block.take(14 + n)),
            decreases 5 - n,
        {
            int_array1_put(array, index + 14 + n, hand.new_development_cards[n] as i32);
            n += 1;
        }
        let mut h: usize = 0;
        while h < 6
            invariant
                h <= 6,
                index + OWN_CELLS <= before.len() <= usize::MAX,
                block == own_block(*hand, has_longest_road, has_largest_army),
                int_array1_cells(*array) == overlay(before, index as int, block.take(19 + h)),
            decreases 6 - h,
        {
            int_array1_put(array, index + 19 + h, flag_of(hand.harbor[h]));
            h += 1;
        }
        int_array1_put(array, index + 25, flag_of(has_longest_road));
        int_array1_put(array, index + 26, flag_of(has_largest_army));
    }

    /// Writes the 8 cells of a hand in summary into `array`, from `index` on.
    pub fn fill_flat_concealed(
        array: &mut IntArray1,
        index: usize,
        hand: &PlayerHand,
        has_longest_road: bool,
        has_largest_army: bool,
    )
        requires
            index + SUMMARY_CELLS <= int_array1_cells(*old(array)).len() <= usize::MAX,
        ensures
            int_array1_cells(*final(array)) == overlay(
                int_array1_cells(*old(array)),
                index as int,
                summary_block(*hand, has_longest_road, has_largest_army),
            ),
    {
        int_array1_put(array, index, total(&hand.resources) as i32);
        int_array1_put(array, index + 1, hand.road_pieces as i32);
        int_array1_put(array, index + 2, hand.settlement_pieces as i32);
        int_array1_put(array, index + 3, hand.city_pieces as i32);
        int_array1_put(array, index + 4, hand.knights as i32);
        int_array1_put(array, index + 5, total(&hand.development_cards) as i32);
        int_array1_put(array, index + 6, flag_of(has_longest_road));
        int_array1_put(array, index + 7, flag_of(has_largest_army));
    }

    /// The flat array for `player`: `29 + 8 * seats` cells, holding
    /// `flat_layout`.
    pub fn generate_flat(player: u8, state: &GameState, phase: &Phase) -> (flat: IntArray1)
        requires
            state.wf(),
            player < state.seats(),
        ensures
            int_array1_cells(flat) == flat_layout(*state, player as int, *phase),
            int_array1_cells(flat).len() == flat_len(state.seats()),
    {
        let player_count = state.player_count();
        let seats = player_count as usize;
        let total_len: usize = 29 + seats * 8;
        let mut flat = int_array1_zeros(total_len);
        let ghost own = own_block(
            state.hands@[player as int],
            state.has_longest_road(player as int),
            state.has_largest_army(player as int),
        );
        // The player's own hand: 27 cells.
        let hand = &state.hands[player as usize];
        PyCatanObservation::fill_flat_visible(
            &mut flat,
            0,
            hand,
            holds(state.longest_road, player),
            holds(state.largest_army, player),
        );
        // The opponents: 8 cells each.
        let mut opp: u8 = 1;
        while opp < player_count
            invariant
                1 <= opp <= player_count,
                state.wf(),
                player < state.seats(),
                player_count == state.seats(),
                seats == player_count,
                total_len == 29 + seats * 8,
                own == own_block(
                    state.hands@[player as int],
                    state.has_longest_road(player as int),
                    state.has_largest_army(player as int),
                ),
                int_array1_cells(flat) == own + opponent_blocks(*state, player as int, opp as nat)
                    + blank((total_len - 19 - 8 * opp) as nat),
            decreases player_count - opp,
        {
            let player_index: usize = 19 + (opp as usize) * 8;
            let seat = offset_to_player_id(player, opp, player_count);
            let hand = &state.hands[seat as usize];
            proof {
                lemma_opponent_blocks_len(*state, player as int, opp as nat);
            }
            PyCatanObservation::fill_flat_concealed(
                &mut flat,
                player_index,
                hand,
                holds(state.longest_road, seat),
                holds(state.largest_army, seat),
            );
            opp += 1;
        }
        let c_state: usize = 19 + seats * 8;
        let c_phase: usize = c_state + 6;
        proof {
            lemma_opponent_blocks_len(*state, player as int, seats as nat);
        }
        fill_bank(&mut flat, c_state, state);
        fill_phase(&mut flat, c_phase, phase);
        flat
    }

    /// The hidden array for `player`: 27 cells for each opponent, by
    /// increasing offset, of which the first 8 hold the opponent's summary
    /// and the rest are 0.
    pub fn generate_hidden(player: u8, state: &GameState, _phase: &Phase) -> (hidden: IntArray1)
        requires
            state.wf(),
            player < state.seats(),
        ensures
            int_array1_cells(hidden) == hidden_layout(*state, player as int),
            int_array1_cells(hidden).len() == hidden_len(state.seats()),
    {
        let player_count = state.player_count();
        let seats = player_count as usize;
        let total_len: usize = (seats - 1) * 27;
        let mut hidden = int_array1_zeros(total_len);
        let mut opp: u8 = 1;
        while opp < player_count
            invariant
                1 <= opp <= player_count,
                state.wf(),
                player < state.seats(),
                player_count == state.seats(),
                seats == player_count,
                total_len == (seats - 1) * 27,
                int_array1_cells(hidden) == hidden_blocks(*state, player as int, opp as nat)
                    + blank((total_len - 27 * (opp - 1)) as nat),
            decreases player_count - opp,
        {
            let player_index: usize = (opp as usize - 1) * 27;
            let seat = offset_to_player_id(player, opp, player_count);
            let hand = &state.hands[seat as usize];
            proof {
                lemma_hidden_blocks_len(*state, player as int, opp as nat);
            }
            PyCatanObservation::fill_flat_concealed(
                &mut hidden,
                player_index,
                hand,
                holds(state.longest_road, seat),
                holds(state.largest_army, seat),
            );
            opp += 1;
        }
        proof {
            lemma_hidden_blocks_len(*state, player as int, seats as nat);
        }
        hidden
    }

    /// The observation for `player`: the board, the flat array, the hidden
    /// array where the format includes it, and the legal actions as they were
    /// handed in.
    pub fn new_array<F: Fn(Coord) -> (usize, usize)>(
        format: &EncodingFormat<F>,
        player: u8,
        state: &GameState,
        phase: &Phase,
        legal_actions: BoolArray1,
    ) -> (observation: PyCatanObservation)
        requires
            state.wf(),
            player < state.seats(),
            format.callable_on(state),
            format.within_grid(state),
            shape_fits(format.width as int, format.height as int, board_depth(state.seats())),
        ensures
            observation.actions == legal_actions,
            observation.shows_board(format.cell_map(), format.width, format.height, *state, player),
            observation.shows_hands(format.include_hidden, *state, player, *phase),
    {
        let board = PyCatanObservation::generate_board(format, player, state);
        let flat = PyCatanObservation::generate_flat(player, state, phase);
        let hidden = if format.include_hidden {
            Some(PyCatanObservation::generate_hidden(player, state, phase))
        } else {
            None
        };
        PyCatanObservation { actions: legal_actions, board, flat, hidden }
    }

    /// The observation for `player`, with a copy of the board that the game
    /// keeps for that seat in place of a board encoded afresh.
    pub fn new_python_array<F: Fn(Coord) -> (usize, usize)>(
        format: &EncodingFormat<F>,
        player: u8,
        py_state: &PythonState,
        state: &GameState,
        phase: &Phase,
        legal_actions: BoolArray1,
    ) -> (observation: PyCatanObservation)
        requires
            state.wf(),
            player < state.seats(),
            player < py_state.boards@.len(),
        ensures
            observation.actions == legal_actions,
            int_array3_dim(observation.board) == int_array3_dim(py_state.boards@[player as int]),
            int_array3_cells(observation.board) == int_array3_cells(
                py_state.boards@[player as int],
            ),
            observation.shows_hands(format.include_hidden, *state, player, *phase),
    {
        let board = int_array3_clone(&py_state.boards[player as usize]);
        let flat = PyCatanObservation::generate_flat(player, state, phase);
        let hidden = if format.include_hidden {
            Some(PyCatanObservation::generate_hidden(player, state, phase))
        } else {
            None
        };
        PyCatanObservation { actions: legal_actions, board, flat, hidden }
    }

    /// The board array has the shape of the format and holds `board_value`
    /// for `player` at every index.
    pub open spec fn shows_board(
        &self,
        cells: spec_fn(Coord) -> (int, int),
        width: usize,
        height: usize,
        state: GameState,
        player: u8,
    ) -> bool {
        &&& int_array3_dim(self.board) == (
            width as nat,
            height as nat,
            board_depth(state.seats()) as nat,
        )
        &&& forall|x: int, y: int, ch: int|
            index_in_dim(int_array3_dim(self.board), x, y, ch) ==> #[trigger] int_array3_cells(
                self.board,
            )[(x, y, ch)] == board_value(cells, state, player as int, x, y, ch)
    }

    /// The flat array holds `flat_layout` for `player`, and the hidden array
    /// is there exactly where `include_hidden` asks for it and holds
    /// `hidden_layout`.
    pub open spec fn shows_hands(
        &self,
        include_hidden: bool,
        state: GameState,
        player: u8,
        phase: Phase,
    ) -> bool {
        &&& int_array1_cells(self.flat) == flat_layout(state, player as int, phase)
        &&& self.hidden is Some <==> include_hidden
        &&& self.hidden matches Some(hidden) ==> int_array1_cells(hidden) == hidden_layout(
            state,
            player as int,
        )
    }
}

} // verus!
