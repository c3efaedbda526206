use pycatan::arrays::IntArray3;
use pycatan::format::EncodingFormat;
use pycatan::observation::PyCatanObservation;
use pycatan::relative::offset_to_player_id;
use pycatan::state::{
    Building, Coord, DevelopmentPhase, GameState, Harbor, Hex, HexSite, IntersectionSite, LandHex,
    PathSite, Phase, PlayerHand, Resource, TurnPhase,
};

fn grid(c: Coord) -> (usize, usize) {
    (c.x as usize, c.y as usize)
}

fn layout() -> EncodingFormat<fn(Coord) -> (usize, usize)> {
    EncodingFormat { width: 4, height: 4, map: grid, include_hidden: true }
}

fn hand_of(seat: u8) -> PlayerHand {
    PlayerHand {
        resources: [seat, 2 * seat, 1, 0, 3],
        road_pieces: 15 - seat,
        settlement_pieces: 5 - seat,
        city_pieces: 4,
        knights: seat % 2,
        development_cards: [seat, 0, 0, 1, 0],
        new_development_cards: [0, 0, seat, 0, 0],
        harbor: [seat == 0, seat == 1, seat == 2, seat == 3, false, true],
    }
}

fn game() -> GameState {
    GameState {
        hands: (0..4).map(hand_of).collect(),
        hexes: vec![
            HexSite { coord: Coord { x: 1, y: 1 }, hex: Hex::Land(LandHex::Prod(Resource::Grain, 6)) },
            HexSite { coord: Coord { x: 2, y: 1 }, hex: Hex::Land(LandHex::Desert) },
        ],
        thief_hex: Coord { x: 2, y: 1 },
        paths: vec![
            PathSite { coord: Coord { x: 0, y: 0 }, road: Some(3) },
            PathSite { coord: Coord { x: 0, y: 1 }, road: Some(1) },
            PathSite { coord: Coord { x: 0, y: 2 }, road: None },
            PathSite { coord: Coord { x: 0, y: 0 }, road: Some(0) },
        ],
        intersections: vec![
            IntersectionSite {
                coord: Coord { x: 3, y: 3 },
                harbor: Harbor::Special(Resource::Lumber),
                building: Some(Building { owner: 2, is_city: false }),
            },
            IntersectionSite {
                coord: Coord { x: 3, y: 2 },
                harbor: Harbor::Absent,
                building: Some(Building { owner: 3, is_city: true }),
            },
        ],
        longest_road: Some(3),
        largest_army: Some(1),
        bank_resources: [9, 8, 7, 6, 5],
        bank_development_cards: [3, 1, 1, 1, 2],
    }
}

fn rotated(state: &GameState, shift: u8) -> GameState {
    let count = state.hands.len() as u8;
    let moved = |seat: u8| offset_to_player_id(seat, shift, count);
    let mut hands = state.hands.clone();
    for seat in 0..count {
        hands[moved(seat) as usize] = state.hands[seat as usize];
    }
    GameState {
        hands,
        hexes: state.hexes.clone(),
        thief_hex: state.thief_hex,
        paths: state
            .paths
            .iter()
            .map(|p| PathSite { coord: p.coord, road: p.road.map(moved) })
            .collect(),
        intersections: state
            .intersections
            .iter()
            .map(|i| IntersectionSite {
                coord: i.coord,
                harbor: i.harbor,
                building: i.building.map(|b| Building { owner: moved(b.owner), is_city: b.is_city }),
            })
            .collect(),
        longest_road: state.longest_road.map(moved),
        largest_army: state.largest_army.map(moved),
        bank_resources: state.bank_resources,
        bank_development_cards: state.bank_development_cards,
    }
}

fn cells(board: &IntArray3) -> Vec<i32> {
    let (w, h, d) = board.shape();
    let mut all = Vec::new();
    for x in 0..w {
        for y in 0..h {
            for z in 0..d {
                all.push(board.get(x, y, z).unwrap());
            }
        }
    }
    all
}

#[test]
fn renumbering_the_seats_changes_nothing() {
    let state = game();
    let phase = Phase::Turn {
        player: 0,
        turn_phase: TurnPhase::Free,
        development_phase: DevelopmentPhase::RoadBuildingActive { two_left: true },
    };
    for shift in 0..4u8 {
        let turned = rotated(&state, shift);
        assert!(turned.is_well_formed());
        for observer in 0..4u8 {
            let moved = offset_to_player_id(observer, shift, 4);
            assert_eq!(
                cells(&PyCatanObservation::generate_board(&layout(), moved, &turned)),
                cells(&PyCatanObservation::generate_board(&layout(), observer, &state))
            );
            assert_eq!(
                PyCatanObservation::generate_flat(moved, &turned, &phase).to_vec(),
                PyCatanObservation::generate_flat(observer, &state, &phase).to_vec()
            );
            assert_eq!(
                PyCatanObservation::generate_hidden(moved, &turned, &phase).to_vec(),
                PyCatanObservation::generate_hidden(observer, &state, &phase).to_vec()
            );
        }
    }
}

#[test]
fn observers_see_a_seat_at_its_offset() {
    let state = game();
    // the road of seat 1 at cell (0, 1) and the city of seat 3 at cell (3, 2)
    for observer in 0..4u8 {
        let board = PyCatanObservation::generate_board(&layout(), observer, &state);
        let road_offset = (1 + 4 - observer as usize) % 4;
        let city_offset = (3 + 4 - observer as usize) % 4;
        for offset in 0..4 {
            let road = if offset == road_offset { 1 } else { 0 };
            let city = if offset == city_offset { 2 } else { 0 };
            assert_eq!(board.get(0, 1, 7 + offset), Some(road));
            assert_eq!(board.get(3, 2, 13 + 4 + offset), Some(city));
        }
        let flat = PyCatanObservation::generate_flat(observer, &state, &Phase::OutOfTurn).to_vec();
        if road_offset > 0 {
            // seat 1 holds the largest army and no longest road
            let block = 19 + 8 * road_offset;
            assert_eq!(&flat[block + 6..block + 8], &[0, 1]);
        } else {
            assert_eq!(&flat[25..27], &[0, 1]);
        }
    }
}

#[test]
fn a_later_road_in_the_same_cell_adds_its_own_channel() {
    let board = PyCatanObservation::generate_board(&layout(), 0, &game());
    // seats 3 and 0 both have a road at cell (0, 0)
    assert_eq!(board.get(0, 0, 7), Some(1));
    assert_eq!(board.get(0, 0, 7 + 3), Some(1));
    assert_eq!(board.get(0, 0, 7 + 1), Some(0));
}

#[test]
fn opponents_show_totals_only() {
    let state = game();
    let mut reshuffled = game();
    // seat 2 trades cards around without changing any total
    reshuffled.hands[2].resources = [0, 0, 0, 10, 0];
    reshuffled.hands[2].development_cards = [0, 1, 0, 1, 1];
    reshuffled.hands[2].new_development_cards = [5, 5, 5, 5, 5];
    reshuffled.hands[2].harbor = [true; 6];
    assert_eq!(state.hands[2].resources.iter().map(|c| *c as u32).sum::<u32>(), 10);
    for observer in [0u8, 1, 3] {
        assert_eq!(
            PyCatanObservation::generate_flat(observer, &state, &Phase::OutOfTurn).to_vec(),
            PyCatanObservation::generate_flat(observer, &reshuffled, &Phase::OutOfTurn).to_vec()
        );
        assert_eq!(
            PyCatanObservation::generate_hidden(observer, &state, &Phase::OutOfTurn).to_vec(),
            PyCatanObservation::generate_hidden(observer, &reshuffled, &Phase::OutOfTurn).to_vec()
        );
        assert_eq!(
            cells(&PyCatanObservation::generate_board(&layout(), observer, &state)),
            cells(&PyCatanObservation::generate_board(&layout(), observer, &reshuffled))
        );
    }
    // the seat itself sees the difference
    assert_ne!(
        PyCatanObservation::generate_flat(2, &state, &Phase::OutOfTurn).to_vec(),
        PyCatanObservation::generate_flat(2, &reshuffled, &Phase::OutOfTurn).to_vec()
    );
}

#[test]
fn own_cells_tell_hands_apart() {
    let state = game();
    let mut other = game();
    other.hands[1].resources = [0, 3, 1, 0, 3];
    let before = PyCatanObservation::generate_flat(1, &state, &Phase::OutOfTurn).to_vec();
    let after = PyCatanObservation::generate_flat(1, &other, &Phase::OutOfTurn).to_vec();
    assert_eq!(&before[..5], &[1, 2, 1, 0, 3]);
    assert_eq!(&after[..5], &[0, 3, 1, 0, 3]);
    assert_eq!(&before[5..], &after[5..]);
}
