use pycatan::arrays::{BoolArray1, IntArray1, IntArray3};
use pycatan::bridge::{
    on_delivery, on_play, on_start, to_record, BridgeError, Delivery, Dispatch, HiddenField,
    Stage, WireRecord,
};
use pycatan::environment::{seating_order, tally, MultiEnvironment, SingleEnvironment};
use pycatan::format::EncodingFormat;
use pycatan::observation::PyCatanObservation;
use pycatan::state::{Coord, GameState, Phase, PlayerHand};
use rand::rngs::SmallRng;
use rand::SeedableRng;

fn origin(_c: Coord) -> (usize, usize) {
    (0, 0)
}

fn format(include_hidden: bool) -> EncodingFormat<fn(Coord) -> (usize, usize)> {
    EncodingFormat { width: 3, height: 2, map: origin, include_hidden }
}

fn state(seats: usize) -> GameState {
    let hand = PlayerHand {
        resources: [1, 0, 0, 0, 0],
        road_pieces: 15,
        settlement_pieces: 5,
        city_pieces: 4,
        knights: 0,
        development_cards: [0; 5],
        new_development_cards: [0; 5],
        harbor: [false; 6],
    };
    GameState {
        hands: vec![hand; seats],
        hexes: vec![],
        thief_hex: Coord { x: 0, y: 0 },
        paths: vec![],
        intersections: vec![],
        longest_road: None,
        largest_army: None,
        bank_resources: [19; 5],
        bank_development_cards: [5; 5],
    }
}

fn observation(seats: usize, seat: u8, hidden: bool) -> PyCatanObservation {
    PyCatanObservation::new_array(
        &format(hidden),
        seat,
        &state(seats),
        &Phase::OutOfTurn,
        BoolArray1::from_vec(vec![true, false, true]),
    )
}

fn decision(seats: usize, seat: u8, hidden: bool) -> Delivery {
    Delivery::Decision { seat, observation: observation(seats, seat, hidden) }
}

fn addressed(seat: u8) -> Delivery {
    Delivery::Decision { seat, observation: observation(3, 0, false) }
}

fn is_present(field: &HiddenField) -> bool {
    matches!(field, HiddenField::Present(_))
}

fn is_absent(field: &HiddenField) -> bool {
    matches!(field, HiddenField::Absent)
}

fn is_empty(field: &HiddenField) -> bool {
    matches!(field, HiddenField::Empty)
}

fn shape(board: &Option<IntArray3>) -> (usize, usize, usize) {
    board.as_ref().unwrap().shape()
}

fn len(array: &Option<IntArray1>) -> usize {
    array.as_ref().unwrap().to_vec().len()
}

fn err(outcome: Result<WireRecord, BridgeError>) -> BridgeError {
    match outcome {
        Ok(_) => panic!("the delivery was accepted"),
        Err(e) => e,
    }
}

#[test]
fn record_of_an_observation_without_hidden() {
    let record = to_record(false, Some((2, observation(3, 2, false))));
    assert_eq!(record.seat, 2);
    assert_eq!(shape(&record.board), (3, 2, 19));
    assert_eq!(len(&record.flat), 53);
    assert_eq!(record.actions.as_ref().unwrap().to_vec(), vec![true, false, true]);
    assert!(is_absent(&record.hidden));
    assert!(!record.terminal);
    assert_eq!(record.len(), 5);
}

#[test]
fn record_of_an_observation_with_hidden() {
    let record = to_record(true, Some((1, observation(3, 1, true))));
    assert_eq!(record.seat, 1);
    assert!(!record.terminal);
    assert_eq!(record.len(), 6);
    match record.hidden {
        HiddenField::Present(hidden) => assert_eq!(hidden.to_vec().len(), 54),
        _ => panic!("the hidden array is missing"),
    }
}

#[test]
fn record_drops_a_hidden_array_that_was_not_asked_for() {
    let record = to_record(false, Some((0, observation(2, 0, true))));
    assert!(is_absent(&record.hidden));
    assert_eq!(record.len(), 5);
}

#[test]
fn terminal_records_carry_nothing() {
    let plain = to_record(false, None);
    assert_eq!(plain.seat, 0);
    assert!(plain.terminal);
    assert!(plain.board.is_none() && plain.flat.is_none() && plain.actions.is_none());
    assert!(is_absent(&plain.hidden));
    assert_eq!(plain.len(), 5);
    let privileged = to_record(true, None);
    assert!(privileged.terminal);
    assert!(privileged.board.is_none() && privileged.flat.is_none());
    assert!(privileged.actions.is_none());
    assert!(is_empty(&privileged.hidden));
    assert_eq!(privileged.len(), 6);
}

#[test]
fn start_is_in_order_from_idle_only() {
    assert_eq!(on_start(Stage::Idle), (Stage::Receiving, Ok(())));
    assert_eq!(on_start(Stage::Receiving), (Stage::Receiving, Err(BridgeError::ProtocolMisuse)));
    assert_eq!(
        on_start(Stage::Deciding { seat: 1 }),
        (Stage::Deciding { seat: 1 }, Err(BridgeError::ProtocolMisuse))
    );
    assert_eq!(on_start(Stage::Broken), (Stage::Broken, Err(BridgeError::ChannelDisconnected)));
}

#[test]
fn play_is_in_order_for_the_seat_asked_only() {
    let asked = Stage::Deciding { seat: 1 };
    assert_eq!(on_play(asked, 3, 1, 77), (Stage::Receiving, Ok(Dispatch { seat: 1, action: 77 })));
    assert_eq!(on_play(asked, 3, 0, 77), (asked, Err(BridgeError::ProtocolMisuse)));
    assert_eq!(on_play(asked, 3, 2, 77), (asked, Err(BridgeError::ProtocolMisuse)));
    assert_eq!(on_play(Stage::Idle, 3, 0, 1), (Stage::Idle, Err(BridgeError::ProtocolMisuse)));
    assert_eq!(
        on_play(Stage::Receiving, 3, 0, 1),
        (Stage::Receiving, Err(BridgeError::ProtocolMisuse))
    );
    let broken = on_play(Stage::Broken, 3, 0, 1);
    assert_eq!(broken, (Stage::Broken, Err(BridgeError::ChannelDisconnected)));
}

#[test]
fn play_for_a_seat_that_does_not_exist_is_refused() {
    let asked = Stage::Deciding { seat: 5 };
    assert_eq!(on_play(asked, 3, 5, 7), (asked, Err(BridgeError::ProtocolMisuse)));
    assert_eq!(on_play(asked, 5, 5, 7), (asked, Err(BridgeError::ProtocolMisuse)));
    assert_eq!(on_play(asked, 6, 5, 7), (Stage::Receiving, Ok(Dispatch { seat: 5, action: 7 })));
    assert_eq!(on_play(asked, 0, 0, 7), (asked, Err(BridgeError::ProtocolMisuse)));
    assert_eq!(on_play(Stage::Broken, 3, 3, 7), (Stage::Broken, Err(BridgeError::ProtocolMisuse)));
    assert_eq!(on_play(Stage::Idle, 3, 255, 7), (Stage::Idle, Err(BridgeError::ProtocolMisuse)));
}

#[test]
fn delivery_for_a_seat_that_does_not_exist_is_refused() {
    let (stage, record) = on_delivery(Stage::Receiving, 3, false, addressed(3));
    assert_eq!(stage, Stage::Receiving);
    assert_eq!(err(record), BridgeError::ProtocolMisuse);
    let (stage, record) = on_delivery(Stage::Receiving, 1, false, addressed(1));
    assert_eq!(stage, Stage::Receiving);
    assert_eq!(err(record), BridgeError::ProtocolMisuse);
    let (stage, record) = on_delivery(Stage::Receiving, 0, false, addressed(0));
    assert_eq!(stage, Stage::Receiving);
    assert_eq!(err(record), BridgeError::ProtocolMisuse);
    let (stage, record) = on_delivery(Stage::Receiving, 0, false, Delivery::Terminal);
    assert_eq!(stage, Stage::Idle);
    assert!(record.ok().unwrap().terminal);
    let (stage, record) = on_delivery(Stage::Receiving, 4, false, addressed(3));
    assert_eq!(stage, Stage::Deciding { seat: 3 });
    assert_eq!(record.ok().unwrap().seat, 3);
}

#[test]
fn deliveries_are_in_order_while_receiving_only() {
    let (stage, record) = on_delivery(Stage::Receiving, 3, false, decision(3, 2, false));
    assert_eq!(stage, Stage::Deciding { seat: 2 });
    assert_eq!(record.ok().unwrap().seat, 2);
    let (stage, record) = on_delivery(Stage::Receiving, 3, false, Delivery::Terminal);
    assert_eq!(stage, Stage::Idle);
    assert!(record.ok().unwrap().terminal);
    let (stage, record) = on_delivery(Stage::Receiving, 3, false, Delivery::Disconnected);
    assert_eq!(stage, Stage::Broken);
    assert_eq!(err(record), BridgeError::ChannelDisconnected);
    let (stage, record) = on_delivery(Stage::Idle, 3, false, Delivery::Terminal);
    assert_eq!(stage, Stage::Idle);
    assert_eq!(err(record), BridgeError::ProtocolMisuse);
    let (stage, record) = on_delivery(Stage::Deciding { seat: 0 }, 3, false, decision(3, 1, false));
    assert_eq!(stage, Stage::Deciding { seat: 0 });
    assert_eq!(err(record), BridgeError::ProtocolMisuse);
    let (stage, record) = on_delivery(Stage::Broken, 3, false, Delivery::Terminal);
    assert_eq!(stage, Stage::Broken);
    assert_eq!(err(record), BridgeError::ChannelDisconnected);
}

#[test]
fn single_environment_plays_a_game() {
    let mut env = SingleEnvironment::new(&format(false), 2);
    assert_eq!(env.current_stage(), Stage::Idle);
    assert_eq!(env.start(), Ok(()));
    assert_eq!(env.current_stage(), Stage::Receiving);
    let first = env.deliver(decision(3, 0, false)).ok().unwrap();
    assert_eq!(shape(&first.board), (3, 2, 13 + 6));
    assert_eq!(len(&first.flat), 29 + 24);
    assert!(!first.terminal);
    assert!(is_absent(&first.hidden));
    for action in [4u16, 9, 0] {
        assert_eq!(env.play(action), Ok(Dispatch { seat: 0, action }));
        let next = env.deliver(decision(3, 0, false)).ok().unwrap();
        assert!(!next.terminal);
    }
    assert_eq!(env.play(11), Ok(Dispatch { seat: 0, action: 11 }));
    let last = env.deliver(Delivery::Terminal).ok().unwrap();
    assert!(last.terminal);
    assert!(last.board.is_none() && last.flat.is_none() && last.actions.is_none());
    assert!(!is_present(&last.hidden));
    assert_eq!(env.current_stage(), Stage::Idle);
    assert_eq!(env.result(Some((7, false))), Ok((7, false)));
    assert_eq!(env.result(Some((10, true))), Ok((10, true)));
    // the worker has gone on to the next game
    assert_eq!(env.start(), Ok(()));
}

#[test]
fn single_environment_with_hidden_detail() {
    let mut env = SingleEnvironment::new(&format(true), 3);
    assert_eq!(env.start(), Ok(()));
    let record = env.deliver(decision(4, 0, true)).ok().unwrap();
    assert_eq!(record.len(), 6);
    assert_eq!(shape(&record.board), (3, 2, 13 + 8));
    assert_eq!(len(&record.flat), 29 + 32);
    match record.hidden {
        HiddenField::Present(hidden) => assert_eq!(hidden.to_vec().len(), 3 * 27),
        _ => panic!("the hidden array is missing"),
    }
    assert_eq!(env.play(1), Ok(Dispatch { seat: 0, action: 1 }));
    let end = env.deliver(Delivery::Terminal).ok().unwrap();
    assert_eq!(end.len(), 6);
    assert!(is_empty(&end.hidden));
}

#[test]
fn single_environment_rejects_calls_out_of_order() {
    let mut env = SingleEnvironment::new(&format(false), 1);
    assert_eq!(env.play(3), Err(BridgeError::ProtocolMisuse));
    assert_eq!(err(env.deliver(Delivery::Terminal)), BridgeError::ProtocolMisuse);
    assert_eq!(env.current_stage(), Stage::Idle);
    assert_eq!(env.start(), Ok(()));
    assert_eq!(env.start(), Err(BridgeError::ProtocolMisuse));
    assert_eq!(env.play(3), Err(BridgeError::ProtocolMisuse));
    assert!(env.deliver(decision(2, 0, false)).is_ok());
    assert_eq!(env.start(), Err(BridgeError::ProtocolMisuse));
    assert_eq!(env.play(3), Ok(Dispatch { seat: 0, action: 3 }));
    assert_eq!(env.play(3), Err(BridgeError::ProtocolMisuse));
}

#[test]
fn single_environment_breaks_when_the_worker_is_gone() {
    let mut env = SingleEnvironment::new(&format(false), 2);
    assert_eq!(env.start(), Ok(()));
    assert_eq!(err(env.deliver(Delivery::Disconnected)), BridgeError::ChannelDisconnected);
    assert_eq!(env.current_stage(), Stage::Broken);
    assert_eq!(env.start(), Err(BridgeError::ChannelDisconnected));
    assert_eq!(env.play(0), Err(BridgeError::ChannelDisconnected));
    assert_eq!(env.result(Some((3, true))), Err(BridgeError::ChannelDisconnected));
    assert_eq!(err(env.deliver(Delivery::Terminal)), BridgeError::ChannelDisconnected);
    let mut other = SingleEnvironment::new(&format(false), 2);
    assert_eq!(other.result(None), Err(BridgeError::ChannelDisconnected));
    assert_eq!(other.current_stage(), Stage::Broken);
}

#[test]
fn multi_environment_rejects_the_wrong_seat() {
    let mut env = MultiEnvironment::new(&format(false), 3);
    assert_eq!(env.start(), Ok(()));
    let record = env.deliver(decision(3, 1, false)).ok().unwrap();
    assert_eq!(record.seat, 1);
    assert_eq!(env.play(0, 5), Err(BridgeError::ProtocolMisuse));
    assert_eq!(env.play(2, 5), Err(BridgeError::ProtocolMisuse));
    assert_eq!(env.play(200, 5), Err(BridgeError::ProtocolMisuse));
    // the rejected calls changed nothing: the seat asked may still answer
    assert_eq!(env.current_stage(), Stage::Deciding { seat: 1 });
    assert_eq!(env.play(1, 5), Ok(Dispatch { seat: 1, action: 5 }));
    assert_eq!(env.play(1, 5), Err(BridgeError::ProtocolMisuse));
}

#[test]
fn multi_environment_refuses_seats_it_does_not_have() {
    let mut env = MultiEnvironment::new(&format(false), 3);
    assert_eq!(env.start(), Ok(()));
    // a decision for seat 5 of 3 is not taken in
    assert_eq!(err(env.deliver(addressed(5))), BridgeError::ProtocolMisuse);
    assert_eq!(env.current_stage(), Stage::Receiving);
    assert_eq!(env.play(5, 7), Err(BridgeError::ProtocolMisuse));
    assert_eq!(env.play(3, 7), Err(BridgeError::ProtocolMisuse));
    assert_eq!(env.current_stage(), Stage::Receiving);
    // the worker is still there: the next delivery is taken in
    assert_eq!(env.deliver(decision(3, 2, false)).ok().unwrap().seat, 2);
    assert_eq!(env.play(3, 7), Err(BridgeError::ProtocolMisuse));
    assert_eq!(env.play(255, 7), Err(BridgeError::ProtocolMisuse));
    assert_eq!(env.current_stage(), Stage::Deciding { seat: 2 });
    assert_eq!(env.play(2, 7), Ok(Dispatch { seat: 2, action: 7 }));
    // an environment without seats accepts no action at all
    let mut empty = MultiEnvironment::new(&format(false), 0);
    assert_eq!(empty.start(), Ok(()));
    assert_eq!(err(empty.deliver(addressed(0))), BridgeError::ProtocolMisuse);
    assert_eq!(empty.play(0, 1), Err(BridgeError::ProtocolMisuse));
}

#[test]
fn single_environment_takes_decisions_for_seat_zero_only() {
    let mut env = SingleEnvironment::new(&format(false), 2);
    assert_eq!(env.start(), Ok(()));
    assert_eq!(err(env.deliver(addressed(1))), BridgeError::ProtocolMisuse);
    assert_eq!(err(env.deliver(addressed(2))), BridgeError::ProtocolMisuse);
    assert_eq!(env.current_stage(), Stage::Receiving);
    assert_eq!(env.play(4), Err(BridgeError::ProtocolMisuse));
    assert_eq!(env.deliver(decision(3, 0, false)).ok().unwrap().seat, 0);
    assert_eq!(env.current_stage(), Stage::Deciding { seat: 0 });
    assert_eq!(env.play(4), Ok(Dispatch { seat: 0, action: 4 }));
}

#[test]
fn multi_environment_follows_the_addressee() {
    let mut env = MultiEnvironment::new(&format(true), 3);
    assert_eq!(env.play(0, 1), Err(BridgeError::ProtocolMisuse));
    assert_eq!(env.start(), Ok(()));
    for seat in [2u8, 0, 1, 1, 0] {
        let record = env.deliver(decision(3, seat, true)).ok().unwrap();
        assert_eq!(record.seat, seat);
        assert_eq!(record.len(), 6);
        assert_eq!(env.current_stage(), Stage::Deciding { seat });
        assert_eq!(env.play(seat, 40 + seat as u16), Ok(Dispatch { seat, action: 40 + seat as u16 }));
    }
    assert!(env.deliver(Delivery::Terminal).ok().unwrap().terminal);
    assert_eq!(env.play(0, 1), Err(BridgeError::ProtocolMisuse));
}

#[test]
fn multi_result_gives_every_seat_its_score() {
    let mut env = MultiEnvironment::new(&format(false), 3);
    let (scores, winner) = env.result(&vec![(4, false), (10, true), (6, false)]).ok().unwrap();
    assert_eq!(scores.to_vec(), vec![4, 10, 6]);
    assert_eq!(winner, 1);
    assert_eq!(env.current_stage(), Stage::Idle);
}

#[test]
fn multi_result_without_a_full_set_is_a_disconnect() {
    let mut env = MultiEnvironment::new(&format(false), 3);
    let outcome = env.result(&vec![(4, false), (10, true)]);
    assert_eq!(outcome.err(), Some(BridgeError::ChannelDisconnected));
    assert_eq!(env.current_stage(), Stage::Broken);
    let again = env.result(&vec![(4, false), (10, true), (1, false)]);
    assert_eq!(again.err(), Some(BridgeError::ChannelDisconnected));
}

#[test]
fn multi_result_with_too_many_scores_is_refused() {
    let mut env = MultiEnvironment::new(&format(false), 2);
    let outcome = env.result(&vec![(4, false), (10, true), (6, false)]);
    assert_eq!(outcome.err(), Some(BridgeError::ProtocolMisuse));
    assert_eq!(env.current_stage(), Stage::Idle);
    let (scores, winner) = env.result(&vec![(4, false), (10, true)]).ok().unwrap();
    assert_eq!(scores.to_vec(), vec![4, 10]);
    assert_eq!(winner, 1);
    let mut empty = MultiEnvironment::new(&format(false), 0);
    let (scores, winner) = empty.result(&vec![]).ok().unwrap();
    assert_eq!(scores.to_vec(), Vec::<u8>::new());
    assert_eq!(winner, 0);
}

#[test]
fn winner_defaults_to_seat_zero() {
    let (scores, winner) = tally(&vec![(2, false), (3, false), (9, false)]);
    assert_eq!(scores.to_vec(), vec![2, 3, 9]);
    assert_eq!(winner, 0);
    let (scores, winner) = tally(&vec![]);
    assert_eq!(scores.to_vec(), Vec::<u8>::new());
    assert_eq!(winner, 0);
}

#[test]
fn last_flagged_seat_wins() {
    let (_, winner) = tally(&vec![(10, true), (3, false), (10, true), (1, false)]);
    assert_eq!(winner, 2);
    let (_, winner) = tally(&vec![(10, true)]);
    assert_eq!(winner, 0);
    let (scores, winner) = tally(&vec![(0, false), (255, true)]);
    assert_eq!(scores.to_vec(), vec![0, 255]);
    assert_eq!(winner, 1);
}

#[test]
fn seating_order_holds_every_seat_once() {
    let mut rng = SmallRng::seed_from_u64(2024);
    for players in [0usize, 1, 2, 3, 4, 6, 40] {
        let order = seating_order(players, &mut rng);
        let mut sorted = order.clone();
        sorted.sort();
        assert_eq!(sorted, (0..players).collect::<Vec<usize>>());
    }
}

#[test]
fn seating_order_is_shuffled() {
    let mut rng = SmallRng::seed_from_u64(7);
    let straight: Vec<usize> = (0..40).collect();
    let mut moved = false;
    for _ in 0..8 {
        if seating_order(40, &mut rng) != straight {
            moved = true;
        }
    }
    assert!(moved);
}
