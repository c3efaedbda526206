//! The two environments: one seat against scripted opponents, and every seat
//! played by the caller.
//!
//! An environment here is the deciding half of the bridge. It holds no
//! channel and does not block: the program around it reads and writes the
//! channels and tells the environment what came.

use crate::arrays::{ByteArray1, byte_array1_cells, byte_array1_put, byte_array1_zeros};
use crate::bridge::{
    BridgeError, Delivery, Dispatch, Stage, WireRecord, delivery_outcome, on_delivery, on_play,
    on_start, play_outcome, start_outcome,
};
use crate::format::EncodingFormat;
use crate::state::{Coord, MAX_PLAYERS};
use rand::rngs::SmallRng;
use rand::seq::SliceRandom;
use vstd::prelude::*;

verus! {

/// The small fast generator of the `rand` crate.
#[verifier::external_type_specification]
#[verifier::external_body]
pub struct ExSmallRng(SmallRng);

/// Calls `SliceRandom::shuffle` on the slice of `order`. Trusted: the vector
/// afterwards holds the same items as before, each as often as before, in
/// some order.
#[verifier::external_body]
fn shuffle_seats(order: &mut Vec<usize>, rng: &mut SmallRng)
    ensures
        final(order)@.to_multiset() == old(order)@.to_multiset(),
{
    order.shuffle(rng);
}

/// The seats `0..players` in a random order: every seat once.
pub fn seating_order(players: usize, rng: &mut SmallRng) -> (order: Vec<usize>)
    ensures
        order@.to_multiset() == Seq::new(players as nat, |i: int| i as usize).to_multiset(),
        order@.len() == players,
        forall|seat: usize| seat < players <==> order@.contains(seat),
        order@.no_duplicates(),
{
    let mut order: Vec<usize> = Vec::new();
    let mut seat: usize = 0;
    while seat < players
        invariant
            seat <= players,
            order@ == Seq::new(seat as nat, |i: int| i as usize),
        decreases players - seat,
    {
        order.push(seat);
        seat += 1;
    }
    let ghost seats = order@;
    shuffle_seats(&mut order, rng);
    proof {
        seats.to_multiset_ensures();
        order@.to_multiset_ensures();
        assert forall|s: usize| s < players <==> order@.contains(s) by {
            if s < players {
                assert(seats[s as int] == s);
            }
            assert(seats.contains(s) <==> seats.to_multiset().count(s) > 0);
        }
        seats.lemma_multiset_has_no_duplicates();
        order@.lemma_multiset_has_no_duplicates_conv();
    }
    order
}

/// An environment with one seat for the caller and scripted opponents.
pub struct SingleEnvironment {
    opponents: usize,
    include_hidden: bool,
    stage: Stage,
}

/// An environment in which the caller plays every seat.
pub struct MultiEnvironment {
    players: usize,
    include_hidden: bool,
    stage: Stage,
}

/// The seat that the results name as the winner: the last one whose result
/// carries the win flag, and seat 0 where none does.
pub open spec fn is_winner_of(results: Seq<(u8, bool)>, winner: int) -> bool {
    if exists|i: int| 0 <= i < results.len() && results[i].1 {
        &&& 0 <= winner < results.len()
        &&& results[winner].1
        &&& forall|i: int| winner < i < results.len() ==> !results[i].1
    } else {
        winner == 0
    }
}

impl SingleEnvironment {
    /// Seat numbers fit in a byte.
    #[verifier::type_invariant]
    spec fn seats_fit(self) -> bool {
        self.opponents < MAX_PLAYERS
    }

    /// The number of scripted opponents.
    pub closed spec fn opponents(&self) -> int {
        self.opponents as int
    }

    /// Whether observations carry the hidden array.
    pub closed spec fn include_hidden(&self) -> bool {
        self.include_hidden
    }

    /// Where the environment stands.
    pub closed spec fn stage(&self) -> Stage {
        self.stage
    }

    /// An environment for `opponents` scripted opponents. It is idle, and it
    /// includes hidden detail where the format does.
    pub fn new<F: Fn(Coord) -> (usize, usize)>(format: &EncodingFormat<F>, opponents: usize) -> (env:
        SingleEnvironment)
        requires
            opponents < MAX_PLAYERS,
        ensures
            env.opponents() == opponents,
            env.include_hidden() == format.include_hidden,
            env.stage() == Stage::Idle,
    {
        SingleEnvironment { opponents, include_hidden: format.include_hidden, stage: Stage::Idle }
    }

    /// Where the environment stands.
    pub fn current_stage(&self) -> (stage: Stage)
        ensures
            stage == self.stage(),
    {
        self.stage
    }

    /// Asks for the first observation of a game. In order from `Idle` only;
    /// the environment is then `Receiving`.
    pub fn start(&mut self) -> (outcome: Result<(), BridgeError>)
        ensures
            (final(self).stage(), outcome) == start_outcome(old(self).stage()),
            final(self).opponents() == old(self).opponents(),
            final(self).include_hidden() == old(self).include_hidden(),
    {
        proof {
            use_type_invariant(&*self);
        }
        let (next, outcome) = on_start(self.stage);
        self.stage = next;
        outcome
    }

    /// Answers the last observation with `action`. In order only while an
    /// observation waits for its answer; the action is then to be sent for
    /// seat 0, the caller's only seat, and the environment is `Receiving`.
    pub fn play(&mut self, action: u16) -> (outcome: Result<Dispatch, BridgeError>)
        ensures
            (final(self).stage(), outcome) == play_outcome(old(self).stage(), 1, 0, action),
            final(self).opponents() == old(self).opponents(),
            final(self).include_hidden() == old(self).include_hidden(),
    {
        proof {
            use_type_invariant(&*self);
        }
        let (next, outcome) = on_play(self.stage, 1, 0, action);
        self.stage = next;
        outcome
    }

    /// Takes in what the observation channel delivered and gives the record
    /// for the caller. A decision addressed to another seat than seat 0 is
    /// refused.
    pub fn deliver(&mut self, delivery: Delivery) -> (outcome: Result<WireRecord, BridgeError>)
        requires
            old(self).include_hidden() ==> (delivery matches Delivery::Decision {
                observation,
                ..
            } ==> observation.hidden is Some),
        ensures
            (final(self).stage(), outcome) == delivery_outcome(
                old(self).stage(),
                1,
                old(self).include_hidden(),
                delivery,
            ),
            final(self).opponents() == old(self).opponents(),
            final(self).include_hidden() == old(self).include_hidden(),
    {
        proof {
            use_type_invariant(&*self);
        }
        let (next, outcome) = on_delivery(self.stage, 1, self.include_hidden, delivery);
        self.stage = next;
        outcome
    }

    /// Takes in what the result channel delivered: the victory points and the
    /// win flag of the caller's seat, or nothing where the channel is closed.
    pub fn result(&mut self, received: Option<(u8, bool)>) -> (outcome: Result<
        (u8, bool),
        BridgeError,
    >)
        ensures
            match (old(self).stage(), received) {
                (Stage::Broken, _) => outcome == Err::<(u8, bool), BridgeError>(
                    BridgeError::ChannelDisconnected,
                ) && final(self).stage() == Stage::Broken,
                (_, None) => outcome == Err::<(u8, bool), BridgeError>(
                    BridgeError::ChannelDisconnected,
                ) && final(self).stage() == Stage::Broken,
                (_, Some(score)) => outcome == Ok::<(u8, bool), BridgeError>(score)
                    && final(self).stage() == old(self).stage(),
            },
            final(self).opponents() == old(self).opponents(),
            final(self).include_hidden() == old(self).include_hidden(),
    {
        proof {
            use_type_invariant(&*self);
        }
        match self.stage {
            Stage::Broken => Err(BridgeError::ChannelDisconnected),
            _ => match received {
                Some(score) => Ok(score),
                None => {
                    self.stage = Stage::Broken;
                    Err(BridgeError::ChannelDisconnected)
                },
            },
        }
    }
}

impl MultiEnvironment {
    /// Seat numbers fit in a byte.
    #[verifier::type_invariant]
    spec fn seats_fit(self) -> bool {
        self.players <= MAX_PLAYERS
    }

    /// The number of seats.
    pub closed spec fn players(&self) -> int {
        self.players as int
    }

    /// Whether observations carry the hidden array.
    pub closed spec fn include_hidden(&self) -> bool {
        self.include_hidden
    }

    /// Where the environment stands.
    pub closed spec fn stage(&self) -> Stage {
        self.stage
    }

    /// An environment for `players` seats. It is idle, and it includes
    /// hidden detail where the format does.
    pub fn new<F: Fn(Coord) -> (usize, usize)>(format: &EncodingFormat<F>, players: usize) -> (env:
        MultiEnvironment)
        requires
            players <= MAX_PLAYERS,
        ensures
            env.players() == players,
            env.include_hidden() == format.include_hidden,
            env.stage() == Stage::Idle,
    {
        MultiEnvironment { players, include_hidden: format.include_hidden, stage: Stage::Idle }
    }

    /// Where the environment stands.
    pub fn current_stage(&self) -> (stage: Stage)
        ensures
            stage == self.stage(),
    {
        self.stage
    }

    /// Asks for the first observation of a game. In order from `Idle` only;
    /// the environment is then `Receiving`.
    pub fn start(&mut self) -> (outcome: Result<(), BridgeError>)
        ensures
            (final(self).stage(), outcome) == start_outcome(old(self).stage()),
            final(self).players() == old(self).players(),
            final(self).include_hidden() == old(self).include_hidden(),
    {
        proof {
            use_type_invariant(&*self);
        }
        let (next, outcome) = on_start(self.stage);
        self.stage = next;
        outcome
    }

    /// Answers the last observation with an action of `player`. A seat that
    /// the environment does not have is refused and nothing is to be sent.
    /// Otherwise the call is in order only where the last observation asked
    /// that seat to decide; the action is then to be sent on the seat's
    /// channel, and the environment is `Receiving`.
    pub fn play(&mut self, player: u8, action: u16) -> (outcome: Result<Dispatch, BridgeError>)
        ensures
            (final(self).stage(), outcome) == play_outcome(
                old(self).stage(),
                old(self).players() as usize,
                player,
                action,
            ),
            player >= old(self).players() ==> outcome == Err::<Dispatch, BridgeError>(
                BridgeError::ProtocolMisuse,
            ) && final(self).stage() == old(self).stage(),
            outcome matches Ok(dispatch) ==> dispatch.seat < old(self).players(),
            final(self).players() == old(self).players(),
            final(self).include_hidden() == old(self).include_hidden(),
    {
        proof {
            use_type_invariant(&*self);
        }
        let (next, outcome) = on_play(self.stage, self.players, player, action);
        self.stage = next;
        outcome
    }

    /// Takes in what the observation channel delivered and gives the record
    /// for the caller. A decision addressed to a seat that the environment
    /// does not have is refused.
    pub fn deliver(&mut self, delivery: Delivery) -> (outcome: Result<WireRecord, BridgeError>)
        requires
            old(self).include_hidden() ==> (delivery matches Delivery::Decision {
                observation,
                ..
            } ==> observation.hidden is Some),
        ensures
            (final(self).stage(), outcome) == delivery_outcome(
                old(self).stage(),
                old(self).players() as usize,
                old(self).include_hidden(),
                delivery,
            ),
            final(self).players() == old(self).players(),
            final(self).include_hidden() == old(self).include_hidden(),
    {
        proof {
            use_type_invariant(&*self);
        }
        let (next, outcome) = on_delivery(self.stage, self.players, self.include_hidden, delivery);
        self.stage = next;
        outcome
    }

    /// Takes in what the result channels delivered, read seat by seat from
    /// seat 0 on until one of them was closed: the victory points of every
    /// seat and the winner. Fewer results than seats mean a closed channel:
    /// the environment is then broken. More results than seats are refused.
    pub fn result(&mut self, received: &Vec<(u8, bool)>) -> (outcome: Result<
        (ByteArray1, u8),
        BridgeError,
    >)
        ensures
            old(self).stage() is Broken || received@.len() < old(self).players() ==> outcome
                == Err::<(ByteArray1, u8), BridgeError>(BridgeError::ChannelDisconnected)
                && final(self).stage() == Stage::Broken,
            !(old(self).stage() is Broken) && received@.len() > old(self).players() ==> outcome
                == Err::<(ByteArray1, u8), BridgeError>(BridgeError::ProtocolMisuse)
                && final(self).stage() == old(self).stage(),
            !(old(self).stage() is Broken) && received@.len() == old(self).players() ==> {
                &&& final(self).stage() == old(self).stage()
                &&& outcome matches Ok((scores, winner))
                &&& byte_array1_cells(scores) == received@.map_values(|r: (u8, bool)| r.0)
                &&& byte_array1_cells(scores).len() == old(self).players()
                &&& is_winner_of(received@, winner as int)
            },
            final(self).players() == old(self).players(),
            final(self).include_hidden() == old(self).include_hidden(),
    {
        proof {
            use_type_invariant(&*self);
        }
        match self.stage {
            Stage::Broken => {
                return Err(BridgeError::ChannelDisconnected);
            },
            _ => {},
        }
        if received.len() < self.players {
            self.stage = Stage::Broken;
            return Err(BridgeError::ChannelDisconnected);
        }
        if received.len() > self.players {
            return Err(BridgeError::ProtocolMisuse);
        }
        let (scores, winner) = tally(received);
        Ok((scores, winner))
    }
}

/// The victory points of every seat, and the winner.
pub fn tally(results: &Vec<(u8, bool)>) -> (outcome: (ByteArray1, u8))
    requires
        results@.len() <= MAX_PLAYERS,
    ensures
        byte_array1_cells(outcome.0) == results@.map_values(|r: (u8, bool)| r.0),
        is_winner_of(results@, outcome.1 as int),
{
    let players = results.len();
    let mut winner: usize = 0;
    let mut vps = byte_array1_zeros(players);
    let mut player: usize = 0;
    while player < players
        invariant
            player <= players,
            players == results@.len(),
            players <= MAX_PLAYERS,
            byte_array1_cells(vps).len() == players,
            forall|i: int| 0 <= i < player ==> byte_array1_cells(vps)[i] == results@[i].0,
            is_winner_of(results@.take(player as int), winner as int),
            winner <= player,
        decreases players - player,
    {
        let result = results[player];
        byte_array1_put(&mut vps, player, result.0);
        let ghost before = results@.take(player as int);
        let ghost after = results@.take(player + 1);
        if result.1 {
            winner = player;
        } else {
            proof {
                if exists|i: int| 0 <= i < after.len() && after[i].1 {
                    let i = choose|i: int| 0 <= i < after.len() && after[i].1;
                    assert(before[i].1);
                }
            }
        }
        player += 1;
    }
    assert(results@.take(players as int) =~= results@);
    (vps, winner as u8)
}

/// The results name one winner only. Where exactly one seat carries the win
/// flag that seat is the winner, and where none does it is seat 0.
pub proof fn lemma_winner_unique(results: Seq<(u8, bool)>, first: int, second: int, flagged: int)
    requires
        is_winner_of(results, first),
        is_winner_of(results, second),
    ensures
        first == second,
        (0 <= flagged < results.len() && results[flagged].1 && forall|i: int|
            0 <= i < results.len() && i != flagged ==> !results[i].1) ==> first == flagged,
        (forall|i: int| 0 <= i < results.len() ==> !results[i].1) ==> first == 0,
{
}

} // verus!
