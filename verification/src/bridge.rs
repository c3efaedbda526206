//! What crosses the bridge between the caller and the worker that runs the
//! game: the record that an observation becomes, what the worker delivers,
//! and the order in which the calls of an environment may come.

use crate::arrays::{BoolArray1, IntArray1, IntArray3};
use crate::observation::PyCatanObservation;
use vstd::prelude::*;

verus! {

/// Why a call on an environment failed.
#[derive(Clone, Copy, PartialEq, Eq, Structural, Debug)]
pub enum BridgeError {
    /// The call is out of order: an action for a seat that the last
    /// observation did not address or that the caller does not play, a
    /// delivery addressed to such a seat, a call while another is under way,
    /// or more results than seats.
    ProtocolMisuse,
    /// The worker is gone. The environment cannot be used any more.
    ChannelDisconnected,
}

/// Where an environment stands between its calls.
#[derive(Clone, Copy, PartialEq, Eq, Structural, Debug)]
pub enum Stage {
    /// No observation waits for an answer and none has been asked for.
    Idle,
    /// A `start` or a `play` was accepted and its observation has not come
    /// yet.
    Receiving,
    /// The last observation asked `seat` for an action.
    Deciding { seat: u8 },
    /// The worker is gone.
    Broken,
}

/// An action that may be sent to the worker, and the seat whose channel it
/// goes on.
#[derive(Clone, Copy, PartialEq, Eq, Structural, Debug)]
pub struct Dispatch {
    pub seat: u8,
    pub action: u16,
}

/// What the observation channel hands over on one read.
pub enum Delivery {
    /// `seat` has to decide, and this is what it sees.
    Decision { seat: u8, observation: PyCatanObservation },
    /// The game is over.
    Terminal,
    /// The channel is closed: the worker has stopped.
    Disconnected,
}

/// The hidden field of a record.
pub enum HiddenField {
    /// The record has no such field: the environment does not include hidden
    /// detail.
    Absent,
    /// The field is there and empty, as in a terminal record.
    Empty,
    /// The field holds the hidden array.
    Present(IntArray1),
}

/// The record that the caller gets for one observation.
pub struct WireRecord {
    /// The seat that has to decide; 0 in a terminal record.
    pub seat: u8,
    pub board: Option<IntArray3>,
    pub flat: Option<IntArray1>,
    pub hidden: HiddenField,
    pub actions: Option<BoolArray1>,
    /// Whether the game is over.
    pub terminal: bool,
}

impl WireRecord {
    /// The record of an observation, or the terminal record where there is
    /// none.
    pub open spec fn of(hidden_state: bool, observation: Option<(u8, PyCatanObservation)>) -> Self {
        match observation {
            Some((seat, shown)) => WireRecord {
                seat,
                board: Some(shown.board),
                flat: Some(shown.flat),
                hidden: if hidden_state {
                    HiddenField::Present(shown.hidden->0)
                } else {
                    HiddenField::Absent
                },
                actions: Some(shown.actions),
                terminal: false,
            },
            None => WireRecord {
                seat: 0,
                board: None,
                flat: None,
                hidden: if hidden_state {
                    HiddenField::Empty
                } else {
                    HiddenField::Absent
                },
                actions: None,
                terminal: true,
            },
        }
    }

    /// The number of fields of the record: six with the hidden field, five
    /// without.
    pub open spec fn arity(&self) -> int {
        if self.hidden is Absent {
            5
        } else {
            6
        }
    }

    /// The number of fields of the record.
    pub fn len(&self) -> (fields: usize)
        ensures
            fields == self.arity(),
    {
        match self.hidden {
            HiddenField::Absent => 5,
            _ => 6,
        }
    }
}

/// The record for what the worker published: for an observation, the seat,
/// the arrays and `terminal == false`; for the end of a game, no array and
/// `terminal == true`. The hidden field is part of the record exactly where
/// `hidden_state` is set.
pub fn to_record(hidden_state: bool, observation: Option<(u8, PyCatanObservation)>) -> (record:
    WireRecord)
    requires
        hidden_state ==> (observation matches Some(pair) ==> pair.1.hidden is Some),
    ensures
        record == WireRecord::of(hidden_state, observation),
        record.arity() == if hidden_state {
            6int
        } else {
            5int
        },
{
    match observation {
        Some((seat, shown)) => {
            let PyCatanObservation { actions, board, flat, hidden } = shown;
            let hidden_field = if hidden_state {
                match hidden {
                    Some(h) => HiddenField::Present(h),
                    None => HiddenField::Empty,
                }
            } else {
                HiddenField::Absent
            };
            WireRecord {
                seat,
                board: Some(board),
                flat: Some(flat),
                hidden: hidden_field,
                actions: Some(actions),
                terminal: false,
            }
        },
        None => WireRecord {
            seat: 0,
            board: None,
            flat: None,
            hidden: if hidden_state {
                HiddenField::Empty
            } else {
                HiddenField::Absent
            },
            actions: None,
            terminal: true,
        },
    }
}

/// The stage after a `start`, and whether the call is in order: it is from
/// `Idle` only.
pub open spec fn start_outcome(stage: Stage) -> (Stage, Result<(), BridgeError>) {
    match stage {
        Stage::Idle => (Stage::Receiving, Ok(())),
        Stage::Broken => (Stage::Broken, Err(BridgeError::ChannelDisconnected)),
        _ => (stage, Err(BridgeError::ProtocolMisuse)),
    }
}

/// The stage after a `play` of `action` for `seat` in an environment whose
/// caller plays the seats `0..seats`, and what is to be sent. A seat that the
/// caller does not play is refused whatever the stage. Otherwise the call is
/// in order where the last observation asked that seat to decide.
pub open spec fn play_outcome(stage: Stage, seats: usize, seat: u8, action: u16) -> (
    Stage,
    Result<Dispatch, BridgeError>,
) {
    if seat >= seats {
        (stage, Err(BridgeError::ProtocolMisuse))
    } else {
        match stage {
            Stage::Deciding { seat: asked } => if asked == seat {
                (Stage::Receiving, Ok(Dispatch { seat, action }))
            } else {
                (stage, Err(BridgeError::ProtocolMisuse))
            },
            Stage::Broken => (Stage::Broken, Err(BridgeError::ChannelDisconnected)),
            _ => (stage, Err(BridgeError::ProtocolMisuse)),
        }
    }
}

/// The stage after a delivery in an environment whose caller plays the seats
/// `0..seats`, and what the caller gets for it. A delivery is in order while
/// the environment is `Receiving`: a decision for one of the caller's seats
/// leaves it `Deciding` for that seat, the end of a game leaves it `Idle`,
/// and a closed channel leaves it `Broken`. A decision addressed to a seat
/// that the caller does not play is refused and changes nothing.
pub open spec fn delivery_outcome(
    stage: Stage,
    seats: usize,
    hidden_state: bool,
    delivery: Delivery,
) -> (Stage, Result<WireRecord, BridgeError>) {
    match stage {
        Stage::Receiving => match delivery {
            Delivery::Decision { seat, observation } => if seat < seats {
                (
                    Stage::Deciding { seat },
                    Ok(WireRecord::of(hidden_state, Some((seat, observation)))),
                )
            } else {
                (stage, Err(BridgeError::ProtocolMisuse))
            },
            Delivery::Terminal => (Stage::Idle, Ok(WireRecord::of(hidden_state, None))),
            Delivery::Disconnected => (Stage::Broken, Err(BridgeError::ChannelDisconnected)),
        },
        Stage::Broken => (Stage::Broken, Err(BridgeError::ChannelDisconnected)),
        _ => (stage, Err(BridgeError::ProtocolMisuse)),
    }
}

/// Decides a `start`: the next stage, and whether the call is in order.
pub fn on_start(stage: Stage) -> (outcome: (Stage, Result<(), BridgeError>))
    ensures
        outcome == start_outcome(stage),
{
    match stage {
        Stage::Idle => (Stage::Receiving, Ok(())),
        Stage::Broken => (Stage::Broken, Err(BridgeError::ChannelDisconnected)),
        _ => (stage, Err(BridgeError::ProtocolMisuse)),
    }
}

/// Decides a `play` of `action` for `seat`: the next stage, and what is to
/// be sent.
pub fn on_play(stage: Stage, seats: usize, seat: u8, action: u16) -> (outcome: (
    Stage,
    Result<Dispatch, BridgeError>,
))
    ensures
        outcome == play_outcome(stage, seats, seat, action),
{
    if seat as usize >= seats {
        return (stage, Err(BridgeError::ProtocolMisuse));
    }
    match stage {
        Stage::Deciding { seat: asked } => {
            if asked == seat {
                (Stage::Receiving, Ok(Dispatch { seat, action }))
            } else {
                (stage, Err(BridgeError::ProtocolMisuse))
            }
        },
        Stage::Broken => (Stage::Broken, Err(BridgeError::ChannelDisconnected)),
        _ => (stage, Err(BridgeError::ProtocolMisuse)),
    }
}

/// Takes a delivery in: the next stage, and the record for the caller.
pub fn on_delivery(stage: Stage, seats: usize, hidden_state: bool, delivery: Delivery) -> (outcome:
    (Stage, Result<WireRecord, BridgeError>))
    requires
        hidden_state ==> (delivery matches Delivery::Decision { observation, .. }
            ==> observation.hidden is Some),
    ensures
        outcome == delivery_outcome(stage, seats, hidden_state, delivery),
{
    match stage {
        Stage::Receiving => match delivery {
            Delivery::Decision { seat, observation } => {
                if (seat as usize) < seats {
                    (
                        Stage::Deciding { seat },
                        Ok(to_record(hidden_state, Some((seat, observation)))),
                    )
                } else {
                    (stage, Err(BridgeError::ProtocolMisuse))
                }
            },
            Delivery::Terminal => (Stage::Idle, Ok(to_record(hidden_state, None))),
            Delivery::Disconnected => (Stage::Broken, Err(BridgeError::ChannelDisconnected)),
        },
        Stage::Broken => (Stage::Broken, Err(BridgeError::ChannelDisconnected)),
        _ => (stage, Err(BridgeError::ProtocolMisuse)),
    }
}

/// Observations and actions alternate. An action is accepted exactly for the
/// seat that the last delivery asked to decide, if the caller plays that
/// seat, and at most once: after it the environment waits for the next
/// delivery, and until that has come no `start` and no `play` is in order. No
/// stage is ever `Deciding` for a seat that the caller does not play once it
/// was reached by a delivery, and a broken environment stays broken.
pub proof fn lemma_strict_alternation(
    stage: Stage,
    seats: usize,
    hidden_state: bool,
    seat: u8,
    other: u8,
    action: u16,
    delivery: Delivery,
)
    ensures
        play_outcome(stage, seats, seat, action).1 is Ok <==> seat < seats && stage == (
        Stage::Deciding { seat }),
        play_outcome(stage, seats, seat, action).1 is Ok ==> play_outcome(
            stage,
            seats,
            seat,
            action,
        ) == (Stage::Receiving, Ok::<Dispatch, BridgeError>(Dispatch { seat, action })),
        seat >= seats ==> play_outcome(stage, seats, seat, action) == (
            stage,
            Err::<Dispatch, BridgeError>(BridgeError::ProtocolMisuse),
        ),
        start_outcome(stage).1 is Ok <==> stage == Stage::Idle,
        start_outcome(stage).1 is Ok ==> start_outcome(stage).0 == Stage::Receiving,
        start_outcome(Stage::Receiving).1 == Err::<(), BridgeError>(BridgeError::ProtocolMisuse),
        play_outcome(Stage::Receiving, seats, seat, action).1 == Err::<Dispatch, BridgeError>(
            BridgeError::ProtocolMisuse,
        ),
        delivery_outcome(stage, seats, hidden_state, delivery).1 is Ok ==> stage
            == Stage::Receiving,
        delivery_outcome(stage, seats, hidden_state, delivery).0 matches Stage::Deciding {
            seat: asked,
        } ==> asked < seats || stage == (Stage::Deciding { seat: asked }),
        delivery matches Delivery::Decision { seat: asked, .. } ==> {
            let next = delivery_outcome(Stage::Receiving, seats, hidden_state, delivery);
            if asked < seats {
                &&& next.0 == (Stage::Deciding { seat: asked })
                &&& next.1 is Ok
                &&& play_outcome(next.0, seats, asked, action).1 == Ok::<Dispatch, BridgeError>(
                    Dispatch { seat: asked, action },
                )
                &&& other != asked ==> play_outcome(next.0, seats, other, action) == (
                    next.0,
                    Err::<Dispatch, BridgeError>(BridgeError::ProtocolMisuse),
                )
            } else {
                next == (
                    Stage::Receiving,
                    Err::<WireRecord, BridgeError>(BridgeError::ProtocolMisuse),
                )
            }
        },
        start_outcome(Stage::Broken) == (
            Stage::Broken,
            Err::<(), BridgeError>(BridgeError::ChannelDisconnected),
        ),
        seat < seats ==> play_outcome(Stage::Broken, seats, seat, action) == (
            Stage::Broken,
            Err::<Dispatch, BridgeError>(BridgeError::ChannelDisconnected),
        ),
        delivery_outcome(Stage::Broken, seats, hidden_state, delivery) == (
            Stage::Broken,
            Err::<WireRecord, BridgeError>(BridgeError::ChannelDisconnected),
        ),
{
}

/// A record carries the hidden field exactly where the environment includes
/// hidden detail, whatever was delivered; a terminal record carries no array.
pub proof fn lemma_record_shape(hidden_state: bool, observation: Option<(u8, PyCatanObservation)>)
    ensures
        !(WireRecord::of(hidden_state, observation).hidden is Absent) <==> hidden_state,
        WireRecord::of(hidden_state, observation).terminal <==> observation is None,
        observation is None ==> {
            let record = WireRecord::of(hidden_state, observation);
            &&& record.board is None
            &&& record.flat is None
            &&& record.actions is None
            &&& !(record.hidden is Present)
        },
        observation matches Some(pair) ==> {
            let record = WireRecord::of(hidden_state, observation);
            &&& record.seat == pair.0
            &&& record.board == Some(pair.1.board)
            &&& record.flat == Some(pair.1.flat)
            &&& record.actions == Some(pair.1.actions)
        },
{
}

} // verus!
