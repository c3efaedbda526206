//! A snapshot of one game, as plain values: the hands, the board and the bank.
//!
//! The game itself runs elsewhere. What the encoder reads of it is copied into
//! these types at each decision point.

use vstd::prelude::*;

verus! {

/// Number of resource kinds.
pub const RESOURCE_COUNT: usize = 5;

/// Number of development card kinds.
pub const DEVELOPMENT_CARD_COUNT: usize = 5;

/// Number of harbor kinds: one for each resource and the generic one.
pub const HARBOR_COUNT: usize = 6;

/// The largest number of seats in one game.
pub const MAX_PLAYERS: usize = 255;

/// The five resources, in the order of their channels and cells.
#[derive(Clone, Copy, PartialEq, Eq, Structural, Debug)]
pub enum Resource {
    Brick,
    Lumber,
    Ore,
    Grain,
    Wool,
}

/// The five kinds of development card, in the order of their cells.
#[derive(Clone, Copy, PartialEq, Eq, Structural, Debug)]
pub enum DevelopmentCard {
    Knight,
    RoadBuilding,
    YearOfPlenty,
    Monopoly,
    VictoryPoint,
}

impl Resource {
    /// The position of the resource among the five.
    pub open spec fn index(self) -> int {
        match self {
            Resource::Brick => 0,
            Resource::Lumber => 1,
            Resource::Ore => 2,
            Resource::Grain => 3,
            Resource::Wool => 4,
        }
    }

    /// The position of the resource among the five.
    pub fn to_usize(self) -> (i: usize)
        ensures
            i == self.index(),
            i < RESOURCE_COUNT,
    {
        match self {
            Resource::Brick => 0,
            Resource::Lumber => 1,
            Resource::Ore => 2,
            Resource::Grain => 3,
            Resource::Wool => 4,
        }
    }
}

impl DevelopmentCard {
    /// The position of the card kind among the five.
    pub open spec fn index(self) -> int {
        match self {
            DevelopmentCard::Knight => 0,
            DevelopmentCard::RoadBuilding => 1,
            DevelopmentCard::YearOfPlenty => 2,
            DevelopmentCard::Monopoly => 3,
            DevelopmentCard::VictoryPoint => 4,
        }
    }

    /// The position of the card kind among the five.
    pub fn to_usize(self) -> (i: usize)
        ensures
            i == self.index(),
            i < DEVELOPMENT_CARD_COUNT,
    {
        match self {
            DevelopmentCard::Knight => 0,
            DevelopmentCard::RoadBuilding => 1,
            DevelopmentCard::YearOfPlenty => 2,
            DevelopmentCard::Monopoly => 3,
            DevelopmentCard::VictoryPoint => 4,
        }
    }
}

/// The number that JSettlers gives a resource: brick 0, ore 1, wool 2,
/// grain 3, lumber 4.
pub open spec fn jsettlers_index(resource: Resource) -> int {
    match resource {
        Resource::Brick => 0,
        Resource::Ore => 1,
        Resource::Wool => 2,
        Resource::Grain => 3,
        Resource::Lumber => 4,
    }
}

/// The number that JSettlers gives a resource.
pub fn jsettlers_u(resource: Resource) -> (value: usize)
    ensures
        value == jsettlers_index(resource),
        value < RESOURCE_COUNT,
{
    match resource {
        Resource::Brick => 0,
        Resource::Ore => 1,
        Resource::Wool => 2,
        Resource::Grain => 3,
        Resource::Lumber => 4,
    }
}

/// The resource that JSettlers numbers `value`.
pub fn jsettlers_resource(value: usize) -> (resource: Resource)
    requires
        value < RESOURCE_COUNT,
    ensures
        jsettlers_index(resource) == value,
{
    if value == 0 {
        Resource::Brick
    } else if value == 1 {
        Resource::Ore
    } else if value == 2 {
        Resource::Wool
    } else if value == 3 {
        Resource::Grain
    } else {
        Resource::Lumber
    }
}

/// The JSettlers numbering is one-to-one: a number belongs to one resource
/// only, and every number below five belongs to one.
pub proof fn lemma_jsettlers_one_to_one(a: Resource, b: Resource, value: int)
    ensures
        jsettlers_index(a) == jsettlers_index(b) ==> a == b,
        0 <= jsettlers_index(a) < RESOURCE_COUNT,
        0 <= value < RESOURCE_COUNT ==> exists|r: Resource| jsettlers_index(r) == value,
{
    assert(jsettlers_index(Resource::Brick) == 0);
    assert(jsettlers_index(Resource::Ore) == 1);
    assert(jsettlers_index(Resource::Wool) == 2);
    assert(jsettlers_index(Resource::Grain) == 3);
    assert(jsettlers_index(Resource::Lumber) == 4);
}

/// What one player holds.
#[derive(Clone, Copy, Debug)]
pub struct PlayerHand {
    /// Resource cards, by `Resource::index`.
    pub resources: [u8; 5],
    /// Road pieces left to build.
    pub road_pieces: u8,
    /// Settlement pieces left to build.
    pub settlement_pieces: u8,
    /// City pieces left to build.
    pub city_pieces: u8,
    /// Knights played.
    pub knights: u8,
    /// Development cards that can be played, by `DevelopmentCard::index`.
    pub development_cards: [u8; 5],
    /// Development cards bought this turn, by `DevelopmentCard::index`.
    pub new_development_cards: [u8; 5],
    /// Harbors the player trades through: one flag for each resource, then
    /// the generic harbor.
    pub harbor: [bool; 6],
}

/// The sum of five counts.
pub open spec fn total_of(counts: Seq<u8>) -> int {
    counts[0] + counts[1] + counts[2] + counts[3] + counts[4]
}

/// The sum of five counts.
pub fn total(counts: &[u8; 5]) -> (sum: u16)
    ensures
        sum == total_of(counts@),
{
    counts[0] as u16 + counts[1] as u16 + counts[2] as u16 + counts[3] as u16 + counts[4] as u16
}

/// A place on the board grid. Hexes, paths and intersections share one grid.
#[derive(Clone, Copy, PartialEq, Eq, Structural, Debug)]
pub struct Coord {
    pub x: i32,
    pub y: i32,
}

/// A land hex: the desert, or a hex that produces a resource on a dice number.
#[derive(Clone, Copy, PartialEq, Eq, Structural, Debug)]
pub enum LandHex {
    Desert,
    Prod(Resource, u8),
}

/// A hex of the board.
#[derive(Clone, Copy, PartialEq, Eq, Structural, Debug)]
pub enum Hex {
    Water,
    Land(LandHex),
}

/// The harbor at an intersection, if it has one.
#[derive(Clone, Copy, PartialEq, Eq, Structural, Debug)]
pub enum Harbor {
    Absent,
    Generic,
    Special(Resource),
}

/// A settlement or a city, and the seat that owns it.
#[derive(Clone, Copy, PartialEq, Eq, Structural, Debug)]
pub struct Building {
    pub owner: u8,
    pub is_city: bool,
}

/// A hex and where it lies.
#[derive(Clone, Copy, Debug)]
pub struct HexSite {
    pub coord: Coord,
    pub hex: Hex,
}

/// An edge between two intersections, and the seat whose road lies on it.
#[derive(Clone, Copy, Debug)]
pub struct PathSite {
    pub coord: Coord,
    pub road: Option<u8>,
}

/// A corner where hexes meet: its harbor and what is built on it.
#[derive(Clone, Copy, Debug)]
pub struct IntersectionSite {
    pub coord: Coord,
    pub harbor: Harbor,
    pub building: Option<Building>,
}

/// Where a turn stands with respect to the dice.
#[derive(Clone, Copy, PartialEq, Eq, Structural, Debug)]
pub enum TurnPhase {
    PreRoll,
    Free,
}

/// Where a turn stands with respect to development cards.
#[derive(Clone, Copy, PartialEq, Eq, Structural, Debug)]
pub enum DevelopmentPhase {
    /// A card may still be played this turn.
    Ready,
    /// A card was played and its effect is over.
    Played,
    /// Road building is under way, with two roads left or one.
    RoadBuildingActive { two_left: bool },
    /// Year of plenty is under way, with two picks left or one.
    YearOfPlentyActive { two_left: bool },
}

/// The phase of the game at a decision point.
#[derive(Clone, Copy, PartialEq, Eq, Structural, Debug)]
pub enum Phase {
    /// Any decision outside a regular turn, such as the first placements.
    OutOfTurn,
    /// A regular turn of `player`.
    Turn { player: u8, turn_phase: TurnPhase, development_phase: DevelopmentPhase },
}

/// One game at one moment.
#[derive(Clone, Debug)]
pub struct GameState {
    /// One hand for each seat, by seat number.
    pub hands: Vec<PlayerHand>,
    /// The hexes of the layout.
    pub hexes: Vec<HexSite>,
    /// The hex on which the robber stands.
    pub thief_hex: Coord,
    /// The paths of the layout.
    pub paths: Vec<PathSite>,
    /// The intersections of the layout.
    pub intersections: Vec<IntersectionSite>,
    /// The seat that holds the longest road, if any does.
    pub longest_road: Option<u8>,
    /// The seat that holds the largest army, if any does.
    pub largest_army: Option<u8>,
    /// Resource cards left in the bank, by `Resource::index`.
    pub bank_resources: [u8; 5],
    /// Development cards left in the bank, by `DevelopmentCard::index`.
    pub bank_development_cards: [u8; 5],
}

impl GameState {
    /// The number of seats.
    pub open spec fn seats(&self) -> int {
        self.hands@.len() as int
    }

    /// The state is one that a game can be in: it has between one and
    /// `MAX_PLAYERS` seats, and every road, every building, the longest road
    /// and the largest army belong to one of them.
    pub open spec fn wf(&self) -> bool {
        &&& 1 <= self.seats() <= MAX_PLAYERS
        &&& self.longest_road matches Some(holder) ==> holder < self.seats()
        &&& self.largest_army matches Some(holder) ==> holder < self.seats()
        &&& forall|i: int|
            0 <= i < self.paths@.len() ==> (#[trigger] self.paths@[i].road matches Some(owner)
                ==> owner < self.seats())
        &&& forall|i: int|
            0 <= i < self.intersections@.len() ==> (
            #[trigger] self.intersections@[i].building matches Some(b) ==> b.owner < self.seats())
    }

    /// Whether `seat` holds the longest road.
    pub open spec fn has_longest_road(&self, seat: int) -> bool {
        self.longest_road matches Some(holder) && holder == seat
    }

    /// Whether `seat` holds the largest army.
    pub open spec fn has_largest_army(&self, seat: int) -> bool {
        self.largest_army matches Some(holder) && holder == seat
    }

    /// The number of seats.
    pub fn player_count(&self) -> (count: u8)
        requires
            self.wf(),
        ensures
            count == self.seats(),
            count >= 1,
    {
        self.hands.len() as u8
    }

    /// Whether the state is well formed.
    pub fn is_well_formed(&self) -> (ok: bool)
        ensures
            ok == self.wf(),
    {
        let count = self.hands.len();
        if count < 1 || count > MAX_PLAYERS {
            return false;
        }
        match self.longest_road {
            Some(holder) => {
                if holder as usize >= count {
                    return false;
                }
            },
            None => {},
        }
        match self.largest_army {
            Some(holder) => {
                if holder as usize >= count {
                    return false;
                }
            },
            None => {},
        }
        let mut i: usize = 0;
        while i < self.paths.len()
            invariant
                i <= self.paths@.len(),
                count == self.seats(),
                1 <= count <= MAX_PLAYERS,
                self.longest_road matches Some(holder) ==> holder < self.seats(),
                self.largest_army matches Some(holder) ==> holder < self.seats(),
                forall|k: int|
                    0 <= k < i ==> (#[trigger] self.paths@[k].road matches Some(owner) ==> owner
                        < self.seats()),
            decreases self.paths@.len() - i,
        {
            match self.paths[i].road {
                Some(owner) => {
                    if owner as usize >= count {
                        return false;
                    }
                },
                None => {},
            }
            i += 1;
        }
        let mut j: usize = 0;
        while j < self.intersections.len()
            invariant
                j <= self.intersections@.len(),
                count == self.seats(),
                1 <= count <= MAX_PLAYERS,
                self.longest_road matches Some(holder) ==> holder < self.seats(),
                self.largest_army matches Some(holder) ==> holder < self.seats(),
                forall|k: int|
                    0 <= k < self.paths@.len() ==> (#[trigger] self.paths@[k].road matches Some(
                        owner,
                    ) ==> owner < self.seats()),
                forall|k: int|
                    0 <= k < j ==> (#[trigger] self.intersections@[k].building matches Some(b)
                        ==> b.owner < self.seats()),
            decreases self.intersections@.len() - j,
        {
            match self.intersections[j].building {
                Some(b) => {
                    if b.owner as usize >= count {
                        return false;
                    }
                },
                None => {},
            }
            j += 1;
        }
        true
    }
}

} // verus!
