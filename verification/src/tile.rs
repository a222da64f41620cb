//! The tile model: the closed set of cell states, their pushability and
//! walkability classification, and the byte encoding used by the level codec.

use vstd::prelude::*;

verus! {

/// One cell of a level grid. Variants are mutually exclusive per cell; the
/// `InGoal` variants denote a pushable object currently resting on a goal.
#[derive(Clone, Copy, Debug, PartialEq, Eq, Structural)]
pub enum Tile {
    Empty,
    Wall,
    Player,
    Box,
    BoxInGoal,
    Goal,
    Key,
    KeyInGoal,
    LockedDoor,
    OneWayLeft,
    OneWayUp,
    OneWayRight,
    OneWayDown,
    Secret,
}

/// A movement direction requested by the player. The engine never invents
/// diagonal moves.
#[derive(Clone, Copy, Debug, PartialEq, Eq, Structural)]
pub enum Direction {
    Left,
    Up,
    Right,
    Down,
}

/// True for the tiles a player can push: boxes and keys, bare or on a goal.
pub open spec fn spec_is_pushable(tile: Tile) -> bool {
    match tile {
        Tile::Box | Tile::BoxInGoal | Tile::Key | Tile::KeyInGoal => true,
        _ => false,
    }
}

/// True for the tiles a player may step onto unconditionally.
pub open spec fn spec_is_freely_enterable(tile: Tile) -> bool {
    match tile {
        Tile::Empty | Tile::Goal | Tile::Secret => true,
        _ => false,
    }
}

/// The one-way gate that admits entry exactly in `direction`.
pub open spec fn spec_one_way_for(direction: Direction) -> Tile {
    match direction {
        Direction::Left => Tile::OneWayLeft,
        Direction::Up => Tile::OneWayUp,
        Direction::Right => Tile::OneWayRight,
        Direction::Down => Tile::OneWayDown,
    }
}

/// True when `tile` is the one-way gate admitting entry towards `direction`.
pub open spec fn spec_matches_one_way(tile: Tile, direction: Direction) -> bool {
    tile == spec_one_way_for(direction)
}

/// What a cell reverts to once the player or a pushable object leaves it:
/// objects on plain ground vacate to `Empty`, objects on a goal vacate to
/// `Goal`, and terrain is kept as it is.
pub open spec fn spec_strip_player_or_object(tile: Tile) -> Tile {
    match tile {
        Tile::Player | Tile::Box | Tile::Key | Tile::LockedDoor => Tile::Empty,
        Tile::BoxInGoal | Tile::KeyInGoal => Tile::Goal,
        _ => tile,
    }
}

impl Tile {
    /// Classifies the pushable tiles: boxes and keys, bare or on a goal.
    pub fn is_pushable(self) -> (r: bool)
        ensures
            r == spec_is_pushable(self),
    {
        matches!(self, Tile::Box | Tile::BoxInGoal | Tile::Key | Tile::KeyInGoal)
    }

    /// Classifies the tiles a player may enter without pushing anything.
    pub fn is_freely_enterable(self) -> (r: bool)
        ensures
            r == spec_is_freely_enterable(self),
    {
        matches!(self, Tile::Empty | Tile::Goal | Tile::Secret)
    }

    /// True iff `self` is the one-way gate opened towards `direction`.
    pub fn matches_one_way(self, direction: Direction) -> (r: bool)
        ensures
            r == spec_matches_one_way(self, direction),
    {
        self == Direction::one_way_tile(direction)
    }

    /// The tile a vacated cell reverts to; see [`spec_strip_player_or_object`].
    pub fn strip_player_or_object(self) -> (r: Tile)
        ensures
            r == spec_strip_player_or_object(self),
    {
        match self {
            Tile::Player | Tile::Box | Tile::Key | Tile::LockedDoor => Tile::Empty,
            Tile::BoxInGoal | Tile::KeyInGoal => Tile::Goal,
            _ => self,
        }
    }
}

impl Direction {
    /// The one-way gate enterable exactly in this direction.
    pub fn one_way_tile(self) -> (r: Tile)
        ensures
            r == spec_one_way_for(self),
    {
        match self {
            Direction::Left => Tile::OneWayLeft,
            Direction::Up => Tile::OneWayUp,
            Direction::Right => Tile::OneWayRight,
            Direction::Down => Tile::OneWayDown,
        }
    }
}

/// The byte each tile is written as in level geometry data.
pub open spec fn spec_tile_to_byte(tile: Tile) -> u8 {
    match tile {
        Tile::Empty => 32u8,        // ' '
        Tile::Wall => 35u8,         // '#'
        Tile::Player => 80u8,       // 'P'
        Tile::Box => 64u8,          // '@'
        Tile::BoxInGoal => 37u8,    // '%'
        Tile::Goal => 120u8,        // 'x'
        Tile::Key => 42u8,          // '*'
        Tile::KeyInGoal => 38u8,    // '&'
        Tile::LockedDoor => 61u8,   // '='
        Tile::OneWayLeft => 60u8,   // '<'
        Tile::OneWayUp => 94u8,     // '^'
        Tile::OneWayRight => 62u8,  // '>'
        Tile::OneWayDown => 118u8,  // 'v'
        Tile::Secret => 63u8,       // '?'
    }
}

/// The tile a byte decodes to, or `None` for a byte outside the alphabet.
pub open spec fn spec_tile_from_byte(b: u8) -> Option<Tile> {
    match b {
        32u8 => Some(Tile::Empty),
        35u8 => Some(Tile::Wall),
        80u8 => Some(Tile::Player),
        64u8 => Some(Tile::Box),
        37u8 => Some(Tile::BoxInGoal),
        120u8 => Some(Tile::Goal),
        42u8 => Some(Tile::Key),
        38u8 => Some(Tile::KeyInGoal),
        61u8 => Some(Tile::LockedDoor),
        60u8 => Some(Tile::OneWayLeft),
        94u8 => Some(Tile::OneWayUp),
        62u8 => Some(Tile::OneWayRight),
        118u8 => Some(Tile::OneWayDown),
        63u8 => Some(Tile::Secret),
        _ => None,
    }
}

impl Tile {
    /// Encodes this tile as its single geometry byte.
    pub fn to_byte(self) -> (b: u8)
        ensures
            b == spec_tile_to_byte(self),
    {
        match self {
            Tile::Empty => 32u8,
            Tile::Wall => 35u8,
            Tile::Player => 80u8,
            Tile::Box => 64u8,
            Tile::BoxInGoal => 37u8,
            Tile::Goal => 120u8,
            Tile::Key => 42u8,
            Tile::KeyInGoal => 38u8,
            Tile::LockedDoor => 61u8,
            Tile::OneWayLeft => 60u8,
            Tile::OneWayUp => 94u8,
            Tile::OneWayRight => 62u8,
            Tile::OneWayDown => 118u8,
            Tile::Secret => 63u8,
        }
    }

    /// Decodes a geometry byte; `None` iff the byte is outside the alphabet.
    pub fn from_byte(b: u8) -> (r: Option<Tile>)
        ensures
            r == spec_tile_from_byte(b),
    {
        match b {
            32u8 => Some(Tile::Empty),
            35u8 => Some(Tile::Wall),
            80u8 => Some(Tile::Player),
            64u8 => Some(Tile::Box),
            37u8 => Some(Tile::BoxInGoal),
            120u8 => Some(Tile::Goal),
            42u8 => Some(Tile::Key),
            38u8 => Some(Tile::KeyInGoal),
            61u8 => Some(Tile::LockedDoor),
            60u8 => Some(Tile::OneWayLeft),
            94u8 => Some(Tile::OneWayUp),
            62u8 => Some(Tile::OneWayRight),
            118u8 => Some(Tile::OneWayDown),
            63u8 => Some(Tile::Secret),
            _ => None,
        }
    }
}

/// Every tile's byte decodes back to that tile: the geometry alphabet is
/// lossless in both directions.
pub proof fn lemma_tile_byte_round_trip(tile: Tile)
    ensures
        spec_tile_from_byte(spec_tile_to_byte(tile)) == Some(tile),
{
}

} // verus!
