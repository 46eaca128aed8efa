//! Colours, sizes, pieces and the error taxonomy shared by every module.

use vstd::prelude::*;

verus! {

/// Index of a player's seat.
pub type PlayerIndex = u8;

/// Index of a system in the game's collection.
pub type SystemIndex = u8;

/// Number of seats at the table.
pub const NUM_PLAYERS: u8 = 2;

/// Number of pieces of one colour that a system must hold before that colour
/// can be wiped out of it.
pub const CATASTROPHE_COUNT: i32 = 4;

/// Number of copies of each piece kind that exist.
pub const COPIES_PER_KIND: u8 = 3;

#[derive(Debug, Clone, Copy, PartialEq, Eq, Hash, Structural)]
pub enum Color {
    RED,
    BLUE,
    GREEN,
    YELLOW,
}

#[derive(Debug, Clone, Copy, PartialEq, Eq, Hash, Structural)]
pub enum Size {
    SMALL,
    MEDIUM,
    LARGE,
}

/// A piece is a colour and a size; two pieces with the same colour and size
/// are interchangeable.
#[derive(Debug, Clone, Copy, PartialEq, Eq, Hash, Structural)]
pub struct Piece {
    pub color: Color,
    pub size: Size,
}

#[derive(Debug, Clone, Copy, PartialEq, Eq, Hash, Structural)]
pub enum InputError {
    WrongState,
    WrongPhase,
    WrongPlayer,
    PieceUnavailable,
    WrongActionColor,
    WrongSystem,
    NoSuchShip,
    BadSystem,
    FreeActionUnavailable,
    NoActionsLeft,
    WrongColor,
    ShipTooBig,
    SystemsNotAdjacent,
    BadPiece,
    NotCatastrophicEnough,
}

impl Color {
    /// Position of the colour in the fixed order red, blue, green, yellow.
    pub open spec fn rank(self) -> int {
        match self {
            Color::RED => 0,
            Color::BLUE => 1,
            Color::GREEN => 2,
            Color::YELLOW => 3,
        }
    }

    /// The colour's position as a machine integer.
    pub fn index(&self) -> (i: usize)
        ensures
            i == self.rank(),
            i < 4,
    {
        match self {
            Color::RED => 0,
            Color::BLUE => 1,
            Color::GREEN => 2,
            Color::YELLOW => 3,
        }
    }
}

impl Size {
    /// Rank of the size: 1 for small, 2 for medium, 3 for large.
    pub open spec fn rank(self) -> int {
        match self {
            Size::SMALL => 1,
            Size::MEDIUM => 2,
            Size::LARGE => 3,
        }
    }

    /// The size's rank as a machine integer.
    pub fn to_u8(&self) -> (r: u8)
        ensures
            r == self.rank(),
            1 <= r <= 3,
    {
        match self {
            Size::SMALL => 1,
            Size::MEDIUM => 2,
            Size::LARGE => 3,
        }
    }
}

impl Piece {
    /// Position of the piece kind among the twelve kinds, colour-major.
    pub open spec fn kind(self) -> int {
        self.color.rank() * 3 + (self.size.rank() - 1)
    }

    /// The kind's position as a machine integer.
    pub fn kind_index(&self) -> (i: usize)
        ensures
            i == self.kind(),
            i < 12,
    {
        self.color.index() * 3 + (self.size.to_u8() as usize - 1)
    }
}

/// Two pieces of the same kind are the same piece.
pub proof fn kind_is_injective(a: Piece, b: Piece)
    ensures
        a.kind() == b.kind() <==> a == b,
        0 <= a.kind() < 12,
{
}

} // verus!
