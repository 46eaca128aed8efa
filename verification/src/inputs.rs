//! What players hand to the game: setup moves, actions and their details.

use vstd::prelude::*;
use crate::common::{Color, Piece, PlayerIndex, SystemIndex};

verus! {

#[derive(Debug)]
pub struct SetupMove {
    pub stars: [Piece; 2],
    pub ship: Piece,
}

#[derive(Debug, Clone, Copy, PartialEq, Eq, Hash, Structural)]
pub enum TurnPhase {
    Started,
    FreeMove(SystemIndex, Color),
    /// The colour of the sacrificed ship and the number of moves left.
    Sacrifice(Color, u8),
    Done,
}

#[derive(Debug, Clone, Copy, PartialEq, Eq, Hash, Structural)]
pub struct Action {
    pub system: SystemIndex,
    pub ship: Piece,
    pub color_action: ColorAction,
}

#[derive(Debug, Clone, Copy, PartialEq, Eq, Hash, Structural)]
pub enum ColorAction {
    RedAction(RedActionInput),
    BlueAction(Color),
    GreenAction,
    YellowAction(YellowActionInput),
}

#[derive(Debug, Clone, Copy, PartialEq, Eq, Hash, Structural)]
pub struct RedActionInput {
    pub enemy_player: PlayerIndex,
    pub ship_to_take: Piece,
}

#[derive(Debug, Clone, Copy, PartialEq, Eq, Hash, Structural)]
pub enum YellowActionInput {
    Existing(SystemIndex),
    Discover(Piece),
}

impl ColorAction {
    /// The colour whose power the action uses.
    pub open spec fn color(self) -> Color {
        match self {
            ColorAction::RedAction(_) => Color::RED,
            ColorAction::BlueAction(_) => Color::BLUE,
            ColorAction::GreenAction => Color::GREEN,
            ColorAction::YellowAction(_) => Color::YELLOW,
        }
    }
}

} // verus!
