//! The rules of the game as mathematics: what each operation makes of a
//! game, stated over plain values.

use vstd::prelude::*;
use crate::bank::{covers, drawn, restocked};
use crate::common::{
    Color,
    InputError,
    Piece,
    PlayerIndex,
    Size,
    SystemIndex,
    CATASTROPHE_COUNT,
    NUM_PLAYERS,
};
use crate::inputs::{Action, ColorAction, RedActionInput, TurnPhase, YellowActionInput};
use crate::system::{bank_after_catastrophe, SystemView};

verus! {

#[derive(Debug, Clone, Copy, PartialEq, Eq, Hash, Structural)]
pub enum State {
    /// The player who sets up next.
    Setup(PlayerIndex),
    Turn(PlayerIndex, TurnPhase),
    /// The winner.
    Finished(PlayerIndex),
}

/// A game as plain mathematics.
pub struct GameView {
    pub state: State,
    /// Copies on hand of every piece kind.
    pub bank: Map<Piece, nat>,
    pub systems: Seq<SystemView>,
}

/// Whether some piece of `s` has colour `c`.
pub open spec fn has_color(s: Seq<Piece>, c: Color) -> bool {
    exists|i: int| 0 <= i < s.len() && (#[trigger] s[i]).color == c
}

/// Index of the first system that is `player`'s homeworld, or the number
/// of systems if there is none.
pub open spec fn home_of(systems: Seq<SystemView>, player: PlayerIndex) -> int
    decreases systems.len(),
{
    if systems.len() == 0 {
        0
    } else if systems[0].home_player == Some(player) {
        0
    } else {
        1 + home_of(systems.drop_first(), player)
    }
}

/// A new homeworld: two stars, its owner, and the owner's first ship.
pub open spec fn homeworld(first: Piece, second: Piece, player: PlayerIndex, ship: Piece) -> SystemView {
    SystemView {
        stars: seq![first, second],
        home_player: Some(player),
        fleets: seq![Seq::<Piece>::empty(), Seq::<Piece>::empty()],
    }.with_ship(player, ship)
}

/// A newly discovered system: one star, no owner, and the ship that
/// discovered it.
pub open spec fn discovery(star: Piece, player: PlayerIndex, ship: Piece) -> SystemView {
    SystemView {
        stars: seq![star],
        home_player: None,
        fleets: seq![Seq::<Piece>::empty(), Seq::<Piece>::empty()],
    }.with_ship(player, ship)
}

/// The smallest size of colour `c` that the bank has on hand, if any.
pub open spec fn smallest_available(bank: Map<Piece, nat>, c: Color) -> Option<Piece> {
    if bank[Piece { color: c, size: Size::SMALL }] > 0 {
        Some(Piece { color: c, size: Size::SMALL })
    } else if bank[Piece { color: c, size: Size::MEDIUM }] > 0 {
        Some(Piece { color: c, size: Size::MEDIUM })
    } else if bank[Piece { color: c, size: Size::LARGE }] > 0 {
        Some(Piece { color: c, size: Size::LARGE })
    } else {
        None
    }
}

/// The phase that follows a committed action.
pub open spec fn phase_after_action(phase: TurnPhase) -> TurnPhase {
    match phase {
        TurnPhase::Sacrifice(color, moves_left) => if moves_left > 1 {
            TurnPhase::Sacrifice(color, (moves_left - 1) as u8)
        } else {
            TurnPhase::Done
        },
        _ => TurnPhase::Done,
    }
}

impl GameView {
    /// Players named by the state and by homeworlds have a seat, every
    /// system has a fleet per player, one or two stars, and at least one
    /// ship.
    pub open spec fn wf(self) -> bool {
        &&& match self.state {
            State::Setup(player) => player < NUM_PLAYERS,
            State::Turn(player, _) => player < NUM_PLAYERS,
            State::Finished(player) => player < NUM_PLAYERS,
        }
        &&& forall|p: Piece| self.bank.dom().contains(p)
        &&& forall|p: Piece| #[trigger] self.bank[p] <= 3
        &&& forall|i: int|
            0 <= i < self.systems.len() ==> {
                let s = #[trigger] self.systems[i];
                &&& s.fleets.len() == NUM_PLAYERS
                &&& 1 <= s.stars.len() <= 2
                &&& !s.is_empty()
                &&& s.home_player matches Some(owner) ==> owner < NUM_PLAYERS
            }
    }

    pub open spec fn has_system(self, system: SystemIndex) -> bool {
        (system as int) < self.systems.len()
    }

    /// A player has lost when their homeworld holds none of their ships.
    /// A player without a homeworld among the systems has not lost.
    pub open spec fn is_loser(self, player: PlayerIndex) -> bool {
        let home = home_of(self.systems, player);
        home < self.systems.len() && self.systems[home].fleets[player as int].len() == 0
    }

    /// The one player who has not lost, where all the others have.
    pub open spec fn winner(self) -> Option<PlayerIndex> {
        if !self.is_loser(0) && self.is_loser(1) {
            Some(0u8)
        } else if self.is_loser(0) && !self.is_loser(1) {
            Some(1u8)
        } else {
            None
        }
    }

    /// The game, finished if there is a winner.
    pub open spec fn settled(self) -> GameView {
        match self.winner() {
            Some(winner) => GameView { state: State::Finished(winner), ..self },
            None => self,
        }
    }

    /// The game without system `i` if that system has no ship left, its
    /// stars back in the bank.
    pub open spec fn evaporated_if_empty(self, i: int) -> GameView {
        if self.systems[i].is_empty() {
            GameView {
                bank: restocked(self.bank, self.systems[i].stars),
                systems: self.systems.remove(i),
                ..self
            }
        } else {
            self
        }
    }

    /// A new game: the first player sets up, the bank is full, there are no
    /// systems.
    pub open spec fn initial() -> GameView {
        GameView {
            state: State::Setup(0),
            bank: Map::new(|p: Piece| true, |p: Piece| 3nat),
            systems: Seq::empty(),
        }
    }

    pub open spec fn setup(self, first: Piece, second: Piece, ship: Piece) -> Result<
        GameView,
        InputError,
    > {
        match self.state {
            State::Setup(player) => {
                let wanted = seq![first, second, ship];
                if !covers(self.bank, wanted) {
                    Err(InputError::PieceUnavailable)
                } else {
                    Ok(
                        GameView {
                            state: if player + 1 < NUM_PLAYERS {
                                State::Setup((player + 1) as u8)
                            } else {
                                State::Turn(0, TurnPhase::Started)
                            },
                            bank: drawn(self.bank, wanted),
                            systems: self.systems.push(homeworld(first, second, player, ship)),
                        },
                    )
                }
            },
            _ => Err(InputError::WrongState),
        }
    }

    /// Whether `player` may use the power of `color` in `system` for free:
    /// they have a ship there, and a star there or one of their ships there
    /// has that colour.
    pub open spec fn free_move_available(
        self,
        player: PlayerIndex,
        system: SystemIndex,
        color: Color,
    ) -> Result<(), InputError> {
        if !self.has_system(system) {
            Err(InputError::BadSystem)
        } else {
            let s = self.systems[system as int];
            let fleet = s.fleets[player as int];
            if fleet.len() > 0 && (has_color(s.stars, color) || has_color(fleet, color)) {
                Ok(())
            } else {
                Err(InputError::FreeActionUnavailable)
            }
        }
    }

    pub open spec fn free_move(self, system: SystemIndex, color: Color) -> Result<
        GameView,
        InputError,
    > {
        match self.state {
            State::Turn(player, TurnPhase::Started) => match self.free_move_available(
                player,
                system,
                color,
            ) {
                Ok(_) => Ok(
                    GameView {
                        state: State::Turn(player, TurnPhase::FreeMove(system, color)),
                        ..self
                    },
                ),
                Err(e) => Err(e),
            },
            State::Turn(_, _) => Err(InputError::WrongPhase),
            _ => Err(InputError::WrongState),
        }
    }

    pub open spec fn sacrifice(self, system: SystemIndex, ship: Piece) -> Result<
        GameView,
        InputError,
    > {
        match self.state {
            State::Turn(player, TurnPhase::Started) => {
                if !self.has_system(system) {
                    Err(InputError::BadSystem)
                } else if !self.systems[system as int].fleets[player as int].contains(ship) {
                    Err(InputError::NoSuchShip)
                } else {
                    Ok(
                        GameView {
                            state: State::Turn(
                                player,
                                TurnPhase::Sacrifice(ship.color, ship.size.rank() as u8),
                            ),
                            systems: self.systems.update(
                                system as int,
                                self.systems[system as int].without_ship(player, ship),
                            ),
                            ..self
                        }.evaporated_if_empty(system as int).settled(),
                    )
                }
            },
            State::Turn(_, _) => Err(InputError::WrongPhase),
            _ => Err(InputError::WrongState),
        }
    }

    pub open spec fn catastrophe(self, system: SystemIndex, color: Color) -> Result<
        GameView,
        InputError,
    > {
        if self.state is Finished {
            Err(InputError::WrongState)
        } else if !self.has_system(system) {
            Err(InputError::BadSystem)
        } else {
            let s = self.systems[system as int];
            if s.color_count(color) < CATASTROPHE_COUNT {
                Err(InputError::NotCatastrophicEnough)
            } else {
                Ok(
                    GameView {
                        bank: bank_after_catastrophe(self.bank, s, color),
                        systems: if s.evaporates(color) {
                            self.systems.remove(system as int)
                        } else {
                            self.systems.update(system as int, s.purged(color))
                        },
                        ..self
                    }.settled(),
                )
            }
        }
    }

    /// Capture: an enemy's ship in the acting ship's system, no larger than
    /// the acting ship, changes sides. The enemy is another player; one
    /// without a seat is refused once the sizes have been compared.
    pub open spec fn red_action(
        self,
        player: PlayerIndex,
        system: SystemIndex,
        ship: Piece,
        input: RedActionInput,
    ) -> Result<GameView, InputError> {
        let s = self.systems[system as int];
        if player == input.enemy_player {
            Err(InputError::WrongPlayer)
        } else if input.ship_to_take.size.rank() > ship.size.rank() {
            Err(InputError::ShipTooBig)
        } else if input.enemy_player >= NUM_PLAYERS {
            Err(InputError::WrongPlayer)
        } else if !s.fleets[input.enemy_player as int].contains(input.ship_to_take) {
            Err(InputError::NoSuchShip)
        } else {
            Ok(
                GameView {
                    systems: self.systems.update(
                        system as int,
                        s.without_ship(input.enemy_player, input.ship_to_take).with_ship(
                            player,
                            input.ship_to_take,
                        ),
                    ),
                    ..self
                },
            )
        }
    }

    /// Trade: the acting ship becomes a ship of the same size and another
    /// colour.
    pub open spec fn blue_action(
        self,
        player: PlayerIndex,
        system: SystemIndex,
        ship: Piece,
        new_color: Color,
    ) -> Result<GameView, InputError> {
        let s = self.systems[system as int];
        if ship.color == new_color {
            Err(InputError::WrongColor)
        } else {
            Ok(
                GameView {
                    systems: self.systems.update(
                        system as int,
                        s.without_ship(player, ship).with_ship(
                            player,
                            Piece { color: new_color, size: ship.size },
                        ),
                    ),
                    ..self
                },
            )
        }
    }

    /// Build: the smallest ship of the acting ship's colour that the bank
    /// has joins the player's fleet in the acting ship's system.
    pub open spec fn green_action(self, player: PlayerIndex, system: SystemIndex, ship: Piece) -> Result<
        GameView,
        InputError,
    > {
        let s = self.systems[system as int];
        match smallest_available(self.bank, ship.color) {
            None => Err(InputError::PieceUnavailable),
            Some(new_ship) => Ok(
                GameView {
                    bank: self.bank.insert(new_ship, (self.bank[new_ship] - 1) as nat),
                    systems: self.systems.update(system as int, s.with_ship(player, new_ship)),
                    ..self
                },
            ),
        }
    }

    /// Move or discover: the acting ship goes to an adjacent system, one of
    /// the game or a new one around the named star, which comes out of the
    /// bank. The system it leaves evaporates if it was the last ship there.
    pub open spec fn yellow_action(
        self,
        player: PlayerIndex,
        system: SystemIndex,
        ship: Piece,
        input: YellowActionInput,
    ) -> Result<GameView, InputError> {
        let s = self.systems[system as int];
        match input {
            YellowActionInput::Existing(target) => {
                if !self.has_system(target) {
                    Err(InputError::BadSystem)
                } else if !s.is_adjacent(self.systems[target as int]) {
                    Err(InputError::SystemsNotAdjacent)
                } else {
                    Ok(
                        GameView {
                            systems: self.systems.update(
                                target as int,
                                self.systems[target as int].with_ship(player, ship),
                            ).update(system as int, s.without_ship(player, ship)),
                            ..self
                        }.evaporated_if_empty(system as int),
                    )
                }
            },
            YellowActionInput::Discover(new_star) => {
                if !s.is_adjacent(discovery(new_star, player, ship)) {
                    Err(InputError::SystemsNotAdjacent)
                } else if self.bank[new_star] == 0 {
                    Err(InputError::PieceUnavailable)
                } else {
                    Ok(
                        GameView {
                            bank: self.bank.insert(new_star, (self.bank[new_star] - 1) as nat),
                            systems: self.systems.push(discovery(new_star, player, ship)).update(
                                system as int,
                                s.without_ship(player, ship),
                            ),
                            ..self
                        }.evaporated_if_empty(system as int),
                    )
                }
            },
        }
    }

    /// Whether the acting ship of `action` is in `player`'s fleet in the
    /// system that the action names, and the error if not.
    pub open spec fn ship_in_place(self, player: PlayerIndex, action: Action) -> Result<
        (),
        InputError,
    > {
        if !self.has_system(action.system) {
            Err(InputError::BadSystem)
        } else if !self.systems[action.system as int].fleets[player as int].contains(action.ship) {
            Err(InputError::NoSuchShip)
        } else {
            Ok(())
        }
    }

    /// What `player`'s action makes of the systems and the bank, the state
    /// left as it was: the acting ship must be where the action says, then
    /// the action's colour decides.
    pub open spec fn performed(self, player: PlayerIndex, action: Action) -> Result<
        GameView,
        InputError,
    > {
        if self.ship_in_place(player, action) is Err {
            Err(self.ship_in_place(player, action)->Err_0)
        } else {
            match action.color_action {
                ColorAction::RedAction(input) => self.red_action(
                    player,
                    action.system,
                    action.ship,
                    input,
                ),
                ColorAction::BlueAction(new_color) => self.blue_action(
                    player,
                    action.system,
                    action.ship,
                    new_color,
                ),
                ColorAction::GreenAction => self.green_action(player, action.system, action.ship),
                ColorAction::YellowAction(input) => self.yellow_action(
                    player,
                    action.system,
                    action.ship,
                    input,
                ),
            }
        }
    }

    /// Whether the current phase lets `action` go ahead, and the error if
    /// not.
    pub open spec fn admits(self, action: Action) -> Result<(), InputError> {
        match self.state {
            State::Turn(_, TurnPhase::FreeMove(system, color)) => {
                if system != action.system {
                    Err(InputError::WrongSystem)
                } else if action.color_action.color() != color {
                    Err(InputError::WrongActionColor)
                } else {
                    Ok(())
                }
            },
            State::Turn(_, TurnPhase::Sacrifice(color, moves_left)) => {
                if moves_left == 0 {
                    Err(InputError::NoActionsLeft)
                } else if action.color_action.color() != color {
                    Err(InputError::WrongActionColor)
                } else {
                    Ok(())
                }
            },
            State::Turn(_, _) => Err(InputError::WrongPhase),
            _ => Err(InputError::WrongState),
        }
    }

    pub open spec fn action(self, action: Action) -> Result<GameView, InputError> {
        match self.admits(action) {
            Err(e) => Err(e),
            Ok(_) => {
                let player = self.state->Turn_0;
                match self.performed(player, action) {
                    Err(e) => Err(e),
                    Ok(after) => Ok(
                        GameView {
                            state: State::Turn(player, phase_after_action(self.state->Turn_1)),
                            ..after
                        }.settled(),
                    ),
                }
            },
        }
    }

    pub open spec fn end_turn(self) -> Result<GameView, InputError> {
        match self.state {
            State::Turn(player, TurnPhase::Done) => Ok(
                GameView {
                    state: State::Turn(((player + 1) % (NUM_PLAYERS as int)) as u8, TurnPhase::Started),
                    ..self
                },
            ),
            State::Turn(_, _) => Err(InputError::WrongPhase),
            _ => Err(InputError::WrongState),
        }
    }
}

/// Whether a call that returned `result` and left the game as `after` did
/// what `expected` says: on success the game is the expected one, on
/// failure the error is the expected one and the game is as it was.
pub open spec fn follows(
    expected: Result<GameView, InputError>,
    before: GameView,
    after: GameView,
    result: Result<(), InputError>,
) -> bool {
    match expected {
        Ok(game) => result is Ok && after == game,
        Err(e) => result == Err::<(), InputError>(e) && after == before,
    }
}

} // verus!
