//! Laws of the game, proved from the rules.
//!
//! Every piece kind is in a new game three times, and stays so through a
//! setup, the choice of a free move, a capture, a build, a move, a
//! discovery, a catastrophe and the end of a turn. A sacrifice takes the
//! ship out of the game and a trade makes one kind of another: what those
//! two do to the counts is stated as well. Further, turns cycle,
//! catastrophes are gated, and a sacrifice buys as many actions as the
//! sacrificed ship is large.

use vstd::prelude::*;
use crate::common::{Color, InputError, Piece, PlayerIndex, Size, SystemIndex, NUM_PLAYERS};
use crate::inputs::{Action, ColorAction, RedActionInput, TurnPhase, YellowActionInput};
use crate::rules::{discovery, phase_after_action, smallest_available, GameView, State};
use crate::system::{
    bank_after_catastrophe,
    first_position,
    first_position_is_first,
    never_adjacent_to_itself,
    purged_has_no_color,
    SystemView,
};
use crate::tally::{occurrences, occurrences_push, occurrences_remove};

verus! {

/// How many copies of `p` the systems hold, as stars or as ships.
pub open spec fn on_board(systems: Seq<SystemView>, p: Piece) -> nat
    decreases systems.len(),
{
    if systems.len() == 0 {
        0
    } else {
        on_board(systems.drop_last(), p) + systems.last().census(p)
    }
}

impl GameView {
    /// How many copies of `p` are in the game: in the bank, and in the
    /// systems as stars or as ships.
    pub open spec fn total(self, p: Piece) -> nat {
        self.bank[p] + on_board(self.systems, p)
    }

    /// Every piece kind is in the game three times.
    pub open spec fn conserved(self) -> bool {
        forall|p: Piece| #[trigger] self.total(p) == 3
    }
}

pub proof fn on_board_push(systems: Seq<SystemView>, s: SystemView, p: Piece)
    ensures
        on_board(systems.push(s), p) == on_board(systems, p) + s.census(p),
{
    assert(systems.push(s).drop_last() =~= systems);
}

/// Replacing one system changes the board by the difference of the two
/// systems.
pub proof fn on_board_update(systems: Seq<SystemView>, i: int, s: SystemView, p: Piece)
    requires
        0 <= i < systems.len(),
    ensures
        on_board(systems.update(i, s), p) + systems[i].census(p) == on_board(systems, p)
            + s.census(p),
    decreases systems.len(),
{
    if i == systems.len() - 1 {
        assert(systems.update(i, s).drop_last() =~= systems.drop_last());
    } else {
        assert(systems.update(i, s).drop_last() =~= systems.drop_last().update(i, s));
        on_board_update(systems.drop_last(), i, s, p);
    }
}

/// Removing one system takes its pieces off the board.
pub proof fn on_board_remove(systems: Seq<SystemView>, i: int, p: Piece)
    requires
        0 <= i < systems.len(),
    ensures
        on_board(systems.remove(i), p) + systems[i].census(p) == on_board(systems, p),
    decreases systems.len(),
{
    if i == systems.len() - 1 {
        assert(systems.remove(i) =~= systems.drop_last());
    } else {
        assert(systems.remove(i).drop_last() =~= systems.drop_last().remove(i));
        assert(systems.remove(i).last() == systems.last());
        on_board_remove(systems.drop_last(), i, p);
    }
}

/// A ship that joins a fleet is one more copy of its kind in the system.
pub proof fn census_with_ship(s: SystemView, player: PlayerIndex, ship: Piece, p: Piece)
    requires
        s.fleets.len() == NUM_PLAYERS,
        player < NUM_PLAYERS,
    ensures
        s.with_ship(player, ship).census(p) == s.census(p) + if ship == p {
            1nat
        } else {
            0nat
        },
{
    occurrences_push(s.fleets[player as int], ship, p);
}

/// A ship that leaves a fleet is one copy less of its kind in the system.
pub proof fn census_without_ship(s: SystemView, player: PlayerIndex, ship: Piece, p: Piece)
    requires
        s.fleets.len() == NUM_PLAYERS,
        player < NUM_PLAYERS,
        s.fleets[player as int].contains(ship),
    ensures
        s.without_ship(player, ship).census(p) + (if ship == p {
            1nat
        } else {
            0nat
        }) == s.census(p),
{
    let fleet = s.fleets[player as int];
    first_position_is_first(fleet, ship);
    occurrences_remove(fleet, first_position(fleet, ship), p);
}

/// No system holds more copies of a kind than the whole board.
pub proof fn census_is_on_board(systems: Seq<SystemView>, i: int, p: Piece)
    requires
        0 <= i < systems.len(),
    ensures
        systems[i].census(p) <= on_board(systems, p),
{
    on_board_remove(systems, i, p);
}

/// A new game holds every kind three times.
pub proof fn new_game_is_conserved()
    ensures
        GameView::initial().conserved(),
{
    assert forall|p: Piece| #[trigger] GameView::initial().total(p) == 3 by {
        assert(on_board(GameView::initial().systems, p) == 0);
    }
}

/// Whether the game ends changes no count.
pub proof fn settling_conserves(game: GameView)
    requires
        game.conserved(),
    ensures
        game.settled().conserved(),
{
    assert forall|p: Piece| #[trigger] game.settled().total(p) == 3 by {
        assert(game.total(p) == 3);
    }
}

/// When a system without ships evaporates, its stars go back to the bank:
/// no count changes, as long as the bank has room for them.
pub proof fn evaporation_keeps_totals(game: GameView, i: int)
    requires
        0 <= i < game.systems.len(),
        game.systems[i].fleets.len() == NUM_PLAYERS,
        forall|p: Piece| #[trigger] game.bank[p] <= 3,
        forall|p: Piece| occurrences(game.systems[i].stars, p) > 0 ==> #[trigger] game.total(p) <= 3,
    ensures
        forall|p: Piece| #[trigger] game.evaporated_if_empty(i).total(p) == game.total(p),
{
    let after = game.evaporated_if_empty(i);
    let s = game.systems[i];
    assert forall|p: Piece| #[trigger] after.total(p) == game.total(p) by {
        if s.is_empty() {
            on_board_remove(game.systems, i, p);
            assert(s.fleets[0] =~= Seq::<Piece>::empty());
            assert(s.fleets[1] =~= Seq::<Piece>::empty());
            assert(occurrences(Seq::<Piece>::empty(), p) == 0);
            assert(game.bank[p] <= 3);
            if occurrences(s.stars, p) > 0 {
                assert(game.total(p) <= 3);
            }
        }
    }
}

/// When a system without ships evaporates in a game that holds every kind
/// three times, the game still does.
pub proof fn evaporation_conserves(game: GameView, i: int)
    requires
        game.conserved(),
        0 <= i < game.systems.len(),
        game.systems[i].fleets.len() == NUM_PLAYERS,
    ensures
        game.evaporated_if_empty(i).conserved(),
{
    assert forall|p: Piece| #[trigger] game.bank[p] <= 3 by {
        assert(game.total(p) == 3);
    }
    assert forall|p: Piece| occurrences(game.systems[i].stars, p) > 0 implies #[trigger] game.total(
        p,
    ) <= 3 by {
        assert(game.total(p) == 3);
    }
    evaporation_keeps_totals(game, i);
    assert forall|p: Piece| #[trigger] game.evaporated_if_empty(i).total(p) == 3 by {
        assert(game.total(p) == 3);
    }
}

/// Setting up conserves every piece kind: what the bank hands out stands in
/// the new homeworld.
pub proof fn setup_conserves(game: GameView, first: Piece, second: Piece, ship: Piece)
    requires
        game.wf(),
        game.conserved(),
    ensures
        game.setup(first, second, ship) matches Ok(after) ==> after.conserved(),
{
    if let Ok(after) = game.setup(first, second, ship) {
        let player = game.state->Setup_0;
        let stars = seq![first, second];
        let wanted = seq![first, second, ship];
        let bare = SystemView {
            stars,
            home_player: Some(player),
            fleets: seq![Seq::<Piece>::empty(), Seq::<Piece>::empty()],
        };
        assert forall|p: Piece| #[trigger] after.total(p) == 3 by {
            assert(game.total(p) == 3);
            assert(occurrences(wanted, p) <= game.bank[p]);
            assert(stars.push(ship) =~= wanted);
            occurrences_push(stars, ship, p);
            assert(occurrences(Seq::<Piece>::empty(), p) == 0);
            census_with_ship(bare, player, ship, p);
            on_board_push(game.systems, bare.with_ship(player, ship), p);
        }
    }
}

/// Choosing a free move conserves every piece kind.
pub proof fn free_move_conserves(game: GameView, system: SystemIndex, color: Color)
    requires
        game.conserved(),
    ensures
        game.free_move(system, color) matches Ok(after) ==> after.conserved(),
{
    if let Ok(after) = game.free_move(system, color) {
        assert forall|p: Piece| #[trigger] after.total(p) == 3 by {
            assert(game.total(p) == 3);
        }
    }
}

/// Ending a turn conserves every piece kind.
pub proof fn end_turn_conserves(game: GameView)
    requires
        game.conserved(),
    ensures
        game.end_turn() matches Ok(after) ==> after.conserved(),
{
    if let Ok(after) = game.end_turn() {
        assert forall|p: Piece| #[trigger] after.total(p) == 3 by {
            assert(game.total(p) == 3);
        }
    }
}

/// A catastrophe conserves every piece kind: what leaves the system
/// arrives in the bank.
pub proof fn catastrophe_conserves(game: GameView, system: SystemIndex, color: Color)
    requires
        game.wf(),
        game.conserved(),
    ensures
        game.catastrophe(system, color) matches Ok(after) ==> after.conserved(),
{
    if let Ok(after) = game.catastrophe(system, color) {
        let s = game.systems[system as int];
        let i = system as int;
        let bank = bank_after_catastrophe(game.bank, s, color);
        let systems = if s.evaporates(color) {
            game.systems.remove(i)
        } else {
            game.systems.update(i, s.purged(color))
        };
        let unsettled = GameView { bank, systems, ..game };
        purged_has_no_color(s, color);
        assert forall|p: Piece| #[trigger] unsettled.total(p) == 3 by {
            assert(game.total(p) == 3);
            census_is_on_board(game.systems, i, p);
            if s.evaporates(color) {
                on_board_remove(game.systems, i, p);
            } else {
                on_board_update(game.systems, i, s.purged(color), p);
            }
        }
        settling_conserves(unsettled);
    }
}

/// Whether the action is one that moves pieces without making or
/// unmaking any: a capture, a build, a move or a discovery, but not a
/// trade.
pub open spec fn moves_pieces_only(action: Action) -> bool {
    !(action.color_action is BlueAction)
}

/// A capture conserves every piece kind: the ship changes sides within
/// its system.
pub proof fn capture_conserves(
    game: GameView,
    player: PlayerIndex,
    system: SystemIndex,
    ship: Piece,
    input: RedActionInput,
)
    requires
        game.wf(),
        game.conserved(),
        game.has_system(system),
        player < NUM_PLAYERS,
    ensures
        game.red_action(player, system, ship, input) matches Ok(after) ==> after.conserved(),
{
    if let Ok(after) = game.red_action(player, system, ship, input) {
        let i = system as int;
        let s = game.systems[i];
        let taken = input.ship_to_take;
        let bare = s.without_ship(input.enemy_player, taken);
        assert forall|p: Piece| #[trigger] after.total(p) == 3 by {
            assert(game.total(p) == 3);
            census_without_ship(s, input.enemy_player, taken, p);
            census_with_ship(bare, player, taken, p);
            on_board_update(game.systems, i, bare.with_ship(player, taken), p);
        }
    }
}

/// A build conserves every piece kind: the new ship comes out of the bank.
pub proof fn build_conserves(game: GameView, player: PlayerIndex, system: SystemIndex, ship: Piece)
    requires
        game.wf(),
        game.conserved(),
        game.has_system(system),
        player < NUM_PLAYERS,
    ensures
        game.green_action(player, system, ship) matches Ok(after) ==> after.conserved(),
{
    if let Ok(after) = game.green_action(player, system, ship) {
        let i = system as int;
        let s = game.systems[i];
        let new_ship = smallest_available(game.bank, ship.color)->Some_0;
        assert forall|p: Piece| #[trigger] after.total(p) == 3 by {
            assert(game.total(p) == 3);
            census_with_ship(s, player, new_ship, p);
            on_board_update(game.systems, i, s.with_ship(player, new_ship), p);
        }
    }
}

/// A move to a system of the game conserves every piece kind: the ship
/// leaves one system for another, and the stars of a system that it leaves
/// empty go back to the bank.
pub proof fn move_conserves(
    game: GameView,
    player: PlayerIndex,
    system: SystemIndex,
    ship: Piece,
    target: SystemIndex,
)
    requires
        game.wf(),
        game.conserved(),
        game.has_system(system),
        player < NUM_PLAYERS,
        game.systems[system as int].fleets[player as int].contains(ship),
    ensures
        game.yellow_action(player, system, ship, YellowActionInput::Existing(target)) matches Ok(
            after,
        ) ==> after.conserved(),
{
    if let Ok(after) = game.yellow_action(player, system, ship, YellowActionInput::Existing(target)) {
        let i = system as int;
        let t = target as int;
        let s = game.systems[i];
        let arrived = game.systems.update(t, game.systems[t].with_ship(player, ship));
        let left = arrived.update(i, s.without_ship(player, ship));
        let moved = GameView { systems: left, ..game };
        never_adjacent_to_itself(s);
        assert(t != i);
        assert forall|p: Piece| #[trigger] moved.total(p) == 3 by {
            assert(game.total(p) == 3);
            census_with_ship(game.systems[t], player, ship, p);
            census_without_ship(s, player, ship, p);
            on_board_update(game.systems, t, game.systems[t].with_ship(player, ship), p);
            on_board_update(arrived, i, s.without_ship(player, ship), p);
        }
        assert(moved.systems[i].fleets.len() == NUM_PLAYERS);
        evaporation_conserves(moved, i);
    }
}

/// A discovery conserves every piece kind: the new star comes out of the
/// bank, the ship leaves one system for the new one, and the stars of a
/// system that it leaves empty go back to the bank.
pub proof fn discovery_conserves(
    game: GameView,
    player: PlayerIndex,
    system: SystemIndex,
    ship: Piece,
    star: Piece,
)
    requires
        game.wf(),
        game.conserved(),
        game.has_system(system),
        player < NUM_PLAYERS,
        game.systems[system as int].fleets[player as int].contains(ship),
    ensures
        game.yellow_action(player, system, ship, YellowActionInput::Discover(star)) matches Ok(
            after,
        ) ==> after.conserved(),
{
    if let Ok(after) = game.yellow_action(player, system, ship, YellowActionInput::Discover(star)) {
        let i = system as int;
        let s = game.systems[i];
        let found = discovery(star, player, ship);
        let bare = SystemView {
            stars: seq![star],
            home_player: None,
            fleets: seq![Seq::<Piece>::empty(), Seq::<Piece>::empty()],
        };
        let arrived = game.systems.push(found);
        let moved = GameView {
            bank: game.bank.insert(star, (game.bank[star] - 1) as nat),
            systems: arrived.update(i, s.without_ship(player, ship)),
            ..game
        };
        assert forall|p: Piece| #[trigger] moved.total(p) == 3 by {
            assert(game.total(p) == 3);
            assert(Seq::<Piece>::empty().push(star) =~= seq![star]);
            occurrences_push(Seq::<Piece>::empty(), star, p);
            assert(occurrences(Seq::<Piece>::empty(), p) == 0);
            census_with_ship(bare, player, ship, p);
            census_without_ship(s, player, ship, p);
            on_board_push(game.systems, found, p);
            on_board_update(arrived, i, s.without_ship(player, ship), p);
        }
        assert(moved.systems[i].fleets.len() == NUM_PLAYERS);
        evaporation_conserves(moved, i);
    }
}

/// Every action but a trade conserves every piece kind: a capture, a
/// build, a move to a system of the game, and a discovery.
pub proof fn action_conserves(game: GameView, action: Action)
    requires
        game.wf(),
        game.conserved(),
        moves_pieces_only(action),
    ensures
        game.action(action) matches Ok(after) ==> after.conserved(),
{
    if let Ok(after) = game.action(action) {
        let player = game.state->Turn_0;
        let performed = game.performed(player, action)->Ok_0;
        match action.color_action {
            ColorAction::RedAction(input) => {
                capture_conserves(game, player, action.system, action.ship, input);
            },
            ColorAction::GreenAction => {
                build_conserves(game, player, action.system, action.ship);
            },
            ColorAction::YellowAction(YellowActionInput::Existing(target)) => {
                move_conserves(game, player, action.system, action.ship, target);
            },
            ColorAction::YellowAction(YellowActionInput::Discover(star)) => {
                discovery_conserves(game, player, action.system, action.ship, star);
            },
            ColorAction::BlueAction(_) => {},
        }
        let unsettled = GameView {
            state: State::Turn(player, phase_after_action(game.state->Turn_1)),
            ..performed
        };
        assert forall|p: Piece| #[trigger] unsettled.total(p) == 3 by {
            assert(performed.total(p) == 3);
        }
        settling_conserves(unsettled);
    }
}

/// A sacrifice takes the ship out of the game: where every kind was in the
/// game three times, the ship's kind is left with two copies.
pub proof fn sacrifice_spends_the_ship(game: GameView, system: SystemIndex, ship: Piece)
    requires
        game.wf(),
        game.conserved(),
    ensures
        game.sacrifice(system, ship) matches Ok(after) ==> forall|p: Piece| #[trigger]
            after.total(p) == if p == ship {
                2nat
            } else {
                3nat
            },
{
    if let Ok(after) = game.sacrifice(system, ship) {
        let player = game.state->Turn_0;
        let i = system as int;
        let s = game.systems[i];
        let spent = GameView {
            state: State::Turn(player, TurnPhase::Sacrifice(ship.color, ship.size.rank() as u8)),
            systems: game.systems.update(i, s.without_ship(player, ship)),
            ..game
        };
        assert forall|p: Piece| #[trigger]
            spent.total(p) == if p == ship {
                2nat
            } else {
                3nat
            } by {
            assert(game.total(p) == 3);
            census_without_ship(s, player, ship, p);
            on_board_update(game.systems, i, s.without_ship(player, ship), p);
        }
        evaporation_keeps_totals(spent, i);
        let evaporated = spent.evaporated_if_empty(i);
        assert forall|p: Piece| #[trigger]
            after.total(p) == if p == ship {
                2nat
            } else {
                3nat
            } by {
            assert(evaporated.total(p) == spent.total(p));
        }
    }
}

/// A trade makes one kind of another: where every kind was in the game
/// three times, the ship's old kind is left with two copies and its new
/// kind has four.
pub proof fn trade_makes_one_kind_of_another(game: GameView, action: Action)
    requires
        game.wf(),
        game.conserved(),
        action.color_action is BlueAction,
    ensures
        game.action(action) matches Ok(after) ==> forall|p: Piece| #[trigger]
            after.total(p) == if p == action.ship {
                2nat
            } else if p == (Piece {
                color: action.color_action->BlueAction_0,
                size: action.ship.size,
            }) {
                4nat
            } else {
                3nat
            },
{
    if let Ok(after) = game.action(action) {
        let player = game.state->Turn_0;
        let performed = game.performed(player, action)->Ok_0;
        let i = action.system as int;
        let s = game.systems[i];
        let ship = action.ship;
        let new_ship = Piece { color: action.color_action->BlueAction_0, size: ship.size };
        let bare = s.without_ship(player, ship);
        assert forall|p: Piece| #[trigger]
            after.total(p) == if p == ship {
                2nat
            } else if p == new_ship {
                4nat
            } else {
                3nat
            } by {
            assert(game.total(p) == 3);
            census_without_ship(s, player, ship, p);
            census_with_ship(bare, player, new_ship, p);
            on_board_update(game.systems, i, bare.with_ship(player, new_ship), p);
            assert(after.total(p) == performed.total(p));
        }
    }
}

/// A catastrophe is refused for want of pieces exactly when the game is not
/// over, the system is one of the game, and it holds fewer than four pieces
/// of the colour. When it goes ahead, the system is gone from the game or
/// holds no piece of the colour.
pub proof fn catastrophe_is_gated(game: GameView, system: SystemIndex, color: Color)
    ensures
        game.catastrophe(system, color) == Err::<GameView, InputError>(
            InputError::NotCatastrophicEnough,
        ) <==> !(game.state is Finished) && game.has_system(system) && game.systems[system as int].color_count(
            color,
        ) < 4,
        game.catastrophe(system, color) is Ok <==> !(game.state is Finished) && game.has_system(
            system,
        ) && game.systems[system as int].color_count(color) >= 4,
        game.catastrophe(system, color) matches Ok(after) ==> {
            ||| after.systems == game.systems.remove(system as int)
            ||| {
                &&& after.systems.len() == game.systems.len()
                &&& after.systems[system as int].color_count(color) == 0
            }
        },
{
    if game.has_system(system) {
        purged_has_no_color(game.systems[system as int], color);
    }
}

/// Ending a turn that is done hands the turn to the next player, the last
/// player being followed by the first; in any other phase of a turn it is
/// refused as out of phase, and outside a turn as out of state.
pub proof fn turns_cycle(game: GameView)
    ensures
        game.state matches State::Turn(player, TurnPhase::Done) ==> game.end_turn() == Ok::<
            GameView,
            InputError,
        >(
            GameView {
                state: State::Turn(
                    ((player + 1) % (NUM_PLAYERS as int)) as u8,
                    TurnPhase::Started,
                ),
                ..game
            },
        ),
        game.state matches State::Turn(_, phase) && phase != TurnPhase::Done ==> game.end_turn()
            == Err::<GameView, InputError>(InputError::WrongPhase),
        !(game.state is Turn) ==> game.end_turn() == Err::<GameView, InputError>(
            InputError::WrongState,
        ),
{
}

/// The phase after `n` committed actions.
pub open spec fn phase_after_actions(phase: TurnPhase, n: nat) -> TurnPhase
    decreases n,
{
    if n == 0 {
        phase
    } else {
        phase_after_action(phase_after_actions(phase, (n - 1) as nat))
    }
}

/// The number of actions that the sacrifice of a ship of size `size` buys.
pub open spec fn budget(size: Size) -> nat {
    match size {
        Size::SMALL => 1,
        Size::MEDIUM => 2,
        Size::LARGE => 3,
    }
}

/// A sacrifice that leaves the game open puts the player in a sacrifice
/// phase of the ship's colour with as many moves as the ship is large:
/// one, two or three.
pub proof fn sacrifice_grants_budget(game: GameView, system: SystemIndex, ship: Piece)
    ensures
        game.sacrifice(system, ship) matches Ok(after) ==> {
            ||| after.state is Finished
            ||| after.state == State::Turn(
                game.state->Turn_0,
                TurnPhase::Sacrifice(ship.color, budget(ship.size) as u8),
            )
        },
{
}

/// In a sacrifice phase with `moves` moves left, each of the first
/// `moves - 1` committed actions leaves the phase open with one move less,
/// and the last one ends it.
pub proof fn budget_is_spent(color: Color, moves: u8, n: nat)
    requires
        1 <= moves,
        n <= moves,
    ensures
        phase_after_actions(TurnPhase::Sacrifice(color, moves), n) == if n < moves {
            TurnPhase::Sacrifice(color, (moves - n) as u8)
        } else {
            TurnPhase::Done
        },
    decreases n,
{
    if n > 0 {
        budget_is_spent(color, moves, (n - 1) as nat);
    }
}

/// An action that goes ahead in a game that stays open moves the phase on
/// by one action; a sacrifice phase admits actions of its own colour only,
/// and a phase that is done admits none.
pub proof fn action_spends_one_move(game: GameView, action: Action)
    ensures
        game.action(action) matches Ok(after) ==> {
            ||| after.state is Finished
            ||| after.state == State::Turn(
                game.state->Turn_0,
                phase_after_action(game.state->Turn_1),
            )
        },
        game.state matches State::Turn(_, TurnPhase::Sacrifice(color, _)) && action.color_action.color()
            != color ==> game.action(action) is Err,
        game.state matches State::Turn(_, TurnPhase::Done) ==> game.action(action) == Err::<
            GameView,
            InputError,
        >(InputError::WrongPhase),
{
}

} // verus!
