//! The game itself: setup, turns, coloured actions, catastrophes and the
//! end of the game.

use vstd::prelude::*;
use crate::bank::Bank;
use crate::common::{
    Color,
    InputError,
    Piece,
    PlayerIndex,
    Size,
    SystemIndex,
    CATASTROPHE_COUNT,
    NUM_PLAYERS,
};
use crate::inputs::{
    Action,
    ColorAction,
    RedActionInput,
    SetupMove,
    TurnPhase,
    YellowActionInput,
};
use crate::rules::{discovery, follows, has_color, home_of, GameView, State};
use crate::system::{CatastropheResult, System, SystemView};

verus! {

#[derive(Debug)]
pub struct Game {
    state: State,
    bank: Bank,
    systems: Vec<System>,
}

impl View for Game {
    type V = GameView;

    closed spec fn view(&self) -> GameView {
        GameView {
            state: self.state,
            bank: self.bank@,
            systems: Seq::new(self.systems@.len(), |i: int| self.systems@[i]@),
        }
    }
}

/// `home_of` points at the first homeworld of the player, and past the end
/// only when there is none.
pub proof fn home_of_is_first(systems: Seq<SystemView>, player: PlayerIndex)
    ensures
        0 <= home_of(systems, player) <= systems.len(),
        home_of(systems, player) < systems.len() ==> systems[home_of(
            systems,
            player,
        )].home_player == Some(player),
        forall|j: int|
            0 <= j < home_of(systems, player) ==> (#[trigger] systems[j]).home_player != Some(
                player,
            ),
    decreases systems.len(),
{
    if systems.len() > 0 && systems[0].home_player != Some(player) {
        let rest = systems.drop_first();
        home_of_is_first(rest, player);
        assert forall|j: int| 0 <= j < home_of(systems, player) implies (
        #[trigger] systems[j]).home_player != Some(player) by {
            if j > 0 {
                assert(rest[j - 1] == systems[j]);
            }
        }
        if home_of(rest, player) < rest.len() {
            assert(systems[home_of(systems, player)] == rest[home_of(rest, player)]);
        }
    }
}

impl Game {
    /// The bank and every system are well formed.
    pub closed spec fn sound(&self) -> bool {
        &&& self.bank.wf()
        &&& forall|i: int| 0 <= i < self.systems@.len() ==> (#[trigger] self.systems@[i]).wf()
    }

    /// The bank and every system are well formed, and the game as a whole
    /// is one that the rules allow.
    pub open spec fn wf(&self) -> bool {
        &&& self.sound()
        &&& self@.wf()
    }

    /// In a sound game the bank lists every kind with at most three copies,
    /// and every system has one or two stars and a fleet per player.
    pub proof fn shapes(&self)
        requires
            self.sound(),
        ensures
            forall|p: Piece| self@.bank.dom().contains(p),
            forall|p: Piece| #[trigger] self@.bank[p] <= 3,
            forall|i: int|
                0 <= i < self@.systems.len() ==> {
                    let s = #[trigger] self@.systems[i];
                    &&& s.fleets.len() == NUM_PLAYERS
                    &&& 1 <= s.stars.len() <= 2
                },
    {
        self.bank.counts_are_bounded();
        assert forall|i: int| 0 <= i < self@.systems.len() implies {
            let s = #[trigger] self@.systems[i];
            &&& s.fleets.len() == NUM_PLAYERS
            &&& 1 <= s.stars.len() <= 2
        } by {
            self.systems@[i].shape();
        }
    }

    /// A new game: the first player sets up, the bank is full, and there
    /// are no systems.
    pub fn new() -> (game: Game)
        ensures
            game.wf(),
            game@ == GameView::initial(),
    {
        let game = Game { bank: Bank::full(), state: State::Setup(0), systems: Vec::new() };
        proof {
            game.bank.counts_are_bounded();
            assert(game@.bank =~= GameView::initial().bank);
            assert(game@.systems =~= GameView::initial().systems);
        }
        game
    }

    /// The state the game is in.
    pub fn state(&self) -> (state: State)
        ensures
            state == self@.state,
    {
        self.state
    }

    /// The bank.
    pub fn bank(&self) -> (bank: &Bank)
        requires
            self.wf(),
        ensures
            bank.wf(),
            bank@ == self@.bank,
    {
        &self.bank
    }

    /// The systems, in index order.
    pub fn systems(&self) -> (systems: &Vec<System>)
        requires
            self.wf(),
        ensures
            systems@.len() == self@.systems.len(),
            forall|i: int|
                0 <= i < systems@.len() ==> (#[trigger] systems@[i]).wf() && systems@[i]@
                    == self@.systems[i],
    {
        &self.systems
    }

    /// Seats the next player: the two stars and the ship leave the bank
    /// together or not at all, and form the player's homeworld. After the
    /// last player the first turn begins.
    pub fn setup(&mut self, setup_move: &SetupMove) -> (r: Result<(), InputError>)
        requires
            old(self).wf(),
        ensures
            final(self).wf(),
            follows(
                old(self)@.setup(setup_move.stars@[0], setup_move.stars@[1], setup_move.ship),
                old(self)@,
                final(self)@,
                r,
            ),
    {
        match self.state {
            State::Setup(player) => self.setup_unchecked(player, setup_move),
            _ => Err(InputError::WrongState),
        }
    }

    /// Seats `player`, whose setup it is.
    fn setup_unchecked(&mut self, player: PlayerIndex, setup_move: &SetupMove) -> (r: Result<
        (),
        InputError,
    >)
        requires
            old(self).wf(),
            old(self)@.state == State::Setup(player),
        ensures
            final(self).wf(),
            follows(
                old(self)@.setup(setup_move.stars@[0], setup_move.stars@[1], setup_move.ship),
                old(self)@,
                final(self)@,
                r,
            ),
    {
        let wanted = vec![setup_move.stars[0], setup_move.stars[1], setup_move.ship];
        assert(wanted@ =~= seq![setup_move.stars@[0], setup_move.stars@[1], setup_move.ship]);
        match self.bank.remove_several(wanted.as_slice()) {
            Err(e) => {
                return Err(e);
            },
            Ok(_) => {},
        }
        let mut homeworld = System::new_homeworld(setup_move.stars, player);
        homeworld.add_ship(player, setup_move.ship);
        self.systems.push(homeworld);

        let next_player = player + 1;
        if next_player < NUM_PLAYERS {
            self.state = State::Setup(next_player);
        } else {
            self.state = State::Turn(0, TurnPhase::Started);
        }
        proof {
            let expected = old(self)@.setup(
                setup_move.stars@[0],
                setup_move.stars@[1],
                setup_move.ship,
            )->Ok_0;
            assert(self@.systems =~= expected.systems);
            self.shapes();
        }
        Ok(())
    }

    /// Chooses the free action of the turn: the power of `color` in
    /// `system`, where the player has a ship and a star or a ship of theirs
    /// has that colour.
    pub fn free_move(&mut self, system: SystemIndex, color: Color) -> (r: Result<(), InputError>)
        requires
            old(self).wf(),
        ensures
            final(self).wf(),
            follows(old(self)@.free_move(system, color), old(self)@, final(self)@, r),
    {
        match self.state {
            State::Turn(player, TurnPhase::Started) => {
                match self.check_free_move_available(player, system, color) {
                    Err(e) => {
                        return Err(e);
                    },
                    Ok(_) => {},
                }
                self.state = State::Turn(player, TurnPhase::FreeMove(system, color));
                Ok(())
            },
            State::Turn(_, _) => Err(InputError::WrongPhase),
            _ => Err(InputError::WrongState),
        }
    }

    /// Whether `player` may use the power of `color` in `system` for free.
    fn check_free_move_available(&self, player: PlayerIndex, system: SystemIndex, color: Color) -> (r:
        Result<(), InputError>)
        requires
            self.sound(),
            player < NUM_PLAYERS,
        ensures
            r == self@.free_move_available(player, system, color),
    {
        if system as usize >= self.systems.len() {
            return Err(InputError::BadSystem);
        }
        let system = &self.systems[system as usize];
        let available_ships = system.get_ships(player);
        if available_ships.len() == 0 {
            return Err(InputError::FreeActionUnavailable);
        }
        let stars = system.stars();
        if contains_color(&stars, color) {
            return Ok(());
        }
        if contains_color(available_ships, color) {
            return Ok(());
        }
        Err(InputError::FreeActionUnavailable)
    }

    /// Gives `ship` up for as many actions of its colour as it is large.
    /// The ship leaves the game; a system that it leaves empty evaporates.
    pub fn sacrifice(&mut self, system: SystemIndex, ship: Piece) -> (r: Result<(), InputError>)
        requires
            old(self).wf(),
        ensures
            final(self).wf(),
            follows(old(self)@.sacrifice(system, ship), old(self)@, final(self)@, r),
    {
        match self.state {
            State::Turn(player, TurnPhase::Started) => {
                if system as usize >= self.systems.len() {
                    return Err(InputError::BadSystem);
                }
                match self.systems[system as usize].remove_ship(player, ship) {
                    Err(e) => {
                        assert(self@.systems =~= old(self)@.systems);
                        return Err(e);
                    },
                    Ok(_) => {},
                }
                proof {
                    assert(self@.systems =~= old(self)@.systems.update(
                        system as int,
                        old(self)@.systems[system as int].without_ship(player, ship),
                    ));
                }
                self.evaporate_system_if_necessary(system);
                self.state = State::Turn(
                    player,
                    TurnPhase::Sacrifice(ship.color, ship.size.to_u8()),
                );
                proof {
                    self.shapes();
                }
                self.end_game_if_necessary();
                Ok(())
            },
            State::Turn(_, _) => Err(InputError::WrongPhase),
            _ => Err(InputError::WrongState),
        }
    }

    /// Wipes `color` out of `system`, which must hold at least four pieces
    /// of it, at any time before the game is over.
    pub fn catastrophe(&mut self, system: SystemIndex, color: Color) -> (r: Result<(), InputError>)
        requires
            old(self).wf(),
        ensures
            final(self).wf(),
            follows(old(self)@.catastrophe(system, color), old(self)@, final(self)@, r),
    {
        if let State::Finished(_) = self.state {
            return Err(InputError::WrongState);
        }
        if system as usize >= self.systems.len() {
            return Err(InputError::BadSystem);
        }
        let color_count = self.systems[system as usize].color_count(color);
        if color_count < CATASTROPHE_COUNT {
            return Err(InputError::NotCatastrophicEnough);
        }
        let result = self.systems[system as usize].catastrophe(color, &mut self.bank);
        match result {
            CatastropheResult::SystemEvaporated => {
                self.systems.remove(system as usize);
                proof {
                    assert(self@.systems =~= old(self)@.systems.remove(system as int));
                }
            },
            CatastropheResult::SystemStillExists => {
                proof {
                    assert(self@.systems =~= old(self)@.systems.update(
                        system as int,
                        old(self)@.systems[system as int].purged(color),
                    ));
                }
            },
        }
        proof {
            self.shapes();
        }
        self.end_game_if_necessary();
        Ok(())
    }

    /// Carries out one action of the phase's colour: a capture, a trade, a
    /// build, or a move. A failed action changes nothing.
    pub fn action(&mut self, action: Action) -> (r: Result<(), InputError>)
        requires
            old(self).wf(),
        ensures
            final(self).wf(),
            follows(old(self)@.action(action), old(self)@, final(self)@, r),
    {
        match self.state {
            State::Turn(player, TurnPhase::FreeMove(system, color)) => {
                match Game::check_free_move(system, color, action) {
                    Err(e) => {
                        return Err(e);
                    },
                    Ok(_) => {},
                }
                match self.check_action(player, action) {
                    Err(e) => {
                        return Err(e);
                    },
                    Ok(_) => {},
                }
                match self.action_unchecked(player, action) {
                    Err(e) => {
                        return Err(e);
                    },
                    Ok(_) => {},
                }
                self.state = State::Turn(player, TurnPhase::Done);
                self.end_game_if_necessary();
                Ok(())
            },
            State::Turn(player, TurnPhase::Sacrifice(color, moves_left)) => {
                match Game::check_sacrifice(color, moves_left, action) {
                    Err(e) => {
                        return Err(e);
                    },
                    Ok(_) => {},
                }
                match self.check_action(player, action) {
                    Err(e) => {
                        return Err(e);
                    },
                    Ok(_) => {},
                }
                match self.action_unchecked(player, action) {
                    Err(e) => {
                        return Err(e);
                    },
                    Ok(_) => {},
                }
                let moves_left = moves_left - 1;
                self.state = if moves_left > 0 {
                    State::Turn(player, TurnPhase::Sacrifice(color, moves_left))
                } else {
                    State::Turn(player, TurnPhase::Done)
                };
                self.end_game_if_necessary();
                Ok(())
            },
            State::Turn(_, _) => Err(InputError::WrongPhase),
            _ => Err(InputError::WrongState),
        }
    }

    /// Hands the turn to the next player, once the turn's moves are done.
    pub fn end_turn(&mut self) -> (r: Result<(), InputError>)
        requires
            old(self).wf(),
        ensures
            final(self).wf(),
            follows(old(self)@.end_turn(), old(self)@, final(self)@, r),
    {
        match self.state {
            State::Turn(player, TurnPhase::Done) => {
                let next_player = (player + 1) % NUM_PLAYERS;
                self.state = State::Turn(next_player, TurnPhase::Started);
                Ok(())
            },
            State::Turn(_, _) => Err(InputError::WrongPhase),
            _ => Err(InputError::WrongState),
        }
    }

    /// Whether the acting ship is where the action says it is.
    fn check_action(&self, player: PlayerIndex, action: Action) -> (r: Result<(), InputError>)
        requires
            self.sound(),
            player < NUM_PLAYERS,
        ensures
            r == self@.ship_in_place(player, action),
    {
        if action.system as usize >= self.systems.len() {
            return Err(InputError::BadSystem);
        }
        let system = &self.systems[action.system as usize];
        if !system.has_ship(player, action.ship) {
            return Err(InputError::NoSuchShip);
        }
        Ok(())
    }

    /// Carries the action out, the acting ship being in place.
    fn action_unchecked(&mut self, player: PlayerIndex, action: Action) -> (r: Result<
        (),
        InputError,
    >)
        requires
            old(self).wf(),
            player < NUM_PLAYERS,
            old(self)@.ship_in_place(player, action) is Ok,
        ensures
            final(self).wf(),
            final(self)@.state == old(self)@.state,
            follows(old(self)@.performed(player, action), old(self)@, final(self)@, r),
    {
        match action.color_action {
            ColorAction::RedAction(red_action_input) => self.red_action(
                player,
                action.system,
                action.ship,
                &red_action_input,
            ),
            ColorAction::BlueAction(new_color) => self.blue_action(
                player,
                action.system,
                action.ship,
                new_color,
            ),
            ColorAction::GreenAction => self.green_action(player, action.system, action.ship),
            ColorAction::YellowAction(yellow_action_input) => self.yellow_action(
                player,
                action.system,
                action.ship,
                &yellow_action_input,
            ),
        }
    }

    /// Capture: takes an enemy's ship in the acting ship's system.
    fn red_action(
        &mut self,
        player: PlayerIndex,
        system: SystemIndex,
        ship: Piece,
        input: &RedActionInput,
    ) -> (r: Result<(), InputError>)
        requires
            old(self).wf(),
            player < NUM_PLAYERS,
            old(self)@.has_system(system),
        ensures
            final(self).wf(),
            final(self)@.state == old(self)@.state,
            follows(
                old(self)@.red_action(player, system, ship, *input),
                old(self)@,
                final(self)@,
                r,
            ),
    {
        let enemy_player = input.enemy_player;
        let ship_to_take = input.ship_to_take;
        if player == enemy_player {
            return Err(InputError::WrongPlayer);
        }
        if ship_to_take.size > ship.size {
            return Err(InputError::ShipTooBig);
        }
        if enemy_player >= NUM_PLAYERS {
            return Err(InputError::WrongPlayer);
        }
        match self.systems[system as usize].remove_ship(enemy_player, ship_to_take) {
            Err(e) => {
                assert(self@.systems =~= old(self)@.systems);
                return Err(e);
            },
            Ok(_) => {},
        }
        self.systems[system as usize].add_ship(player, ship_to_take);
        proof {
            assert(self@.systems =~= old(self)@.red_action(
                player,
                system,
                ship,
                *input,
            )->Ok_0.systems);
            self.shapes();
        }
        Ok(())
    }

    /// Trade: gives the acting ship another colour.
    fn blue_action(
        &mut self,
        player: PlayerIndex,
        system: SystemIndex,
        ship: Piece,
        new_color: Color,
    ) -> (r: Result<(), InputError>)
        requires
            old(self).wf(),
            player < NUM_PLAYERS,
            old(self)@.has_system(system),
            old(self)@.systems[system as int].fleets[player as int].contains(ship),
        ensures
            final(self).wf(),
            final(self)@.state == old(self)@.state,
            follows(
                old(self)@.blue_action(player, system, ship, new_color),
                old(self)@,
                final(self)@,
                r,
            ),
    {
        if ship.color == new_color {
            return Err(InputError::WrongColor);
        }
        match self.systems[system as usize].remove_ship(player, ship) {
            Err(e) => {
                return Err(e);
            },
            Ok(_) => {},
        }
        let new_ship = Piece { color: new_color, size: ship.size };
        self.systems[system as usize].add_ship(player, new_ship);
        proof {
            assert(self@.systems =~= old(self)@.blue_action(
                player,
                system,
                ship,
                new_color,
            )->Ok_0.systems);
            self.shapes();
        }
        Ok(())
    }

    /// Build: adds the smallest ship of the acting ship's colour that the
    /// bank has.
    fn green_action(&mut self, player: PlayerIndex, system: SystemIndex, ship: Piece) -> (r: Result<
        (),
        InputError,
    >)
        requires
            old(self).wf(),
            player < NUM_PLAYERS,
            old(self)@.has_system(system),
        ensures
            final(self).wf(),
            final(self)@.state == old(self)@.state,
            follows(old(self)@.green_action(player, system, ship), old(self)@, final(self)@, r),
    {
        let possible_new_ships = vec![
            Piece { color: ship.color, size: Size::SMALL },
            Piece { color: ship.color, size: Size::MEDIUM },
            Piece { color: ship.color, size: Size::LARGE },
        ];
        let mut i: usize = 0;
        while i < possible_new_ships.len()
            invariant
                *self == *old(self),
                self.wf(),
                player < NUM_PLAYERS,
                self@.has_system(system),
                i <= 3,
                possible_new_ships@ == seq![
                    Piece { color: ship.color, size: Size::SMALL },
                    Piece { color: ship.color, size: Size::MEDIUM },
                    Piece { color: ship.color, size: Size::LARGE },
                ],
                forall|j: int| 0 <= j < i ==> self@.bank[#[trigger] possible_new_ships@[j]] == 0,
            decreases 3 - i,
        {
            let new_ship = possible_new_ships[i];
            if self.bank.num_available(new_ship) > 0 {
                proof {
                    assert(i >= 1 ==> self@.bank[possible_new_ships@[0]] == 0);
                    assert(i >= 2 ==> self@.bank[possible_new_ships@[1]] == 0);
                }
                let _ = self.bank.remove(new_ship);
                self.systems[system as usize].add_ship(player, new_ship);
                proof {
                    assert(self@.systems =~= old(self)@.green_action(
                        player,
                        system,
                        ship,
                    )->Ok_0.systems);
                    self.shapes();
                }
                return Ok(());
            }
            i = i + 1;
        }
        proof {
            assert(self@.bank[possible_new_ships@[0]] == 0);
            assert(self@.bank[possible_new_ships@[1]] == 0);
            assert(self@.bank[possible_new_ships@[2]] == 0);
        }
        Err(InputError::PieceUnavailable)
    }

    /// Move or discover: sends the acting ship to an adjacent system.
    fn yellow_action(
        &mut self,
        player: PlayerIndex,
        system: SystemIndex,
        ship: Piece,
        yellow_action_input: &YellowActionInput,
    ) -> (r: Result<(), InputError>)
        requires
            old(self).wf(),
            player < NUM_PLAYERS,
            old(self)@.has_system(system),
            old(self)@.systems[system as int].fleets[player as int].contains(ship),
        ensures
            final(self).wf(),
            final(self)@.state == old(self)@.state,
            follows(
                old(self)@.yellow_action(player, system, ship, *yellow_action_input),
                old(self)@,
                final(self)@,
                r,
            ),
    {
        let target = match self.get_yellow_target(system, yellow_action_input) {
            Err(e) => {
                return Err(e);
            },
            Ok(target) => target,
        };
        let ghost found = self@;
        proof {
            let source = old(self)@.systems[system as int];
            old(self).shapes();
            assert(found.systems[system as int] == source);
            if target == system as usize {
                crate::system::never_adjacent_to_itself(source);
            }
        }
        self.systems[target].add_ship(player, ship);
        proof {
            assert(self@.systems =~= found.systems.update(
                target as int,
                found.systems[target as int].with_ship(player, ship),
            ));
        }
        assert(self.systems@[system as int]@ == old(self)@.systems[system as int]) by {
            assert(self@.systems[system as int] == found.systems[system as int]);
        }
        match self.systems[system as usize].remove_ship(player, ship) {
            Err(e) => {
                return Err(e);
            },
            Ok(_) => {},
        }
        proof {
            let source = old(self)@.systems[system as int];
            assert(self@.systems =~= found.systems.update(
                target as int,
                found.systems[target as int].with_ship(player, ship),
            ).update(system as int, source.without_ship(player, ship)));
            match *yellow_action_input {
                YellowActionInput::Existing(_) => {},
                YellowActionInput::Discover(new_star) => {
                    assert(found.systems[target as int].with_ship(player, ship) =~= discovery(
                        new_star,
                        player,
                        ship,
                    ));
                    assert(self@.systems =~= old(self)@.systems.push(
                        discovery(new_star, player, ship),
                    ).update(system as int, source.without_ship(player, ship)));
                },
            }
        }
        self.evaporate_system_if_necessary(system);
        proof {
            self.shapes();
        }
        Ok(())
    }

    /// Finds the system that a move goes to: an adjacent system of the
    /// game, or a new one around the named star. The new system joins the
    /// game if it is adjacent and the bank has the star, which then leaves
    /// the bank.
    fn get_yellow_target(&mut self, system: SystemIndex, yellow_action_input: &YellowActionInput) -> (r:
        Result<usize, InputError>)
        requires
            old(self).wf(),
            old(self)@.has_system(system),
        ensures
            final(self).sound(),
            final(self)@.state == old(self)@.state,
            r matches Ok(target) ==> target < final(self)@.systems.len(),
            match *yellow_action_input {
                YellowActionInput::Existing(target) => {
                    &&& final(self)@ == old(self)@
                    &&& r == if !old(self)@.has_system(target) {
                        Err::<usize, InputError>(InputError::BadSystem)
                    } else if !old(self)@.systems[system as int].is_adjacent(
                        old(self)@.systems[target as int],
                    ) {
                        Err::<usize, InputError>(InputError::SystemsNotAdjacent)
                    } else {
                        Ok::<usize, InputError>(target as usize)
                    }
                },
                YellowActionInput::Discover(new_star) => {
                    let new_system = SystemView {
                        stars: seq![new_star],
                        home_player: None,
                        fleets: seq![Seq::<Piece>::empty(), Seq::<Piece>::empty()],
                    };
                    if !old(self)@.systems[system as int].is_adjacent(new_system) {
                        &&& r == Err::<usize, InputError>(InputError::SystemsNotAdjacent)
                        &&& final(self)@ == old(self)@
                    } else if old(self)@.bank[new_star] == 0 {
                        &&& r == Err::<usize, InputError>(InputError::PieceUnavailable)
                        &&& final(self)@ == old(self)@
                    } else {
                        &&& r matches Ok(target)
                        &&& target == old(self)@.systems.len()
                        &&& final(self)@.systems == old(self)@.systems.push(new_system)
                        &&& final(self)@.bank == old(self)@.bank.insert(
                            new_star,
                            (old(self)@.bank[new_star] - 1) as nat,
                        )
                    }
                },
            },
    {
        match yellow_action_input {
            YellowActionInput::Existing(existing_system_index) => {
                let target = *existing_system_index as usize;
                if target >= self.systems.len() {
                    return Err(InputError::BadSystem);
                }
                if !self.systems[system as usize].is_adjacent(&self.systems[target]) {
                    return Err(InputError::SystemsNotAdjacent);
                }
                Ok(target)
            },
            YellowActionInput::Discover(new_star) => {
                let new_system = System::new(*new_star);
                if !self.systems[system as usize].is_adjacent(&new_system) {
                    return Err(InputError::SystemsNotAdjacent);
                }
                match self.bank.remove(*new_star) {
                    Err(e) => {
                        return Err(e);
                    },
                    Ok(_) => {},
                }
                let target = self.systems.len();
                self.systems.push(new_system);
                proof {
                    assert(self@.systems =~= old(self)@.systems.push(new_system@));
                }
                Ok(target)
            },
        }
    }

    /// Whether a free move in `system` of `color` admits `action`.
    fn check_free_move(system: SystemIndex, color: Color, action: Action) -> (r: Result<
        (),
        InputError,
    >)
        ensures
            r == if system != action.system {
                Err::<(), InputError>(InputError::WrongSystem)
            } else if action.color_action.color() != color {
                Err::<(), InputError>(InputError::WrongActionColor)
            } else {
                Ok::<(), InputError>(())
            },
    {
        if system != action.system {
            return Err(InputError::WrongSystem);
        }
        Game::check_action_color(color, action.color_action)
    }

    /// Whether a sacrifice of `color` with `moves_left` moves admits
    /// `action`.
    fn check_sacrifice(color: Color, moves_left: u8, action: Action) -> (r: Result<(), InputError>)
        ensures
            r == if moves_left == 0 {
                Err::<(), InputError>(InputError::NoActionsLeft)
            } else if action.color_action.color() != color {
                Err::<(), InputError>(InputError::WrongActionColor)
            } else {
                Ok::<(), InputError>(())
            },
    {
        if moves_left == 0 {
            return Err(InputError::NoActionsLeft);
        }
        Game::check_action_color(color, action.color_action)
    }

    /// Whether `color_action` uses the power of `color`.
    fn check_action_color(color: Color, color_action: ColorAction) -> (r: Result<(), InputError>)
        ensures
            r == if color_action.color() != color {
                Err::<(), InputError>(InputError::WrongActionColor)
            } else {
                Ok::<(), InputError>(())
            },
    {
        let fits = match color_action {
            ColorAction::RedAction(_) => color == Color::RED,
            ColorAction::BlueAction(_) => color == Color::BLUE,
            ColorAction::GreenAction => color == Color::GREEN,
            ColorAction::YellowAction(_) => color == Color::YELLOW,
        };
        if fits {
            Ok(())
        } else {
            Err(InputError::WrongActionColor)
        }
    }

    /// Whether `player`'s homeworld holds none of their ships.
    fn is_loser(&self, player: PlayerIndex) -> (b: bool)
        requires
            self.sound(),
            player < NUM_PLAYERS,
        ensures
            b == self@.is_loser(player),
    {
        proof {
            home_of_is_first(self@.systems, player);
        }
        let mut i: usize = 0;
        while i < self.systems.len()
            invariant
                self.sound(),
                player < NUM_PLAYERS,
                i <= self.systems@.len(),
                forall|j: int| 0 <= j < i ==> (#[trigger] self@.systems[j]).home_player != Some(player),
                0 <= home_of(self@.systems, player) <= self@.systems.len(),
                home_of(self@.systems, player) < self@.systems.len() ==> self@.systems[home_of(
                    self@.systems,
                    player,
                )].home_player == Some(player),
                forall|j: int|
                    0 <= j < home_of(self@.systems, player) ==> (
                    #[trigger] self@.systems[j]).home_player != Some(player),
            decreases self.systems@.len() - i,
        {
            let system = &self.systems[i];
            assert(system@ == self@.systems[i as int]);
            let is_home = match system.home_player() {
                None => false,
                Some(home_player) => home_player == player,
            };
            if is_home {
                assert(home_of(self@.systems, player) == i);
                return system.get_ships(player).len() == 0;
            }
            i = i + 1;
        }
        false
    }

    /// The one player who has not lost, where all the others have.
    fn get_winner(&self) -> (winner: Option<PlayerIndex>)
        requires
            self.sound(),
        ensures
            winner == self@.winner(),
    {
        let mut non_losers: Vec<PlayerIndex> = Vec::new();
        let mut player: PlayerIndex = 0;
        while player < NUM_PLAYERS
            invariant
                self.sound(),
                player <= NUM_PLAYERS,
                non_losers@ == survivors(self@, player as int),
            decreases NUM_PLAYERS - player,
        {
            if !self.is_loser(player) {
                non_losers.push(player);
            }
            player = player + 1;
        }
        proof {
            reveal_with_fuel(survivors, 3);
        }
        if non_losers.len() == 1 {
            Some(non_losers[0])
        } else {
            None
        }
    }

    /// Ends the game if exactly one player has not lost.
    fn end_game_if_necessary(&mut self) -> (ended: bool)
        requires
            old(self).sound(),
        ensures
            final(self).sound(),
            final(self)@ == old(self)@.settled(),
            ended == old(self)@.winner().is_some(),
            old(self)@.wf() ==> final(self)@.wf(),
    {
        let winner = self.get_winner();
        if let Some(winner) = winner {
            self.state = State::Finished(winner);
            true
        } else {
            false
        }
    }

    /// Removes the system if it has no ship left, and sends its stars back
    /// to the bank.
    fn evaporate_system_if_necessary(&mut self, system: SystemIndex)
        requires
            old(self).sound(),
            (system as int) < old(self)@.systems.len(),
        ensures
            final(self).sound(),
            final(self)@ == old(self)@.evaporated_if_empty(system as int),
    {
        if self.systems[system as usize].is_empty() {
            let stars = self.systems[system as usize].stars();
            self.bank.restock(&stars);
            self.systems.remove(system as usize);
            assert(self@.systems =~= old(self)@.systems.remove(system as int));
        }
    }
}

/// Whether some piece of `pieces` has colour `color`.
fn contains_color(pieces: &Vec<Piece>, color: Color) -> (b: bool)
    ensures
        b == has_color(pieces@, color),
{
    let mut i: usize = 0;
    while i < pieces.len()
        invariant
            i <= pieces@.len(),
            forall|j: int| 0 <= j < i ==> (#[trigger] pieces@[j]).color != color,
        decreases pieces@.len() - i,
    {
        if pieces[i].color == color {
            return true;
        }
        i = i + 1;
    }
    false
}

/// The players below `upto` who have not lost, in seat order.
pub open spec fn survivors(game: GameView, upto: int) -> Seq<PlayerIndex>
    decreases upto,
{
    if upto <= 0 {
        Seq::empty()
    } else if game.is_loser((upto - 1) as u8) {
        survivors(game, upto - 1)
    } else {
        survivors(game, upto - 1).push((upto - 1) as u8)
    }
}

} // verus!
