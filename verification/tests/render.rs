use homeworlds::bank::Bank;
use homeworlds::common::{Color, Piece, Size};
use homeworlds::game::Game;
use homeworlds::inputs::{Action, ColorAction, SetupMove, TurnPhase};
use homeworlds::rules::State;
use homeworlds::system::System;

fn pc(color: Color, size: Size) -> Piece {
    Piece { color, size }
}

#[test]
fn colours_and_sizes_have_names() {
    assert_eq!(Color::RED.name(), "Red");
    assert_eq!(Color::BLUE.name(), "Blue");
    assert_eq!(Color::GREEN.name(), "Green");
    assert_eq!(Color::YELLOW.name(), "Yellow");
    assert_eq!(Size::SMALL.name(), "Small");
    assert_eq!(Size::MEDIUM.name(), "Medium");
    assert_eq!(Size::LARGE.name(), "Large");
}

#[test]
fn piece_reads_as_size_then_colour() {
    assert_eq!(pc(Color::RED, Size::SMALL).describe(), "Small Red");
    assert_eq!(pc(Color::YELLOW, Size::LARGE).describe(), "Large Yellow");
}

#[test]
fn full_bank_listing() {
    assert_eq!(
        Bank::full().describe(),
        "Bank: Red 3S 3M 3L | Blue 3S 3M 3L | Green 3S 3M 3L | Yellow 3S 3M 3L"
    );
}

#[test]
fn bank_listing_shows_each_count() {
    let mut bank = Bank::full();
    assert!(bank
        .remove_several(&[
            pc(Color::RED, Size::MEDIUM),
            pc(Color::GREEN, Size::SMALL),
            pc(Color::GREEN, Size::SMALL),
            pc(Color::YELLOW, Size::LARGE),
            pc(Color::YELLOW, Size::LARGE),
            pc(Color::YELLOW, Size::LARGE),
        ])
        .is_ok());
    assert_eq!(
        bank.describe(),
        "Bank: Red 3S 2M 3L | Blue 3S 3M 3L | Green 1S 3M 3L | Yellow 3S 3M 0L"
    );
}

#[test]
fn neutral_system_listing() {
    let mut system = System::new(pc(Color::RED, Size::MEDIUM));
    assert_eq!(system.describe(), "Medium Red star; ");
    system.add_ship(1, pc(Color::YELLOW, Size::LARGE));
    assert_eq!(
        system.describe(),
        "Medium Red star; Player 1's ship(s): Large Yellow; "
    );
}

#[test]
fn homeworld_listing_names_owner_stars_and_fleets() {
    let mut system =
        System::new_homeworld([pc(Color::BLUE, Size::SMALL), pc(Color::YELLOW, Size::SMALL)], 0);
    system.add_ship(0, pc(Color::GREEN, Size::LARGE));
    system.add_ship(0, pc(Color::GREEN, Size::SMALL));
    system.add_ship(1, pc(Color::RED, Size::MEDIUM));
    system.add_ship(0, pc(Color::BLUE, Size::MEDIUM));
    assert_eq!(
        system.describe(),
        "Player 0's homeworld, binary stars Small Blue/Small Yellow; \
         Player 0's ship(s): Large Green, Small Green, Medium Blue; \
         Player 1's ship(s): Medium Red; "
    );
}

#[test]
fn state_texts() {
    assert_eq!(State::Setup(0).describe(), "Player 0's setup");
    assert_eq!(State::Finished(1).describe(), "Game over, player 1 wins");
    assert_eq!(
        State::Turn(1, TurnPhase::Started).describe(),
        "Player 1's turn, no move selected"
    );
    assert_eq!(
        State::Turn(0, TurnPhase::Done).describe(),
        "Player 0's turn, no moves left"
    );
    assert_eq!(
        State::Turn(0, TurnPhase::FreeMove(2, Color::GREEN)).describe(),
        "Player 0's turn, free Green move in system 2"
    );
    assert_eq!(
        State::Turn(1, TurnPhase::Sacrifice(Color::YELLOW, 3)).describe(),
        "Player 1's turn, Yellow sacrifice, 3 move(s) left"
    );
}

#[test]
fn numbers_are_written_in_decimal() {
    assert_eq!(
        State::Turn(0, TurnPhase::FreeMove(255, Color::RED)).describe(),
        "Player 0's turn, free Red move in system 255"
    );
    assert_eq!(
        State::Turn(0, TurnPhase::FreeMove(100, Color::RED)).describe(),
        "Player 0's turn, free Red move in system 100"
    );
    assert_eq!(
        State::Turn(0, TurnPhase::FreeMove(109, Color::RED)).describe(),
        "Player 0's turn, free Red move in system 109"
    );
    assert_eq!(
        State::Turn(0, TurnPhase::FreeMove(10, Color::RED)).describe(),
        "Player 0's turn, free Red move in system 10"
    );
    assert_eq!(
        State::Turn(0, TurnPhase::FreeMove(47, Color::RED)).describe(),
        "Player 0's turn, free Red move in system 47"
    );
    assert_eq!(State::Setup(9).describe(), "Player 9's setup");
}

#[test]
fn new_game_status() {
    assert_eq!(Game::new().describe(), "Player 0's setup\nSystems:\n");
}

#[test]
fn running_game_status_lists_every_system() {
    let mut game = Game::new();
    assert!(game
        .setup(&SetupMove {
            stars: [pc(Color::BLUE, Size::SMALL), pc(Color::YELLOW, Size::SMALL)],
            ship: pc(Color::GREEN, Size::LARGE),
        })
        .is_ok());
    assert!(game
        .setup(&SetupMove {
            stars: [pc(Color::RED, Size::LARGE), pc(Color::BLUE, Size::MEDIUM)],
            ship: pc(Color::YELLOW, Size::MEDIUM),
        })
        .is_ok());
    assert!(game.free_move(0, Color::GREEN).is_ok());
    assert!(game
        .action(Action {
            system: 0,
            ship: pc(Color::GREEN, Size::LARGE),
            color_action: ColorAction::GreenAction,
        })
        .is_ok());
    assert_eq!(
        game.describe(),
        "Player 0's turn, no moves left\nSystems:\n \
         - Player 0's homeworld, binary stars Small Blue/Small Yellow; \
         Player 0's ship(s): Large Green, Small Green; \n \
         - Player 1's homeworld, binary stars Large Red/Medium Blue; \
         Player 1's ship(s): Medium Yellow; \n"
    );
}
