use homeworlds::bank::Bank;
use homeworlds::common::{Color, InputError, Piece, Size};
use homeworlds::system::{CatastropheResult, System};

fn pc(color: Color, size: Size) -> Piece {
    Piece { color, size }
}

#[test]
fn neutral_system_has_one_star_and_no_owner() {
    let star = pc(Color::BLUE, Size::SMALL);
    let system = System::new(star);
    assert_eq!(system.stars(), vec![star]);
    assert_eq!(system.home_player(), None);
    assert!(system.is_empty());
    assert!(system.get_ships(0).is_empty());
    assert!(system.get_ships(1).is_empty());
}

#[test]
fn homeworld_has_two_stars_and_an_owner() {
    let a = pc(Color::BLUE, Size::SMALL);
    let b = pc(Color::RED, Size::LARGE);
    let system = System::new_homeworld([a, b], 1);
    assert_eq!(system.stars(), vec![a, b]);
    assert_eq!(system.home_player(), Some(1));
    assert!(system.is_empty());
}

#[test]
fn add_ship_appends_to_the_players_fleet() {
    let mut system = System::new(pc(Color::BLUE, Size::SMALL));
    let a = pc(Color::GREEN, Size::MEDIUM);
    let b = pc(Color::RED, Size::SMALL);
    system.add_ship(1, a);
    system.add_ship(1, b);
    assert_eq!(system.get_ships(1), &vec![a, b]);
    assert!(system.get_ships(0).is_empty());
    assert!(!system.is_empty());
    assert!(system.has_ship(1, a));
    assert!(!system.has_ship(0, a));
    assert!(!system.has_ship(1, pc(Color::GREEN, Size::SMALL)));
}

#[test]
fn remove_ship_takes_the_first_match_only() {
    let mut system = System::new(pc(Color::BLUE, Size::SMALL));
    let a = pc(Color::GREEN, Size::MEDIUM);
    let b = pc(Color::RED, Size::SMALL);
    system.add_ship(0, a);
    system.add_ship(0, b);
    system.add_ship(0, a);
    assert_eq!(system.remove_ship(0, a), Ok(()));
    assert_eq!(system.get_ships(0), &vec![b, a]);
    assert_eq!(system.remove_ship(0, a), Ok(()));
    assert_eq!(system.get_ships(0), &vec![b]);
}

#[test]
fn remove_ship_fails_without_a_match() {
    let mut system = System::new(pc(Color::BLUE, Size::SMALL));
    let a = pc(Color::GREEN, Size::MEDIUM);
    system.add_ship(0, a);
    assert_eq!(system.remove_ship(1, a), Err(InputError::NoSuchShip));
    assert_eq!(
        system.remove_ship(0, pc(Color::GREEN, Size::SMALL)),
        Err(InputError::NoSuchShip)
    );
    assert_eq!(system.get_ships(0), &vec![a]);
}

#[test]
fn systems_with_distinct_star_sizes_are_adjacent() {
    let a = System::new(pc(Color::BLUE, Size::SMALL));
    let b = System::new_homeworld([pc(Color::RED, Size::MEDIUM), pc(Color::BLUE, Size::LARGE)], 0);
    assert!(a.is_adjacent(&b));
    assert!(b.is_adjacent(&a));
}

#[test]
fn systems_that_share_a_star_size_are_not_adjacent() {
    let a = System::new(pc(Color::BLUE, Size::LARGE));
    let b = System::new_homeworld([pc(Color::RED, Size::MEDIUM), pc(Color::GREEN, Size::LARGE)], 0);
    assert!(!a.is_adjacent(&b));
    assert!(!b.is_adjacent(&a));
}

#[test]
fn a_system_is_not_adjacent_to_itself() {
    let a = System::new(pc(Color::BLUE, Size::LARGE));
    let b = System::new_homeworld([pc(Color::RED, Size::MEDIUM), pc(Color::GREEN, Size::SMALL)], 0);
    assert!(!a.is_adjacent(&a));
    assert!(!b.is_adjacent(&b));
}

#[test]
fn adjacency_is_not_transitive() {
    let small = System::new(pc(Color::BLUE, Size::SMALL));
    let medium = System::new(pc(Color::BLUE, Size::MEDIUM));
    let other_small = System::new(pc(Color::RED, Size::SMALL));
    assert!(small.is_adjacent(&medium));
    assert!(medium.is_adjacent(&other_small));
    assert!(!small.is_adjacent(&other_small));
}

#[test]
fn color_count_counts_stars_and_all_fleets() {
    let mut system =
        System::new_homeworld([pc(Color::RED, Size::MEDIUM), pc(Color::GREEN, Size::SMALL)], 0);
    system.add_ship(0, pc(Color::RED, Size::SMALL));
    system.add_ship(1, pc(Color::RED, Size::LARGE));
    system.add_ship(1, pc(Color::BLUE, Size::LARGE));
    assert_eq!(system.color_count(Color::RED), 3);
    assert_eq!(system.color_count(Color::GREEN), 1);
    assert_eq!(system.color_count(Color::BLUE), 1);
    assert_eq!(system.color_count(Color::YELLOW), 0);
}

fn bank_without(pieces: &[Piece]) -> Bank {
    let mut bank = Bank::full();
    assert_eq!(bank.remove_several(pieces), Ok(()));
    bank
}

#[test]
fn catastrophe_removes_ships_of_the_colour_from_every_fleet() {
    let star = pc(Color::BLUE, Size::SMALL);
    let r1 = pc(Color::RED, Size::SMALL);
    let r2 = pc(Color::RED, Size::MEDIUM);
    let g = pc(Color::GREEN, Size::LARGE);
    let mut bank = bank_without(&[star, r1, r1, r2, r2, g]);
    let mut system = System::new(star);
    system.add_ship(0, r1);
    system.add_ship(0, g);
    system.add_ship(0, r2);
    system.add_ship(1, r1);
    system.add_ship(1, r2);
    let result = system.catastrophe(Color::RED, &mut bank);
    assert!(matches!(result, CatastropheResult::SystemStillExists));
    assert_eq!(system.get_ships(0), &vec![g]);
    assert!(system.get_ships(1).is_empty());
    assert_eq!(system.stars(), vec![star]);
    assert_eq!(system.color_count(Color::RED), 0);
    assert_eq!(bank.num_available(r1), 3);
    assert_eq!(bank.num_available(r2), 3);
    assert_eq!(bank.num_available(g), 2);
    assert_eq!(bank.num_available(star), 2);
}

#[test]
fn catastrophe_of_one_star_of_two_leaves_the_other() {
    let red_star = pc(Color::RED, Size::SMALL);
    let blue_star = pc(Color::BLUE, Size::LARGE);
    let r = pc(Color::RED, Size::MEDIUM);
    let g = pc(Color::GREEN, Size::LARGE);
    let mut bank = bank_without(&[red_star, blue_star, r, r, r, g]);
    let mut system = System::new_homeworld([red_star, blue_star], 0);
    system.add_ship(0, r);
    system.add_ship(0, g);
    system.add_ship(1, r);
    system.add_ship(1, r);
    let result = system.catastrophe(Color::RED, &mut bank);
    assert!(matches!(result, CatastropheResult::SystemStillExists));
    assert_eq!(system.stars(), vec![blue_star]);
    assert_eq!(system.home_player(), Some(0));
    assert_eq!(system.get_ships(0), &vec![g]);
    assert!(system.get_ships(1).is_empty());
    assert_eq!(bank.num_available(red_star), 3);
    assert_eq!(bank.num_available(r), 3);
    assert_eq!(bank.num_available(blue_star), 2);
    assert_eq!(bank.num_available(g), 2);
}

#[test]
fn catastrophe_of_the_second_star_leaves_the_first() {
    let blue_star = pc(Color::BLUE, Size::LARGE);
    let red_star = pc(Color::RED, Size::SMALL);
    let g = pc(Color::GREEN, Size::LARGE);
    let mut bank = bank_without(&[red_star, blue_star, g]);
    let mut system = System::new_homeworld([blue_star, red_star], 1);
    system.add_ship(1, g);
    let result = system.catastrophe(Color::RED, &mut bank);
    assert!(matches!(result, CatastropheResult::SystemStillExists));
    assert_eq!(system.stars(), vec![blue_star]);
    assert_eq!(bank.num_available(red_star), 3);
    assert_eq!(bank.num_available(blue_star), 2);
}

#[test]
fn catastrophe_of_every_star_evaporates_the_system() {
    let star = pc(Color::RED, Size::SMALL);
    let r = pc(Color::RED, Size::MEDIUM);
    let g = pc(Color::GREEN, Size::LARGE);
    let mut bank = bank_without(&[star, r, r, r, g]);
    let mut system = System::new(star);
    system.add_ship(0, r);
    system.add_ship(0, g);
    system.add_ship(1, r);
    system.add_ship(1, r);
    let result = system.catastrophe(Color::RED, &mut bank);
    assert!(matches!(result, CatastropheResult::SystemEvaporated));
    assert_eq!(bank.num_available(star), 3);
    assert_eq!(bank.num_available(r), 3);
    assert_eq!(bank.num_available(g), 3);
}

#[test]
fn catastrophe_that_leaves_no_ship_evaporates_the_system() {
    let star = pc(Color::BLUE, Size::SMALL);
    let r = pc(Color::RED, Size::MEDIUM);
    let r2 = pc(Color::RED, Size::LARGE);
    let mut bank = bank_without(&[star, r, r, r, r2]);
    let mut system = System::new(star);
    system.add_ship(0, r);
    system.add_ship(0, r2);
    system.add_ship(1, r);
    system.add_ship(1, r);
    let result = system.catastrophe(Color::RED, &mut bank);
    assert!(matches!(result, CatastropheResult::SystemEvaporated));
    assert_eq!(bank.num_available(star), 3);
    assert_eq!(bank.num_available(r), 3);
    assert_eq!(bank.num_available(r2), 3);
}

#[test]
fn catastrophe_of_an_absent_colour_changes_nothing() {
    let star = pc(Color::BLUE, Size::SMALL);
    let g = pc(Color::GREEN, Size::LARGE);
    let mut bank = bank_without(&[star, g]);
    let mut system = System::new(star);
    system.add_ship(1, g);
    let result = system.catastrophe(Color::YELLOW, &mut bank);
    assert!(matches!(result, CatastropheResult::SystemStillExists));
    assert_eq!(system.stars(), vec![star]);
    assert_eq!(system.get_ships(1), &vec![g]);
    assert_eq!(bank.num_available(star), 2);
    assert_eq!(bank.num_available(g), 2);
}
