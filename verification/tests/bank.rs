use homeworlds::bank::Bank;
use homeworlds::common::{Color, InputError, Piece, Size};

const COLORS: [Color; 4] = [Color::RED, Color::BLUE, Color::GREEN, Color::YELLOW];
const SIZES: [Size; 3] = [Size::SMALL, Size::MEDIUM, Size::LARGE];

fn piece(color: Color, size: Size) -> Piece {
    Piece { color, size }
}

#[test]
fn full_bank_holds_three_of_each_kind() {
    let bank = Bank::full();
    for color in COLORS {
        for size in SIZES {
            assert_eq!(bank.num_available(piece(color, size)), 3);
        }
    }
}

#[test]
fn remove_takes_one_copy_of_one_kind() {
    let mut bank = Bank::full();
    let p = piece(Color::RED, Size::MEDIUM);
    assert_eq!(bank.remove(p), Ok(()));
    assert_eq!(bank.num_available(p), 2);
    for color in COLORS {
        for size in SIZES {
            let q = piece(color, size);
            if q != p {
                assert_eq!(bank.num_available(q), 3);
            }
        }
    }
}

#[test]
fn remove_fails_when_none_is_left() {
    let mut bank = Bank::full();
    let p = piece(Color::GREEN, Size::SMALL);
    assert_eq!(bank.remove(p), Ok(()));
    assert_eq!(bank.remove(p), Ok(()));
    assert_eq!(bank.remove(p), Ok(()));
    assert_eq!(bank.num_available(p), 0);
    assert_eq!(bank.remove(p), Err(InputError::PieceUnavailable));
    assert_eq!(bank.num_available(p), 0);
}

#[test]
fn add_fails_at_capacity() {
    let mut bank = Bank::full();
    let p = piece(Color::YELLOW, Size::LARGE);
    assert_eq!(bank.add(p), Err(InputError::BadPiece));
    assert_eq!(bank.num_available(p), 3);
}

#[test]
fn add_returns_a_withdrawn_piece() {
    let mut bank = Bank::full();
    let p = piece(Color::BLUE, Size::LARGE);
    assert_eq!(bank.remove(p), Ok(()));
    assert_eq!(bank.remove(p), Ok(()));
    assert_eq!(bank.add(p), Ok(()));
    assert_eq!(bank.num_available(p), 2);
    assert_eq!(bank.add(p), Ok(()));
    assert_eq!(bank.num_available(p), 3);
    assert_eq!(bank.add(p), Err(InputError::BadPiece));
}

#[test]
fn remove_several_takes_every_requested_piece() {
    let mut bank = Bank::full();
    let a = piece(Color::RED, Size::SMALL);
    let b = piece(Color::BLUE, Size::MEDIUM);
    assert_eq!(bank.remove_several(&[a, b, a]), Ok(()));
    assert_eq!(bank.num_available(a), 1);
    assert_eq!(bank.num_available(b), 2);
    assert_eq!(bank.num_available(piece(Color::RED, Size::MEDIUM)), 3);
}

#[test]
fn remove_several_is_all_or_nothing() {
    let mut bank = Bank::full();
    let a = piece(Color::RED, Size::SMALL);
    let b = piece(Color::BLUE, Size::MEDIUM);
    assert_eq!(bank.remove(a), Ok(()));
    assert_eq!(
        bank.remove_several(&[b, a, a, a]),
        Err(InputError::PieceUnavailable)
    );
    assert_eq!(bank.num_available(a), 2);
    assert_eq!(bank.num_available(b), 3);
}

#[test]
fn remove_several_of_nothing_changes_nothing() {
    let mut bank = Bank::full();
    assert_eq!(bank.remove_several(&[]), Ok(()));
    for color in COLORS {
        for size in SIZES {
            assert_eq!(bank.num_available(piece(color, size)), 3);
        }
    }
}

#[test]
fn remove_several_can_empty_a_kind() {
    let mut bank = Bank::full();
    let a = piece(Color::GREEN, Size::LARGE);
    assert_eq!(bank.remove_several(&[a, a, a]), Ok(()));
    assert_eq!(bank.num_available(a), 0);
    assert_eq!(bank.remove_several(&[a]), Err(InputError::PieceUnavailable));
}

#[test]
fn restock_drops_a_fourth_copy() {
    let mut bank = Bank::full();
    let a = piece(Color::GREEN, Size::LARGE);
    let b = piece(Color::RED, Size::LARGE);
    assert_eq!(bank.remove(a), Ok(()));
    bank.restock(&vec![a, a, b]);
    assert_eq!(bank.num_available(a), 3);
    assert_eq!(bank.num_available(b), 3);
}

#[test]
fn size_ranks_are_one_two_three() {
    assert_eq!(Size::SMALL.to_u8(), 1);
    assert_eq!(Size::MEDIUM.to_u8(), 2);
    assert_eq!(Size::LARGE.to_u8(), 3);
}

#[test]
fn larger_sizes_exceed_smaller_ones() {
    assert!(Size::LARGE > Size::MEDIUM);
    assert!(Size::MEDIUM > Size::SMALL);
    assert!(Size::SMALL < Size::LARGE);
    assert!(!(Size::SMALL > Size::SMALL));
    assert!(Size::SMALL <= Size::SMALL);
    assert!(!(Size::SMALL > Size::LARGE));
    assert_eq!(Size::MEDIUM.partial_cmp(&Size::MEDIUM), Some(std::cmp::Ordering::Equal));
    assert_eq!(Size::MEDIUM.partial_cmp(&Size::LARGE), Some(std::cmp::Ordering::Less));
    assert_eq!(Size::LARGE.partial_cmp(&Size::SMALL), Some(std::cmp::Ordering::Greater));
}

#[test]
fn kinds_are_numbered_colour_major() {
    assert_eq!(piece(Color::RED, Size::SMALL).kind_index(), 0);
    assert_eq!(piece(Color::RED, Size::LARGE).kind_index(), 2);
    assert_eq!(piece(Color::BLUE, Size::SMALL).kind_index(), 3);
    assert_eq!(piece(Color::YELLOW, Size::LARGE).kind_index(), 11);
}
