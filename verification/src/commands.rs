//! Commands as a player types them: a line split into words is read as a
//! command for the game.

use vstd::prelude::*;
use vstd::string::StrSliceExecFns;
use crate::common::{Color, Piece, Size, SystemIndex};
use crate::inputs::{Action, ColorAction, SetupMove};

verus! {

/// What a word of a command stands for.
#[derive(Debug, Clone, Copy, PartialEq, Eq, Hash, Structural)]
pub enum Field {
    Color,
    System,
    Ship,
    NewColor,
    FirstStar,
    SecondStar,
    StartingShip,
}

/// Why a word is not what it should be.
#[derive(Debug, Clone, Copy, PartialEq, Eq, Hash, Structural)]
pub enum WordError {
    /// A piece is written with two letters.
    NotAPiece,
    /// A size is one of `s`, `m`, `l`.
    NotASize,
    /// A colour is one of `r`, `g`, `b`, `y`.
    NotAColor,
    /// A system is a number from 0 to 255.
    NotASystem,
}

/// Why a line is not a command.
#[derive(Debug, Clone, Copy, PartialEq, Eq, Hash, Structural)]
pub enum CommandError {
    /// The line has no word.
    Empty,
    /// The first word names no command.
    Unknown,
    /// The line ends before the word for this field.
    Missing(Field),
    /// The word for this field cannot be read.
    Malformed(Field, WordError),
    /// The command is known but has no wording.
    Unsupported,
}

/// What a player asks for.
#[derive(Debug)]
pub enum Command {
    Quit,
    Setup(SetupMove),
    Free(SystemIndex, Color),
    Act(Action),
    End,
}

/// The colour that the letter stands for.
pub open spec fn color_of_char(c: char) -> Option<Color> {
    if c == 'r' {
        Some(Color::RED)
    } else if c == 'g' {
        Some(Color::GREEN)
    } else if c == 'b' {
        Some(Color::BLUE)
    } else if c == 'y' {
        Some(Color::YELLOW)
    } else {
        None
    }
}

/// The size that the letter stands for.
pub open spec fn size_of_char(c: char) -> Option<Size> {
    if c == 's' {
        Some(Size::SMALL)
    } else if c == 'm' {
        Some(Size::MEDIUM)
    } else if c == 'l' {
        Some(Size::LARGE)
    } else {
        None
    }
}

/// The value of a decimal digit.
pub open spec fn digit_of_char(c: char) -> Option<nat> {
    if c == '0' {
        Some(0nat)
    } else if c == '1' {
        Some(1nat)
    } else if c == '2' {
        Some(2nat)
    } else if c == '3' {
        Some(3nat)
    } else if c == '4' {
        Some(4nat)
    } else if c == '5' {
        Some(5nat)
    } else if c == '6' {
        Some(6nat)
    } else if c == '7' {
        Some(7nat)
    } else if c == '8' {
        Some(8nat)
    } else if c == '9' {
        Some(9nat)
    } else {
        None
    }
}

/// Whether every character of `word` is a decimal digit.
pub open spec fn all_digits(word: Seq<char>) -> bool {
    forall|i: int| 0 <= i < word.len() ==> digit_of_char(#[trigger] word[i]) is Some
}

/// The number that the digits of `word` write in decimal.
pub open spec fn decimal_value(word: Seq<char>) -> nat
    decreases word.len(),
{
    if word.len() == 0 {
        0
    } else {
        decimal_value(word.drop_last()) * 10 + match digit_of_char(word.last()) {
            Some(d) => d,
            None => 0,
        }
    }
}

/// A colour is written with its first letter.
pub open spec fn color_of_word(word: Seq<char>) -> Result<Color, WordError> {
    if word.len() == 1 && color_of_char(word[0]) is Some {
        Ok(color_of_char(word[0])->Some_0)
    } else {
        Err(WordError::NotAColor)
    }
}

/// A size is written with its first letter.
pub open spec fn size_of_word(word: Seq<char>) -> Result<Size, WordError> {
    if word.len() == 1 && size_of_char(word[0]) is Some {
        Ok(size_of_char(word[0])->Some_0)
    } else {
        Err(WordError::NotASize)
    }
}

/// A piece is written with the letter of its size and the letter of its
/// colour.
pub open spec fn piece_of_word(word: Seq<char>) -> Result<Piece, WordError> {
    if word.len() != 2 {
        Err(WordError::NotAPiece)
    } else if size_of_char(word[0]) is None {
        Err(WordError::NotASize)
    } else if color_of_char(word[1]) is None {
        Err(WordError::NotAColor)
    } else {
        Ok(Piece { color: color_of_char(word[1])->Some_0, size: size_of_char(word[0])->Some_0 })
    }
}

/// The digits of a system's number: the word without a leading plus sign.
pub open spec fn unsigned_part(word: Seq<char>) -> Seq<char> {
    if word.len() > 0 && word[0] == '+' {
        word.drop_first()
    } else {
        word
    }
}

/// A system is written as a decimal number from 0 to 255, with or without
/// a plus sign or zeros before it.
pub open spec fn system_of_word(word: Seq<char>) -> Result<SystemIndex, WordError> {
    let digits = unsigned_part(word);
    if digits.len() > 0 && all_digits(digits) && decimal_value(digits) <= 255 {
        Ok(decimal_value(digits) as u8)
    } else {
        Err(WordError::NotASystem)
    }
}

/// The colour that the word at `at` writes, for the field `field`.
pub open spec fn color_at(words: Seq<Seq<char>>, at: int, field: Field) -> Result<
    Color,
    CommandError,
> {
    if at >= words.len() {
        Err(CommandError::Missing(field))
    } else {
        match color_of_word(words[at]) {
            Ok(color) => Ok(color),
            Err(e) => Err(CommandError::Malformed(field, e)),
        }
    }
}

/// The piece that the word at `at` writes, for the field `field`.
pub open spec fn piece_at(words: Seq<Seq<char>>, at: int, field: Field) -> Result<
    Piece,
    CommandError,
> {
    if at >= words.len() {
        Err(CommandError::Missing(field))
    } else {
        match piece_of_word(words[at]) {
            Ok(piece) => Ok(piece),
            Err(e) => Err(CommandError::Malformed(field, e)),
        }
    }
}

/// The system that the word at `at` writes.
pub open spec fn system_at(words: Seq<Seq<char>>, at: int) -> Result<SystemIndex, CommandError> {
    if at >= words.len() {
        Err(CommandError::Missing(Field::System))
    } else {
        match system_of_word(words[at]) {
            Ok(system) => Ok(system),
            Err(e) => Err(CommandError::Malformed(Field::System, e)),
        }
    }
}

/// `setup <star> <star> <ship>`.
pub open spec fn setup_of_words(words: Seq<Seq<char>>) -> Result<Command, CommandError> {
    match piece_at(words, 1, Field::FirstStar) {
        Err(e) => Err(e),
        Ok(first) => match piece_at(words, 2, Field::SecondStar) {
            Err(e) => Err(e),
            Ok(second) => match piece_at(words, 3, Field::StartingShip) {
                Err(e) => Err(e),
                Ok(ship) => Ok(Command::Setup(SetupMove { stars: [first, second], ship })),
            },
        },
    }
}

/// `free <colour> <system>`.
pub open spec fn free_of_words(words: Seq<Seq<char>>) -> Result<Command, CommandError> {
    match color_at(words, 1, Field::Color) {
        Err(e) => Err(e),
        Ok(color) => match system_at(words, 2) {
            Err(e) => Err(e),
            Ok(system) => Ok(Command::Free(system, color)),
        },
    }
}

/// The acting ship and its system: `<ship> <system>` after the command's
/// name.
pub open spec fn actor_of_words(words: Seq<Seq<char>>) -> Result<(Piece, SystemIndex), CommandError> {
    match piece_at(words, 1, Field::Ship) {
        Err(e) => Err(e),
        Ok(ship) => match system_at(words, 2) {
            Err(e) => Err(e),
            Ok(system) => Ok((ship, system)),
        },
    }
}

/// What an action of `color` does, as the words after the acting ship and
/// its system say: nothing more for a build, the new colour for a trade.
/// A capture and a move have no wording.
pub open spec fn color_action_of_words(words: Seq<Seq<char>>, color: Color) -> Result<
    ColorAction,
    CommandError,
> {
    match color {
        Color::GREEN => Ok(ColorAction::GreenAction),
        Color::BLUE => match color_at(words, 3, Field::NewColor) {
            Err(e) => Err(e),
            Ok(new_color) => Ok(ColorAction::BlueAction(new_color)),
        },
        Color::RED => Err(CommandError::Unsupported),
        Color::YELLOW => Err(CommandError::Unsupported),
    }
}

/// An action of `color`: `<ship> <system>` after the command's name, then
/// what the colour asks for.
pub open spec fn action_of_words(words: Seq<Seq<char>>, color: Color) -> Result<
    Command,
    CommandError,
> {
    match actor_of_words(words) {
        Err(e) => Err(e),
        Ok((ship, system)) => match color_action_of_words(words, color) {
            Err(e) => Err(e),
            Ok(color_action) => Ok(Command::Act(Action { system, ship, color_action })),
        },
    }
}

/// The command that the words write: the first word names it, the others
/// are its fields.
pub open spec fn command_of_words(words: Seq<Seq<char>>) -> Result<Command, CommandError> {
    if words.len() == 0 {
        Err(CommandError::Empty)
    } else if words[0] == "quit"@ {
        Ok(Command::Quit)
    } else if words[0] == "setup"@ {
        setup_of_words(words)
    } else if words[0] == "free"@ {
        free_of_words(words)
    } else if words[0] == "sac"@ {
        Err(CommandError::Unsupported)
    } else if words[0] == "catastrophe"@ {
        Err(CommandError::Unsupported)
    } else if words[0] == "end"@ {
        Ok(Command::End)
    } else if words[0] == "red"@ {
        action_of_words(words, Color::RED)
    } else if words[0] == "green"@ {
        action_of_words(words, Color::GREEN)
    } else if words[0] == "blue"@ {
        action_of_words(words, Color::BLUE)
    } else if words[0] == "yellow"@ {
        action_of_words(words, Color::YELLOW)
    } else {
        Err(CommandError::Unknown)
    }
}

/// The words as sequences of characters.
pub open spec fn texts(words: Seq<String>) -> Seq<Seq<char>> {
    Seq::new(words.len(), |i: int| words[i]@)
}

/// The characters of `word`, one by one.
fn chars_of(word: &str) -> (chars: Vec<char>)
    ensures
        chars@ == word@,
{
    let n = word.unicode_len();
    let mut chars: Vec<char> = Vec::new();
    let mut i: usize = 0;
    while i < n
        invariant
            i <= n,
            n == word@.len(),
            chars@ == word@.subrange(0, i as int),
        decreases n - i,
    {
        chars.push(word.get_char(i));
        assert(chars@ =~= word@.subrange(0, i + 1));
        i = i + 1;
    }
    assert(word@.subrange(0, n as int) =~= word@);
    chars
}

/// Whether two texts are the same.
fn same_text(a: &str, b: &str) -> (same: bool)
    ensures
        same == (a@ == b@),
{
    let a_chars = chars_of(a);
    let b_chars = chars_of(b);
    if a_chars.len() != b_chars.len() {
        return false;
    }
    let mut i: usize = 0;
    while i < a_chars.len()
        invariant
            i <= a_chars@.len(),
            a_chars@ == a@,
            b_chars@ == b@,
            a_chars@.len() == b_chars@.len(),
            forall|j: int| 0 <= j < i ==> a_chars@[j] == b_chars@[j],
        decreases a_chars@.len() - i,
    {
        if a_chars[i] != b_chars[i] {
            return false;
        }
        i = i + 1;
    }
    assert(a_chars@ =~= b_chars@);
    true
}

/// The colour that the letter stands for.
fn parse_color_char(c: char) -> (color: Option<Color>)
    ensures
        color == color_of_char(c),
{
    if c == 'r' {
        Some(Color::RED)
    } else if c == 'g' {
        Some(Color::GREEN)
    } else if c == 'b' {
        Some(Color::BLUE)
    } else if c == 'y' {
        Some(Color::YELLOW)
    } else {
        None
    }
}

/// The size that the letter stands for.
fn parse_size_char(c: char) -> (size: Option<Size>)
    ensures
        size == size_of_char(c),
{
    if c == 's' {
        Some(Size::SMALL)
    } else if c == 'm' {
        Some(Size::MEDIUM)
    } else if c == 'l' {
        Some(Size::LARGE)
    } else {
        None
    }
}

/// The value of the digit.
fn parse_digit_char(c: char) -> (digit: Option<u32>)
    ensures
        match digit {
            Some(d) => digit_of_char(c) == Some(d as nat) && d <= 9,
            None => digit_of_char(c) is None,
        },
{
    if c == '0' {
        Some(0)
    } else if c == '1' {
        Some(1)
    } else if c == '2' {
        Some(2)
    } else if c == '3' {
        Some(3)
    } else if c == '4' {
        Some(4)
    } else if c == '5' {
        Some(5)
    } else if c == '6' {
        Some(6)
    } else if c == '7' {
        Some(7)
    } else if c == '8' {
        Some(8)
    } else if c == '9' {
        Some(9)
    } else {
        None
    }
}

/// Reads a colour from its letter.
pub fn parse_color(word: &str) -> (r: Result<Color, WordError>)
    ensures
        r == color_of_word(word@),
{
    let chars = chars_of(word);
    if chars.len() != 1 {
        return Err(WordError::NotAColor);
    }
    match parse_color_char(chars[0]) {
        Some(color) => Ok(color),
        None => Err(WordError::NotAColor),
    }
}

/// Reads a size from its letter.
pub fn parse_size(word: &str) -> (r: Result<Size, WordError>)
    ensures
        r == size_of_word(word@),
{
    let chars = chars_of(word);
    if chars.len() != 1 {
        return Err(WordError::NotASize);
    }
    match parse_size_char(chars[0]) {
        Some(size) => Ok(size),
        None => Err(WordError::NotASize),
    }
}

/// Reads a piece from the letter of its size and the letter of its colour.
pub fn parse_piece(word: &str) -> (r: Result<Piece, WordError>)
    ensures
        r == piece_of_word(word@),
{
    let chars = chars_of(word);
    if chars.len() != 2 {
        return Err(WordError::NotAPiece);
    }
    let size = match parse_size_char(chars[0]) {
        Some(size) => size,
        None => {
            return Err(WordError::NotASize);
        },
    };
    let color = match parse_color_char(chars[1]) {
        Some(color) => color,
        None => {
            return Err(WordError::NotAColor);
        },
    };
    Ok(Piece { size, color })
}

/// A number written with more digits is no smaller.
proof fn decimal_value_grows(word: Seq<char>, n: int)
    requires
        0 <= n <= word.len(),
    ensures
        decimal_value(word.subrange(0, n)) <= decimal_value(word),
    decreases word.len() - n,
{
    if n < word.len() {
        decimal_value_grows(word, n + 1);
        assert(word.subrange(0, n + 1).drop_last() =~= word.subrange(0, n));
    } else {
        assert(word.subrange(0, n) =~= word);
    }
}

/// Reads a system's number.
pub fn parse_system(word: &str) -> (r: Result<SystemIndex, WordError>)
    ensures
        r == system_of_word(word@),
{
    let chars = chars_of(word);
    let start: usize = if chars.len() > 0 && chars[0] == '+' {
        1
    } else {
        0
    };
    let ghost digits = unsigned_part(word@);
    assert(digits =~= chars@.subrange(start as int, chars@.len() as int));
    if start >= chars.len() {
        return Err(WordError::NotASystem);
    }
    let mut value: u32 = 0;
    let mut i: usize = start;
    assert(digits.subrange(0, 0) =~= Seq::<char>::empty());
    while i < chars.len()
        invariant
            start <= i <= chars@.len(),
            start < chars@.len(),
            digits == unsigned_part(word@),
            digits == chars@.subrange(start as int, chars@.len() as int),
            all_digits(digits.subrange(0, i - start)),
            value == decimal_value(digits.subrange(0, i - start)),
            value <= 255,
        decreases chars@.len() - i,
    {
        let ghost seen = digits.subrange(0, i - start);
        let ghost next = digits.subrange(0, i - start + 1);
        proof {
            assert(next.drop_last() =~= seen);
            assert(next.last() == chars@[i as int]);
            assert(digits[i - start] == chars@[i as int]);
        }
        match parse_digit_char(chars[i]) {
            None => {
                proof {
                    assert(!all_digits(digits));
                }
                return Err(WordError::NotASystem);
            },
            Some(d) => {
                value = value * 10 + d;
                proof {
                    assert forall|j: int| 0 <= j < next.len() implies digit_of_char(
                        #[trigger] next[j],
                    ) is Some by {
                        if j < seen.len() {
                            assert(next[j] == seen[j]);
                        }
                    }
                }
                if value > 255 {
                    proof {
                        decimal_value_grows(digits, i - start + 1);
                    }
                    return Err(WordError::NotASystem);
                }
            },
        }
        i = i + 1;
    }
    proof {
        assert(digits.subrange(0, i - start) =~= digits);
    }
    Ok(value as u8)
}

/// Reads the colour at `at`, for the field `field`.
fn parse_color_at(words: &Vec<String>, at: usize, field: Field) -> (r: Result<Color, CommandError>)
    ensures
        r == color_at(texts(words@), at as int, field),
{
    if at >= words.len() {
        return Err(CommandError::Missing(field));
    }
    match parse_color(words[at].as_str()) {
        Ok(color) => Ok(color),
        Err(e) => Err(CommandError::Malformed(field, e)),
    }
}

/// Reads the piece at `at`, for the field `field`.
fn parse_piece_at(words: &Vec<String>, at: usize, field: Field) -> (r: Result<Piece, CommandError>)
    ensures
        r == piece_at(texts(words@), at as int, field),
{
    if at >= words.len() {
        return Err(CommandError::Missing(field));
    }
    match parse_piece(words[at].as_str()) {
        Ok(piece) => Ok(piece),
        Err(e) => Err(CommandError::Malformed(field, e)),
    }
}

/// Reads the system at `at`.
fn parse_system_at(words: &Vec<String>, at: usize) -> (r: Result<SystemIndex, CommandError>)
    ensures
        r == system_at(texts(words@), at as int),
{
    if at >= words.len() {
        return Err(CommandError::Missing(Field::System));
    }
    match parse_system(words[at].as_str()) {
        Ok(system) => Ok(system),
        Err(e) => Err(CommandError::Malformed(Field::System, e)),
    }
}

/// Reads a setup: two stars and a ship.
fn input_setup(words: &Vec<String>) -> (r: Result<Command, CommandError>)
    ensures
        r == setup_of_words(texts(words@)),
{
    let star1 = match parse_piece_at(words, 1, Field::FirstStar) {
        Ok(piece) => piece,
        Err(e) => {
            return Err(e);
        },
    };
    let star2 = match parse_piece_at(words, 2, Field::SecondStar) {
        Ok(piece) => piece,
        Err(e) => {
            return Err(e);
        },
    };
    let ship = match parse_piece_at(words, 3, Field::StartingShip) {
        Ok(piece) => piece,
        Err(e) => {
            return Err(e);
        },
    };
    Ok(Command::Setup(SetupMove { ship, stars: [star1, star2] }))
}

/// Reads the choice of a free move: a colour and a system.
fn input_free(words: &Vec<String>) -> (r: Result<Command, CommandError>)
    ensures
        r == free_of_words(texts(words@)),
{
    let color = match parse_color_at(words, 1, Field::Color) {
        Ok(color) => color,
        Err(e) => {
            return Err(e);
        },
    };
    let system = match parse_system_at(words, 2) {
        Ok(system) => system,
        Err(e) => {
            return Err(e);
        },
    };
    Ok(Command::Free(system, color))
}

/// Reads the acting ship and its system.
fn input_actor(words: &Vec<String>) -> (r: Result<(Piece, SystemIndex), CommandError>)
    ensures
        r == actor_of_words(texts(words@)),
{
    let ship = match parse_piece_at(words, 1, Field::Ship) {
        Ok(piece) => piece,
        Err(e) => {
            return Err(e);
        },
    };
    let system = match parse_system_at(words, 2) {
        Ok(system) => system,
        Err(e) => {
            return Err(e);
        },
    };
    Ok((ship, system))
}

/// A build asks for nothing more.
fn parse_green_action(words: &Vec<String>) -> (r: Result<ColorAction, CommandError>)
    ensures
        r == color_action_of_words(texts(words@), Color::GREEN),
{
    Ok(ColorAction::GreenAction)
}

/// A trade asks for the new colour.
fn parse_blue_action(words: &Vec<String>) -> (r: Result<ColorAction, CommandError>)
    ensures
        r == color_action_of_words(texts(words@), Color::BLUE),
{
    match parse_color_at(words, 3, Field::NewColor) {
        Ok(new_color) => Ok(ColorAction::BlueAction(new_color)),
        Err(e) => Err(e),
    }
}

/// A capture has no wording.
fn parse_red_action(words: &Vec<String>) -> (r: Result<ColorAction, CommandError>)
    ensures
        r == color_action_of_words(texts(words@), Color::RED),
{
    Err(CommandError::Unsupported)
}

/// A move has no wording.
fn parse_yellow_action(words: &Vec<String>) -> (r: Result<ColorAction, CommandError>)
    ensures
        r == color_action_of_words(texts(words@), Color::YELLOW),
{
    Err(CommandError::Unsupported)
}

/// Reads an action of `color`.
fn input_action(words: &Vec<String>, color: Color) -> (r: Result<Command, CommandError>)
    ensures
        r == action_of_words(texts(words@), color),
{
    let (ship, system) = match input_actor(words) {
        Ok(actor) => actor,
        Err(e) => {
            return Err(e);
        },
    };
    let parsed = match color {
        Color::RED => parse_red_action(words),
        Color::BLUE => parse_blue_action(words),
        Color::GREEN => parse_green_action(words),
        Color::YELLOW => parse_yellow_action(words),
    };
    match parsed {
        Ok(color_action) => Ok(Command::Act(Action { ship, system, color_action })),
        Err(e) => Err(e),
    }
}

/// A catastrophe has no wording.
fn input_catastrophe(words: &Vec<String>) -> (r: Result<Command, CommandError>)
    ensures
        r == Err::<Command, CommandError>(CommandError::Unsupported),
{
    Err(CommandError::Unsupported)
}

/// A sacrifice has no wording.
fn input_sacrifice(words: &Vec<String>) -> (r: Result<Command, CommandError>)
    ensures
        r == Err::<Command, CommandError>(CommandError::Unsupported),
{
    Err(CommandError::Unsupported)
}

/// Reads a command from the words of a line.
pub fn parse_command(words: &Vec<String>) -> (r: Result<Command, CommandError>)
    ensures
        r == command_of_words(texts(words@)),
{
    if words.len() == 0 {
        return Err(CommandError::Empty);
    }
    let first = words[0].as_str();
    if same_text(first, "quit") {
        Ok(Command::Quit)
    } else if same_text(first, "setup") {
        input_setup(words)
    } else if same_text(first, "free") {
        input_free(words)
    } else if same_text(first, "sac") {
        input_sacrifice(words)
    } else if same_text(first, "catastrophe") {
        input_catastrophe(words)
    } else if same_text(first, "end") {
        Ok(Command::End)
    } else if same_text(first, "red") {
        input_action(words, Color::RED)
    } else if same_text(first, "green") {
        input_action(words, Color::GREEN)
    } else if same_text(first, "blue") {
        input_action(words, Color::BLUE)
    } else if same_text(first, "yellow") {
        input_action(words, Color::YELLOW)
    } else {
        Err(CommandError::Unknown)
    }
}

} // verus!
