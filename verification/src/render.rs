//! Human-readable descriptions of pieces, the bank, systems and the game,
//! for diagnostics.

use vstd::prelude::*;
use vstd::string::StringExecFns;
use crate::bank::Bank;
use crate::common::{Color, Piece, Size};
use crate::game::Game;
use crate::inputs::TurnPhase;
use crate::rules::{GameView, State};
use crate::system::{System, SystemView};

verus! {

/// The decimal digit `d` as text.
pub open spec fn digit_text(d: int) -> Seq<char> {
    if d == 0 {
        "0"@
    } else if d == 1 {
        "1"@
    } else if d == 2 {
        "2"@
    } else if d == 3 {
        "3"@
    } else if d == 4 {
        "4"@
    } else if d == 5 {
        "5"@
    } else if d == 6 {
        "6"@
    } else if d == 7 {
        "7"@
    } else if d == 8 {
        "8"@
    } else {
        "9"@
    }
}

/// The number `n` in decimal, without leading zeros.
pub open spec fn number_text(n: nat) -> Seq<char>
    decreases n,
{
    if n < 10 {
        digit_text(n as int)
    } else {
        number_text(n / 10) + digit_text((n % 10) as int)
    }
}

pub open spec fn color_text(color: Color) -> Seq<char> {
    match color {
        Color::RED => "Red"@,
        Color::BLUE => "Blue"@,
        Color::GREEN => "Green"@,
        Color::YELLOW => "Yellow"@,
    }
}

pub open spec fn size_text(size: Size) -> Seq<char> {
    match size {
        Size::SMALL => "Small"@,
        Size::MEDIUM => "Medium"@,
        Size::LARGE => "Large"@,
    }
}

/// The first letter of the size's name.
pub open spec fn size_initial(size: Size) -> Seq<char> {
    match size {
        Size::SMALL => "S"@,
        Size::MEDIUM => "M"@,
        Size::LARGE => "L"@,
    }
}

/// A piece reads as its size, a space, and its colour.
pub open spec fn piece_text(piece: Piece) -> Seq<char> {
    size_text(piece.size) + " "@ + color_text(piece.color)
}

/// One entry of the bank's listing: the count and the size's initial.
pub open spec fn bank_entry_text(bank: Map<Piece, nat>, color: Color, size: Size) -> Seq<char> {
    number_text(bank[Piece { color, size }]) + size_initial(size)
}

/// One colour of the bank's listing: the colour, then the three sizes.
pub open spec fn bank_row_text(bank: Map<Piece, nat>, color: Color) -> Seq<char> {
    color_text(color) + " "@ + bank_entry_text(bank, color, Size::SMALL) + " "@ + bank_entry_text(
        bank,
        color,
        Size::MEDIUM,
    ) + " "@ + bank_entry_text(bank, color, Size::LARGE)
}

/// The bank's listing: the four colours, separated by bars.
pub open spec fn bank_text(bank: Map<Piece, nat>) -> Seq<char> {
    "Bank: "@ + bank_row_text(bank, Color::RED) + " | "@ + bank_row_text(bank, Color::BLUE)
        + " | "@ + bank_row_text(bank, Color::GREEN) + " | "@ + bank_row_text(
        bank,
        Color::YELLOW,
    )
}

/// The ships of a fleet, separated by commas, a semicolon after the last.
pub open spec fn ships_text(fleet: Seq<Piece>) -> Seq<char>
    decreases fleet.len(),
{
    if fleet.len() == 0 {
        Seq::empty()
    } else {
        piece_text(fleet[0]) + (if fleet.len() == 1 {
            "; "@
        } else {
            ", "@
        }) + ships_text(fleet.drop_first())
    }
}

/// A player's fleet in a system's listing; nothing for a player without
/// ships there.
pub open spec fn fleet_text(player: nat, fleet: Seq<Piece>) -> Seq<char> {
    if fleet.len() == 0 {
        Seq::empty()
    } else {
        "Player "@ + number_text(player) + "'s ship(s): "@ + ships_text(fleet)
    }
}

/// The owner of a homeworld in a system's listing; nothing for a system
/// without an owner.
pub open spec fn owner_text(home_player: Option<u8>) -> Seq<char> {
    match home_player {
        Some(player) => "Player "@ + number_text(player as nat) + "'s homeworld, "@,
        None => Seq::empty(),
    }
}

/// The stars in a system's listing.
pub open spec fn stars_text(stars: Seq<Piece>) -> Seq<char> {
    if stars.len() == 2 {
        "binary stars "@ + piece_text(stars[0]) + "/"@ + piece_text(stars[1]) + "; "@
    } else {
        piece_text(stars[0]) + " star; "@
    }
}

/// A system's listing: its owner, its stars, and the fleets in player
/// order.
pub open spec fn system_text(system: SystemView) -> Seq<char> {
    owner_text(system.home_player) + stars_text(system.stars) + fleet_text(0, system.fleets[0])
        + fleet_text(1, system.fleets[1])
}

pub open spec fn phase_text(phase: TurnPhase) -> Seq<char> {
    match phase {
        TurnPhase::Started => "no move selected"@,
        TurnPhase::Done => "no moves left"@,
        TurnPhase::FreeMove(system, color) => "free "@ + color_text(color) + " move in system "@
            + number_text(system as nat),
        TurnPhase::Sacrifice(color, moves_left) => color_text(color) + " sacrifice, "@
            + number_text(moves_left as nat) + " move(s) left"@,
    }
}

pub open spec fn state_text(state: State) -> Seq<char> {
    match state {
        State::Setup(player) => "Player "@ + number_text(player as nat) + "'s setup"@,
        State::Finished(winner) => "Game over, player "@ + number_text(winner as nat) + " wins"@,
        State::Turn(player, phase) => "Player "@ + number_text(player as nat) + "'s turn, "@
            + phase_text(phase),
    }
}

/// The systems of a game, one per line, each behind a dash.
pub open spec fn systems_text(systems: Seq<SystemView>) -> Seq<char>
    decreases systems.len(),
{
    if systems.len() == 0 {
        Seq::empty()
    } else {
        " - "@ + system_text(systems[0]) + "\n"@ + systems_text(systems.drop_first())
    }
}

/// A game's status: its state, then its systems.
pub open spec fn game_text(game: GameView) -> Seq<char> {
    state_text(game.state) + "\nSystems:\n"@ + systems_text(game.systems)
}

fn digit_str(d: u8) -> (text: &'static str)
    requires
        d < 10,
    ensures
        text@ == digit_text(d as int),
{
    match d {
        0 => "0",
        1 => "1",
        2 => "2",
        3 => "3",
        4 => "4",
        5 => "5",
        6 => "6",
        7 => "7",
        8 => "8",
        _ => "9",
    }
}

/// Appends `n` in decimal to `out`.
fn append_number(out: &mut String, n: u8)
    ensures
        final(out)@ == old(out)@ + number_text(n as nat),
{
    let ghost start = out@;
    if n >= 100 {
        out.append(digit_str(n / 100));
    }
    if n >= 10 {
        out.append(digit_str((n / 10) % 10));
    }
    out.append(digit_str(n % 10));
    proof {
        let m = n as nat;
        reveal_with_fuel(number_text, 3);
        if m >= 100 {
            assert(m / 10 / 10 == m / 100);
            assert(out@ =~= start + number_text(m));
        } else if m >= 10 {
            assert(out@ =~= start + number_text(m));
        } else {
            assert(out@ =~= start + number_text(m));
        }
    }
}

impl Color {
    /// The colour's name.
    pub fn name(&self) -> (text: &'static str)
        ensures
            text@ == color_text(*self),
    {
        match self {
            Color::RED => "Red",
            Color::BLUE => "Blue",
            Color::GREEN => "Green",
            Color::YELLOW => "Yellow",
        }
    }
}

impl Size {
    /// The size's name.
    pub fn name(&self) -> (text: &'static str)
        ensures
            text@ == size_text(*self),
    {
        match self {
            Size::SMALL => "Small",
            Size::MEDIUM => "Medium",
            Size::LARGE => "Large",
        }
    }

    /// The first letter of the size's name.
    fn initial(&self) -> (text: &'static str)
        ensures
            text@ == size_initial(*self),
    {
        match self {
            Size::SMALL => "S",
            Size::MEDIUM => "M",
            Size::LARGE => "L",
        }
    }
}

fn append_piece(out: &mut String, piece: Piece)
    ensures
        final(out)@ == old(out)@ + piece_text(piece),
{
    let ghost start = out@;
    out.append(piece.size.name());
    out.append(" ");
    out.append(piece.color.name());
    assert(out@ =~= start + piece_text(piece));
}

impl Piece {
    /// The piece as text: its size, then its colour.
    pub fn describe(&self) -> (text: String)
        ensures
            text@ == piece_text(*self),
    {
        let mut out = String::new();
        append_piece(&mut out, *self);
        assert(out@ =~= piece_text(*self));
        out
    }
}

impl Bank {
    fn append_entry(&self, out: &mut String, color: Color, size: Size)
        requires
            self.wf(),
        ensures
            final(out)@ == old(out)@ + bank_entry_text(self@, color, size),
    {
        let ghost start = out@;
        append_number(out, self.num_available(Piece { color, size }));
        out.append(size.initial());
        assert(out@ =~= start + bank_entry_text(self@, color, size));
    }

    fn append_row(&self, out: &mut String, color: Color)
        requires
            self.wf(),
        ensures
            final(out)@ == old(out)@ + bank_row_text(self@, color),
    {
        let ghost start = out@;
        out.append(color.name());
        out.append(" ");
        self.append_entry(out, color, Size::SMALL);
        out.append(" ");
        self.append_entry(out, color, Size::MEDIUM);
        out.append(" ");
        self.append_entry(out, color, Size::LARGE);
        assert(out@ =~= start + bank_row_text(self@, color));
    }

    /// The bank's listing, colour by colour.
    pub fn describe(&self) -> (text: String)
        requires
            self.wf(),
        ensures
            text@ == bank_text(self@),
    {
        let mut out = String::new();
        out.append("Bank: ");
        self.append_row(&mut out, Color::RED);
        out.append(" | ");
        self.append_row(&mut out, Color::BLUE);
        out.append(" | ");
        self.append_row(&mut out, Color::GREEN);
        out.append(" | ");
        self.append_row(&mut out, Color::YELLOW);
        assert(out@ =~= bank_text(self@));
        out
    }
}

fn append_ships(out: &mut String, fleet: &Vec<Piece>)
    ensures
        final(out)@ == old(out)@ + ships_text(fleet@),
{
    let ghost start = out@;
    let n = fleet.len();
    let mut i: usize = 0;
    assert(fleet@.subrange(0, n as int) =~= fleet@);
    while i < n
        invariant
            i <= n,
            n == fleet@.len(),
            out@ + ships_text(fleet@.subrange(i as int, n as int)) == start + ships_text(fleet@),
        decreases n - i,
    {
        let ghost before = out@;
        let ghost rest = fleet@.subrange(i as int, n as int);
        append_piece(out, fleet[i]);
        if i + 1 >= n {
            out.append("; ");
        } else {
            out.append(", ");
        }
        proof {
            assert(rest.drop_first() =~= fleet@.subrange(i + 1, n as int));
            assert(rest[0] == fleet@[i as int]);
            assert(out@ + ships_text(rest.drop_first()) =~= before + ships_text(rest));
        }
        i = i + 1;
    }
    assert(fleet@.subrange(n as int, n as int) =~= Seq::<Piece>::empty());
    assert(out@ =~= out@ + ships_text(Seq::<Piece>::empty()));
}

impl System {
    fn append_fleet(&self, out: &mut String, player: u8)
        requires
            self.wf(),
            player < crate::common::NUM_PLAYERS,
        ensures
            final(out)@ == old(out)@ + fleet_text(player as nat, self@.fleets[player as int]),
    {
        let ghost start = out@;
        let fleet = self.get_ships(player);
        if fleet.len() > 0 {
            out.append("Player ");
            append_number(out, player);
            out.append("'s ship(s): ");
            append_ships(out, fleet);
            assert(out@ =~= start + fleet_text(player as nat, fleet@));
        } else {
            assert(out@ =~= start + fleet_text(player as nat, fleet@));
        }
    }

    /// The system's listing: its owner, its stars, and the fleets in
    /// player order.
    pub fn describe(&self) -> (text: String)
        requires
            self.wf(),
        ensures
            text@ == system_text(self@),
    {
        let mut out = String::new();
        match self.home_player() {
            Some(home_player) => {
                out.append("Player ");
                append_number(&mut out, home_player);
                out.append("'s homeworld, ");
            },
            None => {},
        }
        assert(out@ =~= owner_text(self@.home_player));
        let stars = self.stars();
        if stars.len() == 2 {
            out.append("binary stars ");
            append_piece(&mut out, stars[0]);
            out.append("/");
            append_piece(&mut out, stars[1]);
            out.append("; ");
        } else {
            append_piece(&mut out, stars[0]);
            out.append(" star; ");
        }
        assert(out@ =~= owner_text(self@.home_player) + stars_text(self@.stars));
        self.append_fleet(&mut out, 0);
        self.append_fleet(&mut out, 1);
        out
    }
}

fn append_phase(out: &mut String, phase: TurnPhase)
    ensures
        final(out)@ == old(out)@ + phase_text(phase),
{
    let ghost start = out@;
    match phase {
        TurnPhase::Started => {
            out.append("no move selected");
        },
        TurnPhase::Done => {
            out.append("no moves left");
        },
        TurnPhase::FreeMove(system, color) => {
            out.append("free ");
            out.append(color.name());
            out.append(" move in system ");
            append_number(out, system);
        },
        TurnPhase::Sacrifice(color, moves_left) => {
            out.append(color.name());
            out.append(" sacrifice, ");
            append_number(out, moves_left);
            out.append(" move(s) left");
        },
    }
    assert(out@ =~= start + phase_text(phase));
}

impl State {
    /// The state as text: whose setup or turn it is and in which phase, or
    /// who has won.
    pub fn describe(&self) -> (text: String)
        ensures
            text@ == state_text(*self),
    {
        let mut out = String::new();
        match *self {
            State::Setup(player) => {
                out.append("Player ");
                append_number(&mut out, player);
                out.append("'s setup");
            },
            State::Finished(winner) => {
                out.append("Game over, player ");
                append_number(&mut out, winner);
                out.append(" wins");
            },
            State::Turn(player, phase) => {
                out.append("Player ");
                append_number(&mut out, player);
                out.append("'s turn, ");
                append_phase(&mut out, phase);
            },
        }
        assert(out@ =~= state_text(*self));
        out
    }
}

impl Game {
    /// The game's status: its state, then its systems, one per line.
    pub fn describe(&self) -> (text: String)
        requires
            self.wf(),
        ensures
            text@ == game_text(self@),
    {
        let mut out = self.state().describe();
        out.append("\nSystems:\n");
        let ghost start = out@;
        let systems = self.systems();
        let n = systems.len();
        let ghost views = self@.systems;
        let mut i: usize = 0;
        assert(views.subrange(0, n as int) =~= views);
        while i < n
            invariant
                i <= n,
                n == systems@.len(),
                views.len() == n,
                forall|j: int|
                    0 <= j < n ==> (#[trigger] systems@[j]).wf() && systems@[j]@ == views[j],
                out@ + systems_text(views.subrange(i as int, n as int)) == start + systems_text(
                    views,
                ),
            decreases n - i,
        {
            let ghost before = out@;
            let ghost rest = views.subrange(i as int, n as int);
            out.append(" - ");
            let line = systems[i].describe();
            out.append(line.as_str());
            out.append("\n");
            proof {
                assert(rest.drop_first() =~= views.subrange(i + 1, n as int));
                assert(rest[0] == views[i as int]);
                assert(out@ + systems_text(rest.drop_first()) =~= before + systems_text(rest));
            }
            i = i + 1;
        }
        assert(views.subrange(n as int, n as int) =~= Seq::<SystemView>::empty());
        assert(out@ =~= out@ + systems_text(Seq::<SystemView>::empty()));
        out
    }
}

} // verus!
