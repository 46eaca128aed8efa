//! A star system: one or two stars, an optional home player, and a fleet
//! per player.

use vstd::prelude::*;
use crate::bank::{topped_up, Bank};
use crate::common::{Color, InputError, Piece, PlayerIndex, NUM_PLAYERS};
use crate::tally::{
    color_occurrences,
    color_occurrences_push,
    color_split_push,
    occurrences,
    occurrences_without_color,
    only_color,
    without_color,
};

verus! {

/// What a system holds, as plain mathematics.
pub struct SystemView {
    /// The one or two stars, first star first.
    pub stars: Seq<Piece>,
    pub home_player: Option<PlayerIndex>,
    /// One fleet per player, by player index, each in order of arrival.
    pub fleets: Seq<Seq<Piece>>,
}

impl SystemView {
    /// Number of ships held, all players together.
    pub open spec fn ship_total(self) -> nat {
        self.fleets[0].len() + self.fleets[1].len()
    }

    /// How many copies of `p` the system holds, as stars or as ships.
    pub open spec fn census(self, p: Piece) -> nat {
        occurrences(self.stars, p) + occurrences(self.fleets[0], p) + occurrences(
            self.fleets[1],
            p,
        )
    }

    /// How many pieces of colour `c` the system holds, as stars or as ships.
    pub open spec fn color_count(self, c: Color) -> nat {
        color_occurrences(self.stars, c) + color_occurrences(self.fleets[0], c)
            + color_occurrences(self.fleets[1], c)
    }

    /// No player has a ship here.
    pub open spec fn is_empty(self) -> bool {
        self.ship_total() == 0
    }

    /// Two systems are adjacent when no star of one has the size of a star
    /// of the other.
    pub open spec fn is_adjacent(self, other: SystemView) -> bool {
        forall|i: int, j: int|
            0 <= i < self.stars.len() && 0 <= j < other.stars.len() ==> (
            #[trigger] self.stars[i]).size != (#[trigger] other.stars[j]).size
    }

    /// The system with `ship` appended to `player`'s fleet.
    pub open spec fn with_ship(self, player: PlayerIndex, ship: Piece) -> SystemView {
        SystemView {
            fleets: self.fleets.update(player as int, self.fleets[player as int].push(ship)),
            ..self
        }
    }

    /// The system with the ship at position `at` of `player`'s fleet taken
    /// out.
    pub open spec fn without_ship_at(self, player: PlayerIndex, at: int) -> SystemView {
        SystemView {
            fleets: self.fleets.update(player as int, self.fleets[player as int].remove(at)),
            ..self
        }
    }

    /// The system with every piece of colour `c` taken out, stars and
    /// ships alike.
    pub open spec fn purged(self, c: Color) -> SystemView {
        SystemView {
            stars: without_color(self.stars, c),
            home_player: self.home_player,
            fleets: seq![without_color(self.fleets[0], c), without_color(self.fleets[1], c)],
        }
    }

    /// Whether wiping colour `c` out destroys the system: no ship is left,
    /// or no star.
    pub open spec fn evaporates(self, c: Color) -> bool {
        self.purged(c).is_empty() || self.purged(c).stars.len() == 0
    }

    /// What is left of the system once colour `c` has been wiped out of it.
    /// A system that evaporates keeps its stars on paper; it is not to be
    /// used again.
    pub open spec fn after_catastrophe(self, c: Color) -> SystemView {
        if self.evaporates(c) {
            SystemView { stars: self.stars, ..self.purged(c) }
        } else {
            self.purged(c)
        }
    }

    /// How many copies of `p` a catastrophe of colour `c` sends back to the
    /// bank: every copy if the system evaporates, else the copies of that
    /// colour.
    pub open spec fn returned(self, c: Color, p: Piece) -> nat {
        if self.evaporates(c) || p.color == c {
            self.census(p)
        } else {
            0
        }
    }

    /// The system with the first `ship` of `player`'s fleet taken out.
    pub open spec fn without_ship(self, player: PlayerIndex, ship: Piece) -> SystemView {
        self.without_ship_at(player, first_position(self.fleets[player as int], ship))
    }
}

/// Adjacency does not depend on the side from which it is asked.
pub proof fn adjacency_is_symmetric(a: SystemView, b: SystemView)
    ensures
        a.is_adjacent(b) == b.is_adjacent(a),
{
}

/// A system with a star is not adjacent to itself.
pub proof fn never_adjacent_to_itself(a: SystemView)
    requires
        a.stars.len() >= 1,
    ensures
        !a.is_adjacent(a),
{
    assert(a.stars[0].size.rank() >= 1);
}

/// Position of the first `p` in `s`, or the length of `s` if there is none.
pub open spec fn first_position(s: Seq<Piece>, p: Piece) -> int
    decreases s.len(),
{
    if s.len() == 0 {
        0
    } else if s[0] == p {
        0
    } else {
        1 + first_position(s.drop_first(), p)
    }
}

/// `first_position` points at the first match, and past the end only when
/// there is no match.
pub proof fn first_position_is_first(s: Seq<Piece>, p: Piece)
    ensures
        0 <= first_position(s, p) <= s.len(),
        first_position(s, p) < s.len() ==> s[first_position(s, p)] == p,
        forall|j: int| 0 <= j < first_position(s, p) ==> s[j] != p,
        first_position(s, p) < s.len() <==> s.contains(p),
    decreases s.len(),
{
    if s.len() > 0 && s[0] != p {
        let t = s.drop_first();
        first_position_is_first(t, p);
        assert forall|j: int| 0 <= j < first_position(s, p) implies s[j] != p by {
            if j > 0 {
                assert(t[j - 1] == s[j]);
            }
        }
        if first_position(t, p) < t.len() {
            assert(s[first_position(s, p)] == t[first_position(t, p)]);
        }
        if s.contains(p) {
            let i = choose|i: int| 0 <= i < s.len() && s[i] == p;
            assert(t[i - 1] == p);
        }
    }
}

#[derive(Debug)]
pub struct System {
    star: Piece,
    second_star: Option<Piece>,
    home_player: Option<PlayerIndex>,
    /// One fleet per player, by player index.
    ships: Vec<Vec<Piece>>,
}

impl View for System {
    type V = SystemView;

    closed spec fn view(&self) -> SystemView {
        SystemView {
            stars: match self.second_star {
                None => seq![self.star],
                Some(second) => seq![self.star, second],
            },
            home_player: self.home_player,
            fleets: Seq::new(self.ships@.len(), |i: int| self.ships@[i]@),
        }
    }
}

impl System {
    /// One fleet per player.
    pub closed spec fn wf(&self) -> bool {
        self.ships@.len() == NUM_PLAYERS
    }

    /// A well-formed system has one or two stars and a fleet per player.
    pub proof fn shape(&self)
        requires
            self.wf(),
        ensures
            1 <= self@.stars.len() <= 2,
            self@.fleets.len() == NUM_PLAYERS,
    {
    }

    /// The player whose homeworld this is, if it is one.
    pub fn home_player(&self) -> (player: Option<PlayerIndex>)
        ensures
            player == self@.home_player,
    {
        self.home_player
    }

    /// An empty fleet for every player.
    fn no_ships() -> (ships: Vec<Vec<Piece>>)
        ensures
            ships@.len() == NUM_PLAYERS,
            forall|i: int| 0 <= i < NUM_PLAYERS ==> (#[trigger] ships@[i])@ == Seq::<
                Piece,
            >::empty(),
    {
        let mut ships: Vec<Vec<Piece>> = Vec::new();
        let mut player: PlayerIndex = 0;
        while player < NUM_PLAYERS
            invariant
                player <= NUM_PLAYERS,
                ships@.len() == player,
                forall|i: int| 0 <= i < player ==> (#[trigger] ships@[i])@ == Seq::<Piece>::empty(),
            decreases NUM_PLAYERS - player,
        {
            ships.push(Vec::new());
            player = player + 1;
        }
        ships
    }

    /// A homeworld of `player`: two stars, no ships yet.
    pub fn new_homeworld(stars: [Piece; 2], player: PlayerIndex) -> (system: System)
        ensures
            system.wf(),
            system@.stars == seq![stars@[0], stars@[1]],
            system@.home_player == Some(player),
            system@.fleets == seq![Seq::<Piece>::empty(), Seq::<Piece>::empty()],
    {
        let system = System {
            star: stars[0],
            second_star: Some(stars[1]),
            home_player: Some(player),
            ships: System::no_ships(),
        };
        assert(system@.fleets =~= seq![Seq::<Piece>::empty(), Seq::<Piece>::empty()]);
        system
    }

    /// A system without an owner: one star, no ships yet.
    pub fn new(star: Piece) -> (system: System)
        ensures
            system.wf(),
            system@.stars == seq![star],
            system@.home_player == None::<PlayerIndex>,
            system@.fleets == seq![Seq::<Piece>::empty(), Seq::<Piece>::empty()],
    {
        let system = System {
            star,
            second_star: None,
            home_player: None,
            ships: System::no_ships(),
        };
        assert(system@.fleets =~= seq![Seq::<Piece>::empty(), Seq::<Piece>::empty()]);
        system
    }

    /// The one or two stars, first star first.
    pub fn stars(&self) -> (stars: Vec<Piece>)
        ensures
            stars@ == self@.stars,
            1 <= stars@.len() <= 2,
    {
        let mut stars: Vec<Piece> = Vec::new();
        stars.push(self.star);
        match self.second_star {
            None => {},
            Some(second_star) => {
                stars.push(second_star);
            },
        }
        assert(stars@ =~= self@.stars);
        stars
    }

    /// Whether no player has a ship here.
    pub fn is_empty(&self) -> (b: bool)
        requires
            self.wf(),
        ensures
            b == self@.is_empty(),
    {
        self.ships[0].len() == 0 && self.ships[1].len() == 0
    }

    /// Appends `ship` to `player`'s fleet.
    pub fn add_ship(&mut self, player: PlayerIndex, ship: Piece)
        requires
            old(self).wf(),
            player < NUM_PLAYERS,
        ensures
            final(self).wf(),
            final(self)@ == old(self)@.with_ship(player, ship),
    {
        self.ships[player as usize].push(ship);
        assert(self@.fleets =~= old(self)@.with_ship(player, ship).fleets);
    }

    /// Takes the first ship equal to `ship` out of `player`'s fleet.
    pub fn remove_ship(&mut self, player: PlayerIndex, ship: Piece) -> (r: Result<(), InputError>)
        requires
            old(self).wf(),
            player < NUM_PLAYERS,
        ensures
            final(self).wf(),
            r is Ok <==> old(self)@.fleets[player as int].contains(ship),
            r is Ok ==> final(self)@ == old(self)@.without_ship(player, ship),
            r is Err ==> r == Err::<(), InputError>(InputError::NoSuchShip) && final(self)@ == old(
                self,
            )@,
    {
        let n = self.ships[player as usize].len();
        let ghost fleet = self.ships@[player as int]@;
        proof {
            first_position_is_first(fleet, ship);
        }
        let mut i: usize = 0;
        while i < n
            invariant
                i <= n,
                n == fleet.len(),
                player < NUM_PLAYERS,
                *self == *old(self),
                old(self).wf(),
                fleet == self.ships@[player as int]@,
                forall|j: int| 0 <= j < i ==> fleet[j] != ship,
                0 <= first_position(fleet, ship) <= fleet.len(),
                first_position(fleet, ship) < fleet.len() ==> fleet[first_position(fleet, ship)]
                    == ship,
                forall|j: int| 0 <= j < first_position(fleet, ship) ==> fleet[j] != ship,
            decreases n - i,
        {
            if self.ships[player as usize][i] == ship {
                assert(first_position(fleet, ship) == i);
                self.ships[player as usize].remove(i);
                assert(self@.fleets =~= old(self)@.without_ship(player, ship).fleets);
                return Ok(());
            }
            i = i + 1;
        }
        Err(InputError::NoSuchShip)
    }

    /// Whether `player` has a ship equal to `ship` here.
    pub fn has_ship(&self, player: PlayerIndex, ship: Piece) -> (b: bool)
        requires
            self.wf(),
            player < NUM_PLAYERS,
        ensures
            b == self@.fleets[player as int].contains(ship),
    {
        let fleet = &self.ships[player as usize];
        let mut i: usize = 0;
        while i < fleet.len()
            invariant
                i <= fleet@.len(),
                fleet@ == self@.fleets[player as int],
                forall|j: int| 0 <= j < i ==> fleet@[j] != ship,
            decreases fleet@.len() - i,
        {
            if fleet[i] == ship {
                return true;
            }
            i = i + 1;
        }
        false
    }

    /// `player`'s fleet here, in order of arrival.
    pub fn get_ships(&self, player: PlayerIndex) -> (fleet: &Vec<Piece>)
        requires
            self.wf(),
            player < NUM_PLAYERS,
        ensures
            fleet@ == self@.fleets[player as int],
    {
        &self.ships[player as usize]
    }

    /// Whether no star here has the size of a star of `other_system`.
    pub fn is_adjacent(&self, other_system: &System) -> (b: bool)
        ensures
            b == self@.is_adjacent(other_system@),
    {
        let stars = self.stars();
        let other_stars = other_system.stars();
        let mut i: usize = 0;
        while i < stars.len()
            invariant
                i <= stars@.len(),
                stars@ == self@.stars,
                other_stars@ == other_system@.stars,
                forall|a: int, b: int|
                    0 <= a < i && 0 <= b < other_stars@.len() ==> (#[trigger] stars@[a]).size != (
                    #[trigger] other_stars@[b]).size,
            decreases stars@.len() - i,
        {
            let mut j: usize = 0;
            while j < other_stars.len()
                invariant
                    i < stars@.len(),
                    j <= other_stars@.len(),
                    stars@ == self@.stars,
                    other_stars@ == other_system@.stars,
                    forall|b: int|
                        0 <= b < j ==> stars@[i as int].size != (#[trigger] other_stars@[b]).size,
                decreases other_stars@.len() - j,
            {
                if stars[i].size == other_stars[j].size {
                    return false;
                }
                j = j + 1;
            }
            i = i + 1;
        }
        true
    }

    /// Number of pieces of `color` in the system, stars and ships together;
    /// a number too large for the result type is reported as the largest
    /// that fits.
    pub fn color_count(&self, color: Color) -> (count: i32)
        requires
            self.wf(),
        ensures
            count == capped(self@.color_count(color) as int),
    {
        let stars = self.stars();
        let mut count: i32 = count_color(&stars, color, 0);
        count = count_color(&self.ships[0], color, count);
        count = count_color(&self.ships[1], color, count);
        count
    }
}

/// `n`, or the largest `i32` where `n` is larger.
pub open spec fn capped(n: int) -> int {
    if n <= i32::MAX {
        n
    } else {
        i32::MAX as int
    }
}

/// The bank after a catastrophe of colour `c` in system `v`: what the
/// system sends back is added kind by kind, a fourth copy being dropped.
pub open spec fn bank_after_catastrophe(bank: Map<Piece, nat>, v: SystemView, c: Color) -> Map<
    Piece,
    nat,
> {
    Map::new(|p: Piece| true, |p: Piece| topped_up(bank[p], v.returned(c, p)))
}

pub enum CatastropheResult {
    SystemStillExists,
    /// The system is not to be used after it has evaporated.
    SystemEvaporated,
}

impl System {
    /// Sends every ship of `color` back to the bank.
    fn purge_fleets(&mut self, color: Color, bank: &mut Bank)
        requires
            old(self).wf(),
            old(bank).wf(),
        ensures
            final(self).wf(),
            final(bank).wf(),
            final(self)@ == (SystemView { stars: old(self)@.stars, ..old(self)@.purged(color) }),
            forall|p: Piece| #[trigger]
                final(bank)@[p] == topped_up(
                    old(bank)@[p],
                    if p.color == color {
                        occurrences(old(self)@.fleets[0], p) + occurrences(old(self)@.fleets[1], p)
                    } else {
                        0
                    },
                ),
    {
        let ghost before = self@;
        let (kept0, gone0) = split_by_color(&self.ships[0], color);
        let (kept1, gone1) = split_by_color(&self.ships[1], color);
        bank.restock(&gone0);
        bank.restock(&gone1);
        self.ships.set(0, kept0);
        self.ships.set(1, kept1);
        proof {
            assert(self@.fleets =~= before.purged(color).fleets);
            assert forall|p: Piece| #[trigger]
                bank@[p] == topped_up(
                    old(bank)@[p],
                    if p.color == color {
                        occurrences(before.fleets[0], p) + occurrences(before.fleets[1], p)
                    } else {
                        0
                    },
                ) by {
                occurrences_without_color(before.fleets[0], color, p);
                occurrences_without_color(before.fleets[1], color, p);
            }
        }
    }

    /// Sends the star of `color` back to the bank, where the other star is
    /// of another colour.
    fn purge_stars(&mut self, color: Color, bank: &mut Bank)
        requires
            old(self).wf(),
            old(bank).wf(),
            without_color(old(self)@.stars, color).len() > 0,
        ensures
            final(self).wf(),
            final(bank).wf(),
            final(self)@ == (SystemView {
                stars: without_color(old(self)@.stars, color),
                ..old(self)@
            }),
            forall|p: Piece| #[trigger]
                final(bank)@[p] == topped_up(
                    old(bank)@[p],
                    if p.color == color {
                        occurrences(old(self)@.stars, p)
                    } else {
                        0
                    },
                ),
    {
        let ghost before = self@;
        proof {
            purge_star_facts(before.stars, color);
        }
        let ghost mut sent = Seq::<Piece>::empty();
        match self.second_star {
            None => {},
            Some(second_star) => {
                if self.star.color == color {
                    proof {
                        sent = seq![self.star];
                    }
                    let _ = bank.add(self.star);
                    self.star = second_star;
                    self.second_star = None;
                } else if second_star.color == color {
                    proof {
                        sent = seq![second_star];
                    }
                    let _ = bank.add(second_star);
                    self.second_star = None;
                }
            },
        }
        proof {
            assert(self@.stars =~= without_color(before.stars, color));
            assert(self@.fleets =~= before.fleets);
            assert(sent == only_color(before.stars, color));
            old(bank).counts_are_bounded();
            assert forall|p: Piece| #[trigger]
                bank@[p] == topped_up(old(bank)@[p], occurrences(sent, p)) by {
                if sent.len() == 1 {
                    occurrences_single(sent[0], p);
                    assert(sent =~= seq![sent[0]]);
                }
            }
            assert forall|p: Piece| #[trigger]
                bank@[p] == topped_up(
                    old(bank)@[p],
                    if p.color == color {
                        occurrences(before.stars, p)
                    } else {
                        0
                    },
                ) by {
                occurrences_without_color(before.stars, color, p);
                assert(bank@[p] == topped_up(old(bank)@[p], occurrences(sent, p)));
            }
        }
    }

    /// Sends every piece of the system back to the bank, on the bank's
    /// side only: the system itself is left as it is.
    fn bank_everything(&self, bank: &mut Bank)
        requires
            self.wf(),
            old(bank).wf(),
        ensures
            final(bank).wf(),
            forall|p: Piece| #[trigger]
                final(bank)@[p] == topped_up(old(bank)@[p], self@.census(p)),
    {
        bank.restock(&self.ships[0]);
        bank.restock(&self.ships[1]);
        let stars = self.stars();
        bank.restock(&stars);
    }

    /// Wipes `color` out of the system. Every ship of that colour goes back
    /// to the bank. If no ship is left, or if every star is of that colour,
    /// the system evaporates and everything else goes back too. Otherwise a
    /// star of that colour goes back and the system lives on with the other
    /// star. A piece that comes back to a bank already holding three of its
    /// kind is dropped.
    pub fn catastrophe(&mut self, color: Color, bank: &mut Bank) -> (result: CatastropheResult)
        requires
            old(self).wf(),
            old(bank).wf(),
        ensures
            final(self).wf(),
            final(bank).wf(),
            final(self)@ == old(self)@.after_catastrophe(color),
            result is SystemEvaporated <==> old(self)@.evaporates(color),
            result is SystemStillExists ==> final(self)@.color_count(color) == 0,
            final(bank)@ == bank_after_catastrophe(old(bank)@, old(self)@, color),
    {
        let ghost before = self@;
        self.purge_fleets(color, bank);
        let ghost bank1 = *bank;
        let stars = self.stars();
        let (stars_left, _) = split_by_color(&stars, color);
        if self.is_empty() || stars_left.len() == 0 {
            self.bank_everything(bank);
            proof {
                assert forall|p: Piece| #[trigger]
                    bank@[p] == topped_up(old(bank)@[p], before.returned(color, p)) by {
                    occurrences_without_color(before.fleets[0], color, p);
                    occurrences_without_color(before.fleets[1], color, p);
                    assert(bank@[p] == topped_up(bank1@[p], self@.census(p)));
                }
                bank.counts_are_bounded();
                assert(bank@ =~= bank_after_catastrophe(old(bank)@, before, color));
            }
            CatastropheResult::SystemEvaporated
        } else {
            self.purge_stars(color, bank);
            proof {
                assert(self@ == before.purged(color));
                assert forall|p: Piece| #[trigger]
                    bank@[p] == topped_up(old(bank)@[p], before.returned(color, p)) by {
                    assert(bank@[p] == topped_up(
                        bank1@[p],
                        if p.color == color {
                            occurrences(before.stars, p)
                        } else {
                            0
                        },
                    ));
                }
                purged_has_no_color(before, color);
                bank.counts_are_bounded();
                assert(bank@ =~= bank_after_catastrophe(old(bank)@, before, color));
            }
            CatastropheResult::SystemStillExists
        }
    }
}

/// A sequence of one piece holds that piece once and no other.
proof fn occurrences_single(x: Piece, p: Piece)
    ensures
        occurrences(seq![x], p) == if x == p {
            1nat
        } else {
            0nat
        },
{
    let none = Seq::<Piece>::empty();
    assert(none.push(x) =~= seq![x]);
    crate::tally::occurrences_push(none, x, p);
    assert(occurrences(none, p) == 0);
}

/// What filtering a colour out of one or two stars leaves, and what it
/// takes, case by case.
proof fn purge_star_facts(stars: Seq<Piece>, c: Color)
    requires
        1 <= stars.len() <= 2,
    ensures
        stars.len() == 1 ==> without_color(stars, c) == if stars[0].color == c {
            Seq::<Piece>::empty()
        } else {
            stars
        },
        stars.len() == 1 ==> only_color(stars, c) == if stars[0].color == c {
            stars
        } else {
            Seq::<Piece>::empty()
        },
        stars.len() == 2 ==> without_color(stars, c) == if stars[0].color == c && stars[1].color
            == c {
            Seq::<Piece>::empty()
        } else if stars[0].color == c {
            seq![stars[1]]
        } else if stars[1].color == c {
            seq![stars[0]]
        } else {
            stars
        },
        stars.len() == 2 ==> only_color(stars, c) == if stars[0].color == c && stars[1].color
            == c {
            stars
        } else if stars[0].color == c {
            seq![stars[0]]
        } else if stars[1].color == c {
            seq![stars[1]]
        } else {
            Seq::<Piece>::empty()
        },
{
    let none = Seq::<Piece>::empty();
    assert(none.push(stars[0]) =~= seq![stars[0]]);
    color_split_push(none, stars[0], c);
    assert(without_color(none, c) =~= none && only_color(none, c) =~= none) by {
        reveal(Seq::filter);
    }
    if stars.len() == 1 {
        assert(stars =~= seq![stars[0]]);
    } else {
        assert(seq![stars[0]].push(stars[1]) =~= stars);
        color_split_push(seq![stars[0]], stars[1], c);
        assert(none.push(stars[1]) =~= seq![stars[1]]);
        assert(none.push(stars[0]).push(stars[1]) =~= stars);
    }
}

/// Once a colour has been wiped out of a system, the system holds no piece
/// of it.
pub proof fn purged_has_no_color(v: SystemView, c: Color)
    ensures
        v.purged(c).color_count(c) == 0,
        forall|p: Piece| #[trigger]
            v.purged(c).census(p) == if p.color == c {
                0
            } else {
                v.census(p)
            },
{
    assert forall|p: Piece| #[trigger]
        v.purged(c).census(p) == if p.color == c {
            0
        } else {
            v.census(p)
        } by {
        occurrences_without_color(v.stars, c, p);
        occurrences_without_color(v.fleets[0], c, p);
        occurrences_without_color(v.fleets[1], c, p);
    }
    let small = Piece { color: c, size: crate::common::Size::SMALL };
    let medium = Piece { color: c, size: crate::common::Size::MEDIUM };
    let large = Piece { color: c, size: crate::common::Size::LARGE };
    assert(v.purged(c).census(small) == 0);
    assert(v.purged(c).census(medium) == 0);
    assert(v.purged(c).census(large) == 0);
}

/// Splits `pieces` into those not of `color` and those of `color`, each
/// part in its old order.
fn split_by_color(pieces: &Vec<Piece>, color: Color) -> (parts: (Vec<Piece>, Vec<Piece>))
    ensures
        parts.0@ == without_color(pieces@, color),
        parts.1@ == only_color(pieces@, color),
{
    let mut kept: Vec<Piece> = Vec::new();
    let mut gone: Vec<Piece> = Vec::new();
    let mut i: usize = 0;
    assert(pieces@.subrange(0, 0) =~= Seq::<Piece>::empty());
    proof {
        reveal(Seq::filter);
    }
    while i < pieces.len()
        invariant
            i <= pieces@.len(),
            kept@ == without_color(pieces@.subrange(0, i as int), color),
            gone@ == only_color(pieces@.subrange(0, i as int), color),
        decreases pieces@.len() - i,
    {
        let piece = pieces[i];
        proof {
            assert(pieces@.subrange(0, i + 1) =~= pieces@.subrange(0, i as int).push(piece));
            color_split_push(pieces@.subrange(0, i as int), piece, color);
        }
        if piece.color == color {
            gone.push(piece);
        } else {
            kept.push(piece);
        }
        i = i + 1;
    }
    assert(pieces@.subrange(0, i as int) =~= pieces@);
    (kept, gone)
}

/// Adds the number of pieces of `color` in `pieces` to `start`, stopping at
/// the largest `i32`.
fn count_color(pieces: &Vec<Piece>, color: Color, start: i32) -> (count: i32)
    requires
        0 <= start,
    ensures
        count == capped(start + color_occurrences(pieces@, color)),
{
    let mut count: i32 = start;
    let mut i: usize = 0;
    while i < pieces.len()
        invariant
            i <= pieces@.len(),
            0 <= start,
            count == capped(start + color_occurrences(pieces@.subrange(0, i as int), color)),
        decreases pieces@.len() - i,
    {
        proof {
            assert(pieces@.subrange(0, i + 1) =~= pieces@.subrange(0, i as int).push(
                pieces@[i as int],
            ));
            color_occurrences_push(pieces@.subrange(0, i as int), pieces@[i as int], color);
        }
        if pieces[i].color == color && count < i32::MAX {
            count = count + 1;
        }
        i = i + 1;
    }
    assert(pieces@.subrange(0, i as int) =~= pieces@);
    count
}

} // verus!
