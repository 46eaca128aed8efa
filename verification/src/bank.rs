//! The shared supply of pieces: at most three copies of each of the twelve
//! kinds.

use vstd::prelude::*;
use crate::common::{Color, InputError, Piece, Size, COPIES_PER_KIND};
use crate::tally::{occurrences, occurrences_push};

verus! {

#[derive(Debug)]
pub struct Bank {
    /// Copies on hand, one entry per piece kind, in kind order.
    amounts: Vec<u8>,
}

impl View for Bank {
    type V = Map<Piece, nat>;

    /// The copies on hand of every piece kind.
    closed spec fn view(&self) -> Map<Piece, nat> {
        Map::new(|p: Piece| true, |p: Piece| self.amounts@[p.kind()] as nat)
    }
}

impl Bank {
    /// Twelve entries, none above three.
    pub closed spec fn wf(&self) -> bool {
        &&& self.amounts@.len() == 12
        &&& forall|k: int| 0 <= k < 12 ==> #[trigger] self.amounts@[k] <= COPIES_PER_KIND
    }

    /// Copies of `piece` on hand.
    pub open spec fn count(&self, piece: Piece) -> nat {
        self@[piece]
    }

    /// In a well-formed bank every kind is listed and no count exceeds three.
    pub proof fn counts_are_bounded(&self)
        requires
            self.wf(),
        ensures
            forall|p: Piece| self@.dom().contains(p),
            forall|p: Piece| #[trigger] self@[p] <= 3,
    {
        assert forall|p: Piece| #[trigger] self@[p] <= 3 by {
            assert(self.amounts@[p.kind()] <= COPIES_PER_KIND);
        }
    }

    /// A bank with three copies of every kind.
    pub fn full() -> (bank: Bank)
        ensures
            bank.wf(),
            bank@ == Map::new(|p: Piece| true, |p: Piece| 3nat),
    {
        let mut amounts: Vec<u8> = Vec::new();
        let mut k: usize = 0;
        while k < 12
            invariant
                k <= 12,
                amounts@.len() == k,
                forall|j: int| 0 <= j < k ==> #[trigger] amounts@[j] == COPIES_PER_KIND,
            decreases 12 - k,
        {
            amounts.push(COPIES_PER_KIND);
            k = k + 1;
        }
        let bank = Bank { amounts };
        assert(bank@ =~= Map::new(|p: Piece| true, |p: Piece| 3nat));
        bank
    }

    /// Copies of `piece` on hand.
    pub fn num_available(&self, piece: Piece) -> (n: u8)
        requires
            self.wf(),
        ensures
            n == self.count(piece),
            n <= 3,
    {
        self.amounts[piece.kind_index()]
    }

    /// Takes one copy of `piece` out of the bank.
    pub fn remove(&mut self, piece: Piece) -> (r: Result<(), InputError>)
        requires
            old(self).wf(),
        ensures
            final(self).wf(),
            r is Ok <==> old(self).count(piece) >= 1,
            r is Ok ==> final(self)@ == old(self)@.insert(
                piece,
                (old(self).count(piece) - 1) as nat,
            ),
            r is Err ==> r == Err::<(), InputError>(InputError::PieceUnavailable) && final(self)@
                == old(self)@,
    {
        let k = piece.kind_index();
        let n = self.amounts[k];
        if n < 1 {
            return Err(InputError::PieceUnavailable);
        }
        self.amounts.set(k, n - 1);
        proof {
            assert forall|p: Piece| #[trigger]
                self@[p] == old(self)@.insert(piece, (old(self).count(piece) - 1) as nat)[p] by {
                crate::common::kind_is_injective(p, piece);
            }
            assert(self@ =~= old(self)@.insert(piece, (old(self).count(piece) - 1) as nat));
        }
        Ok(())
    }

    /// Puts one copy of `piece` back into the bank.
    pub fn add(&mut self, piece: Piece) -> (r: Result<(), InputError>)
        requires
            old(self).wf(),
        ensures
            final(self).wf(),
            r is Ok <==> old(self).count(piece) < 3,
            r is Ok ==> final(self)@ == old(self)@.insert(piece, old(self).count(piece) + 1),
            r is Err ==> r == Err::<(), InputError>(InputError::BadPiece) && final(self)@ == old(
                self,
            )@,
    {
        let k = piece.kind_index();
        let n = self.amounts[k];
        if n >= COPIES_PER_KIND {
            return Err(InputError::BadPiece);
        }
        self.amounts.set(k, n + 1);
        proof {
            assert forall|p: Piece| #[trigger]
                self@[p] == old(self)@.insert(piece, old(self).count(piece) + 1)[p] by {
                crate::common::kind_is_injective(p, piece);
            }
            assert(self@ =~= old(self)@.insert(piece, old(self).count(piece) + 1));
        }
        Ok(())
    }

    /// Puts `pieces` back one by one; a copy that would be the fourth of
    /// its kind is dropped.
    pub fn restock(&mut self, pieces: &Vec<Piece>)
        requires
            old(self).wf(),
        ensures
            final(self).wf(),
            final(self)@ == restocked(old(self)@, pieces@),
    {
        let mut i: usize = 0;
        while i < pieces.len()
            invariant
                i <= pieces@.len(),
                self.wf(),
                forall|p: Piece| #[trigger]
                    self@[p] == topped_up(
                        old(self)@[p],
                        occurrences(pieces@.subrange(0, i as int), p),
                    ),
            decreases pieces@.len() - i,
        {
            let ghost before = *self;
            let piece = pieces[i];
            let _ = self.add(piece);
            proof {
                assert(pieces@.subrange(0, i + 1) =~= pieces@.subrange(0, i as int).push(piece));
                assert forall|p: Piece| #[trigger]
                    self@[p] == topped_up(
                        old(self)@[p],
                        occurrences(pieces@.subrange(0, i + 1), p),
                    ) by {
                    occurrences_push(pieces@.subrange(0, i as int), piece, p);
                    assert(before@[p] == topped_up(
                        old(self)@[p],
                        occurrences(pieces@.subrange(0, i as int), p),
                    ));
                }
            }
            i = i + 1;
        }
        assert(pieces@.subrange(0, i as int) =~= pieces@);
        assert(self@ =~= restocked(old(self)@, pieces@));
    }

    /// Takes all of `pieces` out of the bank, or none of them.
    pub fn remove_several(&mut self, pieces: &[Piece]) -> (r: Result<(), InputError>)
        requires
            old(self).wf(),
        ensures
            final(self).wf(),
            r is Ok <==> covers(old(self)@, pieces@),
            r is Ok ==> final(self)@ == drawn(old(self)@, pieces@),
            r is Err ==> r == Err::<(), InputError>(InputError::PieceUnavailable) && final(self)@
                == old(self)@,
    {
        let requested = tally_kinds(pieces);
        let mut k: usize = 0;
        while k < 12
            invariant
                k <= 12,
                self.wf(),
                *self == *old(self),
                requested@.len() == 12,
                forall|p: Piece| #[trigger] requested@[p.kind()] == occurrences(pieces@, p),
                forall|j: int| 0 <= j < k ==> #[trigger] requested@[j] <= self.amounts@[j],
            decreases 12 - k,
        {
            if (self.amounts[k] as usize) < requested[k] {
                proof {
                    let p = piece_of_kind(k as int);
                    assert(p.kind() == k);
                    assert(occurrences(pieces@, p) > self@[p]);
                }
                return Err(InputError::PieceUnavailable);
            }
            k = k + 1;
        }
        proof {
            assert forall|p: Piece| #[trigger] occurrences(pieces@, p) <= self@[p] by {
                assert(requested@[p.kind()] <= self.amounts@[p.kind()]);
            }
        }
        let mut k: usize = 0;
        while k < 12
            invariant
                k <= 12,
                old(self).wf(),
                self.amounts@.len() == 12,
                requested@.len() == 12,
                forall|j: int| 0 <= j < 12 ==> #[trigger] requested@[j] <= old(self).amounts@[j],
                forall|j: int|
                    0 <= j < k ==> #[trigger] self.amounts@[j] == old(self).amounts@[j]
                        - requested@[j],
                forall|j: int| k <= j < 12 ==> #[trigger] self.amounts@[j] == old(self).amounts@[j],
            decreases 12 - k,
        {
            let taken = requested[k];
            let have = self.amounts[k];
            assert(requested@[k as int] <= old(self).amounts@[k as int]);
            assert(old(self).amounts@[k as int] <= COPIES_PER_KIND);
            self.amounts.set(k, have - (taken as u8));
            k = k + 1;
        }
        proof {
            assert forall|j: int| 0 <= j < 12 implies #[trigger] self.amounts@[j]
                <= COPIES_PER_KIND by {
                assert(old(self).amounts@[j] <= COPIES_PER_KIND);
            }
            assert forall|p: Piece| #[trigger]
                self@[p] == old(self)@[p] - occurrences(pieces@, p) by {
                assert(self.amounts@[p.kind()] == old(self).amounts@[p.kind()]
                    - requested@[p.kind()]);
            }
            assert(self@ =~= drawn(old(self)@, pieces@));
        }
        Ok(())
    }
}

/// The bank after `pieces` have come back to it, a fourth copy of a kind
/// being dropped.
pub open spec fn restocked(bank: Map<Piece, nat>, pieces: Seq<Piece>) -> Map<Piece, nat> {
    Map::new(|p: Piece| true, |p: Piece| topped_up(bank[p], occurrences(pieces, p)))
}

/// The bank after `pieces` have been taken out of it.
pub open spec fn drawn(bank: Map<Piece, nat>, pieces: Seq<Piece>) -> Map<Piece, nat> {
    Map::new(|p: Piece| true, |p: Piece| (bank[p] - occurrences(pieces, p)) as nat)
}

/// Whether the bank holds every kind at least as often as `pieces` asks
/// for it.
pub open spec fn covers(bank: Map<Piece, nat>, pieces: Seq<Piece>) -> bool {
    forall|p: Piece| #[trigger] occurrences(pieces, p) <= bank[p]
}

/// What a count of `have` becomes when `more` copies come back: their sum,
/// capped at three.
pub open spec fn topped_up(have: nat, more: nat) -> nat {
    if have + more <= 3 {
        have + more
    } else {
        3
    }
}

/// The piece whose kind is `k`.
pub open spec fn piece_of_kind(k: int) -> Piece {
    Piece {
        color: if k < 3 {
            Color::RED
        } else if k < 6 {
            Color::BLUE
        } else if k < 9 {
            Color::GREEN
        } else {
            Color::YELLOW
        },
        size: if k % 3 == 0 {
            Size::SMALL
        } else if k % 3 == 1 {
            Size::MEDIUM
        } else {
            Size::LARGE
        },
    }
}

/// For each of the twelve kinds, how often it occurs in `pieces`.
fn tally_kinds(pieces: &[Piece]) -> (requested: Vec<usize>)
    ensures
        requested@.len() == 12,
        forall|p: Piece| #[trigger] requested@[p.kind()] == occurrences(pieces@, p),
        forall|k: int| 0 <= k < 12 ==> #[trigger] requested@[k] == occurrences(
            pieces@,
            piece_of_kind(k),
        ),
{
    let mut requested: Vec<usize> = Vec::new();
    let mut k: usize = 0;
    while k < 12
        invariant
            k <= 12,
            requested@.len() == k,
            forall|j: int| 0 <= j < k ==> #[trigger] requested@[j] == 0,
        decreases 12 - k,
    {
        requested.push(0);
        k = k + 1;
    }
    let mut i: usize = 0;
    while i < pieces.len()
        invariant
            i <= pieces@.len(),
            requested@.len() == 12,
            forall|p: Piece| #[trigger]
                requested@[p.kind()] == occurrences(pieces@.subrange(0, i as int), p),
        decreases pieces@.len() - i,
    {
        let piece = pieces[i];
        let k = piece.kind_index();
        let n = requested[k];
        proof {
            crate::tally::occurrences_bounded(pieces@.subrange(0, i as int), piece);
            assert forall|p: Piece| #[trigger]
                requested@.update(k as int, (n + 1) as usize)[p.kind()] == occurrences(
                    pieces@.subrange(0, i + 1),
                    p,
                ) by {
                crate::common::kind_is_injective(p, piece);
                assert(pieces@.subrange(0, i + 1) =~= pieces@.subrange(0, i as int).push(piece));
                occurrences_push(pieces@.subrange(0, i as int), piece, p);
            }
        }
        requested.set(k, n + 1);
        i = i + 1;
    }
    proof {
        assert(pieces@.subrange(0, i as int) =~= pieces@);
        assert forall|k: int| 0 <= k < 12 implies #[trigger] requested@[k] == occurrences(
            pieces@,
            piece_of_kind(k),
        ) by {
            assert(piece_of_kind(k).kind() == k);
        }
    }
    requested
}

} // verus!
