//! How a contest ended, seen from the board (White / Black) and from the two
//! competitors (A / B), and what each ending is worth.
use vstd::prelude::*;

verus! {

/// A side of the board.
#[derive(Clone, Copy, Debug, PartialEq, Eq, Structural)]
pub enum Side {
    White,
    Black,
}

/// The end of a contest in board terms.
#[derive(Clone, Copy, Debug, PartialEq, Eq, Structural)]
pub enum GameEnd {
    /// Won on the board (checkmate, or the other side resigned).
    Decisive { winner: Side },
    /// Stalemate or a draw claimed or agreed.
    Draw,
    /// Lost by the clock, by no reply, or by an illegal move.
    Forfeit { loser: Side },
}

/// The end of a contest in terms of the two competitors.
#[derive(Clone, Copy, Debug, PartialEq, Eq, Structural)]
pub enum Outcome {
    /// A won on the board.
    DecisiveA,
    /// B won on the board.
    DecisiveB,
    Draw,
    /// A forfeited, so B wins.
    ForfeitA,
    /// B forfeited, so A wins.
    ForfeitB,
}

pub open spec fn opponent(s: Side) -> Side {
    match s {
        Side::White => Side::Black,
        Side::Black => Side::White,
    }
}

/// Whether competitor A is the one on side `s`, given whether A plays White.
pub open spec fn is_a(s: Side, a_white: bool) -> bool {
    (s == Side::White) == a_white
}

/// The competitor-relative outcome of a board ending.
pub open spec fn resolved(end: GameEnd, a_white: bool) -> Outcome {
    match end {
        GameEnd::Decisive { winner } => if is_a(winner, a_white) {
            Outcome::DecisiveA
        } else {
            Outcome::DecisiveB
        },
        GameEnd::Draw => Outcome::Draw,
        GameEnd::Forfeit { loser } => if is_a(loser, a_white) {
            Outcome::ForfeitA
        } else {
            Outcome::ForfeitB
        },
    }
}

/// Whether A takes the point.
pub open spec fn a_won(o: Outcome) -> bool {
    o == Outcome::DecisiveA || o == Outcome::ForfeitB
}

/// Whether B takes the point.
pub open spec fn b_won(o: Outcome) -> bool {
    o == Outcome::DecisiveB || o == Outcome::ForfeitA
}

/// The tally bucket of an outcome: 0 when A won, 1 for a draw, 2 when B won.
pub open spec fn bucket(o: Outcome) -> nat {
    if a_won(o) {
        0
    } else if b_won(o) {
        2
    } else {
        1
    }
}

/// The scores of A and B in half points: (2, 0), (1, 1) or (0, 2).
pub open spec fn half_points(o: Outcome) -> (nat, nat) {
    if a_won(o) {
        (2, 0)
    } else if b_won(o) {
        (0, 2)
    } else {
        (1, 1)
    }
}

/// `n - idx` when `mirror` holds, else `idx`.
pub open spec fn flipped(idx: nat, mirror: bool, n: nat) -> nat {
    if mirror {
        (n - idx) as nat
    } else {
        idx
    }
}

/// Mirrors an index of `0..=n` when `mirror` holds.
pub fn flip(idx: usize, mirror: bool, n: usize) -> (r: usize)
    requires
        mirror ==> idx <= n,
    ensures
        r as nat == flipped(idx as nat, mirror, n as nat),
{
    if mirror {
        n - idx
    } else {
        idx
    }
}

/// The other side.
pub fn other(s: Side) -> (r: Side)
    ensures
        r == opponent(s),
{
    match s {
        Side::White => Side::Black,
        Side::Black => Side::White,
    }
}

/// The bucket of a board ending seen from White: 0 when White won, 1 for a
/// draw, 2 when Black won.
pub open spec fn board_bucket(end: GameEnd) -> nat {
    match end {
        GameEnd::Decisive { winner } => if winner == Side::White { 0 } else { 2 },
        GameEnd::Draw => 1,
        GameEnd::Forfeit { loser } => if loser == Side::White { 2 } else { 0 },
    }
}

impl GameEnd {
    /// The bucket seen from White.
    pub fn board_bucket(&self) -> (r: usize)
        ensures
            r as nat == board_bucket(*self),
    {
        match self {
            GameEnd::Decisive { winner } => match winner {
                Side::White => 0,
                Side::Black => 2,
            },
            GameEnd::Draw => 1,
            GameEnd::Forfeit { loser } => match loser {
                Side::White => 2,
                Side::Black => 0,
            },
        }
    }

    /// The outcome for the competitors, given whether A played White.
    pub fn resolve(&self, a_white: bool) -> (r: Outcome)
        ensures
            r == resolved(*self, a_white),
    {
        match self {
            GameEnd::Decisive { winner } => {
                if (*winner == Side::White) == a_white {
                    Outcome::DecisiveA
                } else {
                    Outcome::DecisiveB
                }
            },
            GameEnd::Draw => Outcome::Draw,
            GameEnd::Forfeit { loser } => {
                if (*loser == Side::White) == a_white {
                    Outcome::ForfeitA
                } else {
                    Outcome::ForfeitB
                }
            },
        }
    }

    /// The tally bucket of this ending for the competitors: the bucket seen
    /// from White, mirrored when A played Black.
    pub fn tally_index(&self, a_white: bool) -> (r: usize)
        ensures
            r as nat == bucket(resolved(*self, a_white)),
    {
        let b = self.board_bucket();
        flip(b, !a_white, 2)
    }
}

impl Outcome {
    /// The tally bucket: 0 when A won, 1 for a draw, 2 when B won.
    pub fn tally_index(&self) -> (r: usize)
        ensures
            r as nat == bucket(*self),
    {
        match self {
            Outcome::DecisiveA | Outcome::ForfeitB => 0,
            Outcome::Draw => 1,
            Outcome::DecisiveB | Outcome::ForfeitA => 2,
        }
    }

    /// The scores of A and B in half points.
    pub fn half_points(&self) -> (r: (u8, u8))
        ensures
            (r.0 as nat, r.1 as nat) == half_points(*self),
    {
        match self {
            Outcome::DecisiveA | Outcome::ForfeitB => (2, 0),
            Outcome::Draw => (1, 1),
            Outcome::DecisiveB | Outcome::ForfeitA => (0, 2),
        }
    }
}

/// The two scores of every contest sum to one point.
pub proof fn lemma_scores_sum_to_one(o: Outcome)
    ensures
        half_points(o).0 + half_points(o).1 == 2,
{
}

} // verus!
