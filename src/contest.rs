//! One contest between two engines from one starting position: the board
//! (kept by the `chess` crate), the moves played, the clock, and the rules
//! that end it.
use vstd::prelude::*;
use crate::clock::{charge, charged, Clock};
use crate::outcome::{is_a, opponent, other, resolved, GameEnd, Outcome, Side};
use chess::{BoardStatus, ChessMove, File, Game, Piece, Rank};
use crate::fen::{check_fen, fen_well_formed, side_of};
use crate::uci_move::{Promotion, Square, UciMove};

verus! {

/// The state of the board that the rules library reports, one for one.
#[derive(Clone, Copy, Debug, PartialEq, Eq, Structural)]
pub enum BoardState {
    Ongoing,
    Stalemate,
    /// The side to move is mated.
    Checkmate,
}

/// How a board state ends the contest, given the side to move.
pub open spec fn end_of(state: BoardState, to_move: Side) -> Option<GameEnd> {
    match state {
        BoardState::Ongoing => None,
        BoardState::Stalemate => Some(GameEnd::Draw),
        BoardState::Checkmate => Some(GameEnd::Decisive { winner: opponent(to_move) }),
    }
}

/// How a board state ends the contest, given the side to move.
pub fn end_from_state(state: BoardState, to_move: Side) -> (e: Option<GameEnd>)
    ensures
        e == end_of(state, to_move),
{
    match state {
        BoardState::Ongoing => None,
        BoardState::Stalemate => Some(GameEnd::Draw),
        BoardState::Checkmate => Some(GameEnd::Decisive { winner: other(to_move) }),
    }
}

/// Whether the `chess` crate reads `fen` as a position. Its parser depends on
/// the text alone.
pub uninterp spec fn chess_accepts_fen(fen: Seq<char>) -> bool;

/// Whether the `chess` crate takes `m` as a legal move in the game that
/// starts from `start` and has had the moves of `played` that it accepts
/// made in order.
pub uninterp spec fn chess_legal(start: Seq<char>, played: Seq<UciMove>, m: UciMove) -> bool;

/// The state that the `chess` crate reports for the board reached from
/// `start` by the moves of `played` that it accepts, in order.
pub uninterp spec fn chess_state(start: Seq<char>, played: Seq<UciMove>) -> BoardState;

/// Whether the `chess` crate lets a draw be claimed (threefold repetition or
/// fifty moves) in the game that starts from `start` and has had the moves
/// of `played` that it accepts made in order.
pub uninterp spec fn chess_claimable(start: Seq<char>, played: Seq<UciMove>) -> bool;

/// Relies on `chess::Game::from_str`: whether the crate reads `fen` as a
/// position. The text is checked first: the crate's board construction
/// needs the king of the side to move on the board.
#[verifier::external_body]
fn fen_accepted(fen: &str) -> (r: bool)
    requires
        fen_well_formed(fen@),
    ensures
        r == chess_accepts_fen(fen@),
{
    fen.parse::<Game>().is_ok()
}

/// Relies on `chess::Game::make_move`, which plays a move only when the game
/// is not over and the move is legal, and says whether it did: the game from
/// `start` is given `played`, then `m`.
#[verifier::external_body]
fn rules_accept(start: &str, played: &Vec<UciMove>, m: UciMove) -> (r: bool)
    requires
        fen_well_formed(start@),
        chess_accepts_fen(start@),
    ensures
        r == chess_legal(start@, played@, m),
{
    let sq = |q: Square| chess::Square::make_square(Rank::from_index(q.rank as usize), File::from_index(q.file as usize));
    let pc = |p| match p { Promotion::Knight => Piece::Knight, Promotion::Bishop => Piece::Bishop, Promotion::Rook => Piece::Rook, Promotion::Queen => Piece::Queen };
    let mv = |u: &UciMove| ChessMove::new(sq(u.source), sq(u.dest), u.promotion.map(pc));
    let mut g = start.parse::<Game>().unwrap();
    for u in played {
        g.make_move(mv(u));
    }
    g.make_move(mv(&m))
}

/// Relies on `chess::Game::can_declare_draw`: whether the game from `start`,
/// given `played`, can be declared drawn.
#[verifier::external_body]
fn rules_claimable(start: &str, played: &Vec<UciMove>) -> (r: bool)
    requires
        fen_well_formed(start@),
        chess_accepts_fen(start@),
    ensures
        r == chess_claimable(start@, played@),
{
    let sq = |q: Square| chess::Square::make_square(Rank::from_index(q.rank as usize), File::from_index(q.file as usize));
    let pc = |p| match p { Promotion::Knight => Piece::Knight, Promotion::Bishop => Piece::Bishop, Promotion::Rook => Piece::Rook, Promotion::Queen => Piece::Queen };
    let mut g = start.parse::<Game>().unwrap();
    for u in played {
        g.make_move(ChessMove::new(sq(u.source), sq(u.dest), u.promotion.map(pc)));
    }
    g.can_declare_draw()
}

/// Relies on `chess::Board::status` of `chess::Game::current_position`: the
/// state of the board of the game from `start` given `played`.
#[verifier::external_body]
fn rules_state(start: &str, played: &Vec<UciMove>) -> (r: BoardState)
    requires
        fen_well_formed(start@),
        chess_accepts_fen(start@),
    ensures
        r == chess_state(start@, played@),
{
    let sq = |q: Square| chess::Square::make_square(Rank::from_index(q.rank as usize), File::from_index(q.file as usize));
    let pc = |p| match p { Promotion::Knight => Piece::Knight, Promotion::Bishop => Piece::Bishop, Promotion::Rook => Piece::Rook, Promotion::Queen => Piece::Queen };
    let mut g: Game = start.parse().unwrap();
    for u in played {
        g.make_move(ChessMove::new(sq(u.source), sq(u.dest), u.promotion.map(pc)));
    }
    match g.current_position().status() {
        BoardStatus::Ongoing => BoardState::Ongoing,
        BoardStatus::Stalemate => BoardState::Stalemate,
        BoardStatus::Checkmate => BoardState::Checkmate,
    }
}

/// The leniencies of the runner.
#[derive(Clone, Copy, Debug, PartialEq, Eq, Structural)]
pub struct Policy {
    /// An illegal move loses the contest by forfeit; otherwise it is refused
    /// as a protocol violation.
    pub illegal_move_forfeits: bool,
    /// A draw by repetition or by the fifty-move rule is claimed as soon as
    /// it can be.
    pub claim_draws: bool,
}

/// A move that the engine to play proposed and the rules refused.
#[derive(Clone, Copy, Debug, PartialEq, Eq, Structural)]
pub struct IllegalMove {
    pub proposed: UciMove,
}

/// What a contest is, apart from the board the rules library keeps.
pub ghost struct ContestView {
    pub start: Seq<char>,
    pub moves: Seq<UciMove>,
    pub clock: Clock,
    pub increment: u64,
    pub to_move: Side,
    pub a_white: bool,
    pub policy: Policy,
    pub end: Option<GameEnd>,
}

/// One contest in progress or decided.
pub struct Contest {
    start: String,
    moves: Vec<UciMove>,
    clock: Clock,
    increment: u64,
    to_move: Side,
    a_white: bool,
    policy: Policy,
    end: Option<GameEnd>,
}

impl View for Contest {
    type V = ContestView;

    closed spec fn view(&self) -> ContestView {
        ContestView {
            start: self.start@,
            moves: self.moves@,
            clock: self.clock,
            increment: self.increment,
            to_move: self.to_move,
            a_white: self.a_white,
            policy: self.policy,
            end: self.end,
        }
    }
}

impl ContestView {
    /// The starting position is one the rules library reads, and every move
    /// played is well formed.
    pub open spec fn wf(self) -> bool {
        &&& fen_well_formed(self.start)
        &&& chess_accepts_fen(self.start)
        &&& forall|i: int| 0 <= i < self.moves.len() ==> #[trigger] self.moves[i].wf()
    }

    /// The view after `mover` ran out of time, sent no move, or forfeited an
    /// illegal one: nothing else changes.
    pub open spec fn forfeited_by(self, mover: Side) -> ContestView {
        ContestView { end: Some(GameEnd::Forfeit { loser: mover }), ..self }
    }
}

impl Contest {
    /// A contest from the position `fen`, each side with `time` ms and
    /// `increment` ms per move; `None` when `fen` has no full board with the
    /// king of the side to move on it, or the rules library does not read
    /// it. A position that is already over starts decided.
    pub fn new(fen: &str, time: u64, increment: u64, a_white: bool, policy: Policy) -> (r: Option<
        Contest,
    >)
        ensures
            r.is_some() == (fen_well_formed(fen@) && chess_accepts_fen(fen@)),
            r matches Some(c) ==> c@.wf() && c@ == (ContestView {
                start: fen@,
                moves: Seq::empty(),
                clock: Clock { white: time, black: time },
                increment,
                to_move: side_of(fen@),
                a_white,
                policy,
                end: end_of(chess_state(fen@, Seq::empty()), side_of(fen@)),
            }),
    {
        let side = match check_fen(fen) {
            Some(side) => side,
            None => {
                return None;
            },
        };
        if !fen_accepted(fen) {
            return None;
        }
        let start = String::from_str(fen);
        let moves: Vec<UciMove> = Vec::new();
        let end = end_from_state(rules_state(start.as_str(), &moves), side);
        let c = Contest {
            start,
            moves,
            clock: Clock::new(time),
            increment,
            to_move: side,
            a_white,
            policy,
            end,
        };
        assert(c@.moves =~= Seq::<UciMove>::empty());
        Some(c)
    }

    /// The text of the starting position.
    pub fn start(&self) -> (r: &str)
        ensures
            r@ == self@.start,
    {
        self.start.as_str()
    }

    /// The moves played so far.
    pub fn moves(&self) -> (r: &Vec<UciMove>)
        ensures
            r@ == self@.moves,
    {
        &self.moves
    }

    /// The time left to each side.
    pub fn clock(&self) -> (r: Clock)
        ensures
            r == self@.clock,
    {
        self.clock
    }

    /// The increment added after each move, in ms.
    pub fn increment(&self) -> (r: u64)
        ensures
            r == self@.increment,
    {
        self.increment
    }

    /// The side whose turn it is.
    pub fn side_to_move(&self) -> (r: Side)
        ensures
            r == self@.to_move,
    {
        self.to_move
    }

    /// Whether competitor A plays White.
    pub fn a_white(&self) -> (r: bool)
        ensures
            r == self@.a_white,
    {
        self.a_white
    }

    /// Whether competitor A is the one to move.
    pub fn mover_is_a(&self) -> (r: bool)
        ensures
            r == is_a(self@.to_move, self@.a_white),
    {
        (self.to_move == Side::White) == self.a_white
    }

    /// How long to wait for the mover's reply, in ms: its remaining time plus
    /// the increment (saturating). A reply that takes longer is a forfeit
    /// whatever it says.
    pub fn time_budget(&self) -> (r: u64)
        ensures
            r == (if self@.clock.time_of(self@.to_move) + self@.increment > u64::MAX {
                u64::MAX as int
            } else {
                self@.clock.time_of(self@.to_move) + self@.increment
            }),
            forall|used: u64| used > r ==> (#[trigger] charged(self@.clock.time_of(self@.to_move), self@.increment, used)).is_none(),
    {
        self.clock.remaining(self.to_move).saturating_add(self.increment)
    }

    /// How the contest ended on the board, once it has.
    pub fn end(&self) -> (r: Option<GameEnd>)
        ensures
            r == self@.end,
    {
        self.end
    }

    /// Whether the contest is decided.
    pub fn is_over(&self) -> (r: bool)
        ensures
            r == self@.end.is_some(),
    {
        self.end.is_some()
    }

    /// How the contest ended for the competitors, once it has.
    pub fn outcome(&self) -> (r: Option<Outcome>)
        ensures
            r == (match self@.end {
                Some(e) => Some(resolved(e, self@.a_white)),
                None => None::<Outcome>,
            }),
    {
        match self.end {
            Some(e) => Some(e.resolve(self.a_white)),
            None => None,
        }
    }

    /// One ply: the engine to move replied with `reply` (`None`: nothing in
    /// time, or the stream closed) after `used_ms` ms.
    ///
    /// No reply is a forfeit. A move that would take the mover's clock below
    /// zero is a forfeit, and the move is not played. Otherwise a move the
    /// rules accept is played: the mover's clock is charged (increment
    /// added), the turn passes, and the contest is decided when the rules say
    /// it is over (after claiming a draw, when the policy says so). A move the
    /// rules refuse is a forfeit, or an `Err` that changes nothing, as the
    /// policy says.
    pub fn apply_reply(&mut self, reply: Option<UciMove>, used_ms: u64) -> (r: Result<
        (),
        IllegalMove,
    >)
        requires
            old(self)@.wf(),
            old(self)@.end.is_none(),
            reply matches Some(m) ==> m.wf(),
        ensures
            final(self)@.wf(),
            ({
                let before = old(self)@;
                let after = final(self)@;
                let mover = before.to_move;
                match reply {
                    None => r is Ok && after == before.forfeited_by(mover),
                    Some(m) => match charged(before.clock.time_of(mover), before.increment, used_ms) {
                        None => r is Ok && after == before.forfeited_by(mover),
                        Some(t) => if chess_legal(before.start, before.moves, m) {
                            &&& r is Ok
                            &&& after == (ContestView {
                                moves: before.moves.push(m),
                                clock: before.clock.with_time(mover, t),
                                to_move: opponent(mover),
                                end: if before.policy.claim_draws && chess_claimable(before.start, before.moves.push(m)) {
                                    Some(GameEnd::Draw)
                                } else {
                                    end_of(chess_state(before.start, before.moves.push(m)), opponent(mover))
                                },
                                ..before
                            })
                        } else if before.policy.illegal_move_forfeits {
                            r is Ok && after == before.forfeited_by(mover)
                        } else {
                            r == Err::<(), IllegalMove>(IllegalMove { proposed: m }) && after == before
                        },
                    },
                }
            }),
    {
        let mover = self.to_move;
        match reply {
            None => {
                self.end = Some(GameEnd::Forfeit { loser: mover });
                Ok(())
            },
            Some(m) => match charge(self.clock.remaining(mover), self.increment, used_ms) {
                None => {
                    self.end = Some(GameEnd::Forfeit { loser: mover });
                    Ok(())
                },
                Some(t) => {
                    if rules_accept(self.start.as_str(), &self.moves, m) {
                        self.moves.push(m);
                        self.clock.set(mover, t);
                        self.to_move = other(mover);
                        self.end = if self.policy.claim_draws && rules_claimable(self.start.as_str(), &self.moves) {
                            Some(GameEnd::Draw)
                        } else {
                            end_from_state(rules_state(self.start.as_str(), &self.moves), self.to_move)
                        };
                        assert forall|i: int| 0 <= i < self@.moves.len() implies #[trigger] self@.moves[i].wf() by {
                            if i < old(self)@.moves.len() {
                                assert(old(self)@.moves[i].wf());
                            }
                        }
                        Ok(())
                    } else if self.policy.illegal_move_forfeits {
                        self.end = Some(GameEnd::Forfeit { loser: mover });
                        Ok(())
                    } else {
                        Err(IllegalMove { proposed: m })
                    }
                },
            },
        }
    }
}

} // verus!
