//! Moves in the coordinate notation of the engine protocol: a source square,
//! a destination square and an optional promotion letter (`e2e4`, `e7e8q`).
use vstd::prelude::*;
use crate::text::{chars_of, string_of};

verus! {

/// A board square by file (0 for `a` to 7 for `h`) and rank (0 for `1` to 7 for `8`).
#[derive(Clone, Copy, Debug, PartialEq, Eq, Structural)]
pub struct Square {
    pub file: u8,
    pub rank: u8,
}

/// The piece a pawn turns into on the last rank.
#[derive(Clone, Copy, Debug, PartialEq, Eq, Structural)]
pub enum Promotion {
    Knight,
    Bishop,
    Rook,
    Queen,
}

/// A move as the protocol writes it.
#[derive(Clone, Copy, Debug, PartialEq, Eq, Structural)]
pub struct UciMove {
    pub source: Square,
    pub dest: Square,
    pub promotion: Option<Promotion>,
}

impl Square {
    pub open spec fn wf(self) -> bool {
        self.file < 8 && self.rank < 8
    }

    /// The index of the square counted from `a1` along the ranks.
    pub open spec fn index(self) -> nat {
        (self.rank * 8 + self.file) as nat
    }
}

impl UciMove {
    pub open spec fn wf(self) -> bool {
        self.source.wf() && self.dest.wf()
    }
}

pub open spec fn is_file_char(c: char) -> bool {
    'a' <= c <= 'h'
}

pub open spec fn is_rank_char(c: char) -> bool {
    '1' <= c <= '8'
}

/// The square named by a file letter and a rank digit.
pub open spec fn square_of(f: char, r: char) -> Square {
    Square { file: (f as int - 'a' as int) as u8, rank: (r as int - '1' as int) as u8 }
}

/// The promotion piece that a letter names, if any.
pub open spec fn promotion_of(c: char) -> Option<Promotion> {
    if c == 'n' {
        Some(Promotion::Knight)
    } else if c == 'b' {
        Some(Promotion::Bishop)
    } else if c == 'r' {
        Some(Promotion::Rook)
    } else if c == 'q' {
        Some(Promotion::Queen)
    } else {
        None
    }
}

/// The letter of a promotion piece.
pub open spec fn promotion_char(p: Promotion) -> char {
    match p {
        Promotion::Knight => 'n',
        Promotion::Bishop => 'b',
        Promotion::Rook => 'r',
        Promotion::Queen => 'q',
    }
}

/// Whether `s` is a move in coordinate notation: two squares, then at most
/// one more character, which names the promotion piece when it is `n`, `b`,
/// `r` or `q`.
pub open spec fn is_uci_move(s: Seq<char>) -> bool {
    &&& (s.len() == 4 || s.len() == 5)
    &&& is_file_char(s[0]) && is_rank_char(s[1])
    &&& is_file_char(s[2]) && is_rank_char(s[3])
}

/// The move that a well-formed text denotes.
pub open spec fn uci_move_of(s: Seq<char>) -> UciMove {
    UciMove {
        source: square_of(s[0], s[1]),
        dest: square_of(s[2], s[3]),
        promotion: if s.len() == 5 { promotion_of(s[4]) } else { None },
    }
}

/// The text of a square: file letter, then rank digit.
pub open spec fn square_text(q: Square) -> Seq<char> {
    seq![(q.file + 'a' as int) as char, (q.rank + '1' as int) as char]
}

/// The text of a move in coordinate notation.
pub open spec fn uci_text(m: UciMove) -> Seq<char> {
    square_text(m.source) + square_text(m.dest) + match m.promotion {
        Some(p) => seq![promotion_char(p)],
        None => Seq::<char>::empty(),
    }
}

/// Writing a well-formed move and reading it back gives the same move.
pub proof fn lemma_uci_round_trip(m: UciMove)
    requires
        m.wf(),
    ensures
        is_uci_move(uci_text(m)),
        uci_move_of(uci_text(m)) == m,
{
    let t = uci_text(m);
    assert(t[0] == (m.source.file + 'a' as int) as char);
    assert(t[1] == (m.source.rank + '1' as int) as char);
    assert(t[2] == (m.dest.file + 'a' as int) as char);
    assert(t[3] == (m.dest.rank + '1' as int) as char);
    match m.promotion {
        Some(p) => {
            assert(t[4] == promotion_char(p));
        },
        None => {},
    }
}

fn file_char(c: char) -> (r: Option<u8>)
    ensures
        r == (if is_file_char(c) { Some((c as int - 'a' as int) as u8) } else { None::<u8> }),
{
    if 'a' <= c && c <= 'h' {
        Some((c as u32 - 97) as u8)
    } else {
        None
    }
}

fn rank_char(c: char) -> (r: Option<u8>)
    ensures
        r == (if is_rank_char(c) { Some((c as int - '1' as int) as u8) } else { None::<u8> }),
{
    if '1' <= c && c <= '8' {
        Some((c as u32 - 49) as u8)
    } else {
        None
    }
}

fn promotion_letter(c: char) -> (r: Option<Promotion>)
    ensures
        r == promotion_of(c),
{
    if c == 'n' {
        Some(Promotion::Knight)
    } else if c == 'b' {
        Some(Promotion::Bishop)
    } else if c == 'r' {
        Some(Promotion::Rook)
    } else if c == 'q' {
        Some(Promotion::Queen)
    } else {
        None
    }
}

/// Reads a move from the characters of its coordinate notation.
pub fn move_from_chars(s: &Vec<char>) -> (r: Option<UciMove>)
    ensures
        r == (if is_uci_move(s@) { Some(uci_move_of(s@)) } else { None::<UciMove> }),
        r matches Some(m) ==> m.wf(),
{
    if s.len() != 4 && s.len() != 5 {
        return None;
    }
    let sf = file_char(s[0]);
    let sr = rank_char(s[1]);
    let df = file_char(s[2]);
    let dr = rank_char(s[3]);
    match (sf, sr, df, dr) {
        (Some(a), Some(b), Some(c), Some(d)) => {
            let promotion = if s.len() == 5 {
                promotion_letter(s[4])
            } else {
                None
            };
            Some(UciMove {
                source: Square { file: a, rank: b },
                dest: Square { file: c, rank: d },
                promotion,
            })
        },
        _ => None,
    }
}

/// Reads a move in coordinate notation. Text that is not one breaks the
/// contract with the engine; `scan_reply` tells such text apart first.
pub fn move_from_uci(m: &str) -> (r: UciMove)
    requires
        is_uci_move(m@),
    ensures
        r == uci_move_of(m@),
        r.wf(),
{
    let cs = chars_of(m);
    move_from_chars(&cs).unwrap()
}

impl UciMove {
    /// Appends the coordinate notation of this move to `out`.
    pub fn push_text(&self, out: &mut Vec<char>)
        requires
            self.wf(),
        ensures
            final(out)@ == old(out)@ + uci_text(*self),
    {
        out.push((self.source.file + 97) as char);
        out.push((self.source.rank + 49) as char);
        out.push((self.dest.file + 97) as char);
        out.push((self.dest.rank + 49) as char);
        match self.promotion {
            Some(p) => {
                let c = match p {
                    Promotion::Knight => 'n',
                    Promotion::Bishop => 'b',
                    Promotion::Rook => 'r',
                    Promotion::Queen => 'q',
                };
                out.push(c);
            },
            None => {},
        }
        assert(final(out)@ =~= old(out)@ + uci_text(*self));
    }

    /// The coordinate notation of this move.
    pub fn to_uci(&self) -> (r: String)
        requires
            self.wf(),
        ensures
            r@ == uci_text(*self),
    {
        let mut out: Vec<char> = Vec::new();
        self.push_text(&mut out);
        assert(out@ =~= uci_text(*self));
        string_of(&out)
    }
}

} // verus!
