//! The part of a starting position's text that the contest reads itself:
//! the piece placement (eight ranks of eight squares) and the side to move,
//! whose king must stand on the board.
use vstd::prelude::*;
use crate::outcome::Side;
use crate::text::chars_of;

verus! {

/// The end of the space-separated field that starts at `i`.
pub open spec fn field_end(s: Seq<char>, i: int) -> int
    decreases s.len() - i,
{
    if 0 <= i < s.len() && s[i] != ' ' {
        field_end(s, i + 1)
    } else {
        i
    }
}

/// The piece placement: the text before the first space.
pub open spec fn placement(s: Seq<char>) -> Seq<char> {
    s.subrange(0, field_end(s, 0))
}

/// The side-to-move field: the text between the first and second spaces.
pub open spec fn side_field(s: Seq<char>) -> Seq<char> {
    let e0 = field_end(s, 0);
    if e0 < s.len() {
        s.subrange(e0 + 1, field_end(s, e0 + 1))
    } else {
        Seq::empty()
    }
}

pub open spec fn is_piece_char(c: char) -> bool {
    c == 'p' || c == 'n' || c == 'b' || c == 'r' || c == 'q' || c == 'k' || c == 'P' || c == 'N'
        || c == 'B' || c == 'R' || c == 'Q' || c == 'K'
}

pub open spec fn is_run_char(c: char) -> bool {
    '1' <= c <= '8'
}

/// Whether `p[i..]` completes a placement of eight ranks of eight squares,
/// given that `ranks` ranks are finished and `files` squares of the current
/// rank are filled.
pub open spec fn layout_from(p: Seq<char>, i: int, ranks: int, files: int) -> bool
    decreases p.len() - i,
{
    if i < 0 || i >= p.len() {
        ranks == 7 && files == 8
    } else if p[i] == '/' {
        files == 8 && ranks < 7 && layout_from(p, i + 1, ranks + 1, 0)
    } else if is_run_char(p[i]) {
        files + (p[i] as int - '0' as int) <= 8 && layout_from(p, i + 1, ranks, files + (p[i] as int
            - '0' as int))
    } else if is_piece_char(p[i]) {
        files + 1 <= 8 && layout_from(p, i + 1, ranks, files + 1)
    } else {
        false
    }
}

/// Whether the side to move is White (`w`) or Black (`b`).
pub open spec fn side_of(s: Seq<char>) -> Side {
    if side_field(s) == seq!['w'] {
        Side::White
    } else {
        Side::Black
    }
}

/// Whether a position's text has a full board and a side to move whose king
/// is on it.
pub open spec fn fen_well_formed(s: Seq<char>) -> bool {
    let p = placement(s);
    &&& layout_from(p, 0, 0, 0)
    &&& (side_field(s) == seq!['w'] && p.contains('K')) || (side_field(s) == seq!['b'] && p.contains('k'))
}

fn field_end_at(s: &Vec<char>, i: usize) -> (r: usize)
    requires
        i <= s@.len(),
    ensures
        r as int == field_end(s@, i as int),
        i <= r <= s@.len(),
{
    let mut j: usize = i;
    while j < s.len() && s[j] != ' '
        invariant
            i <= j <= s@.len(),
            field_end(s@, i as int) == field_end(s@, j as int),
        decreases s.len() - j,
    {
        j += 1;
    }
    j
}

fn layout_ok(s: &Vec<char>, end: usize) -> (r: bool)
    requires
        end <= s@.len(),
    ensures
        r == layout_from(s@.subrange(0, end as int), 0, 0, 0),
{
    let ghost p = s@.subrange(0, end as int);
    let mut i: usize = 0;
    let mut ranks: u8 = 0;
    let mut files: u8 = 0;
    while i < end
        invariant
            end <= s@.len(),
            p == s@.subrange(0, end as int),
            i <= end,
            ranks <= 7,
            files <= 8,
            layout_from(p, 0, 0, 0) == layout_from(p, i as int, ranks as int, files as int),
        decreases end - i,
    {
        let c = s[i];
        assert(p[i as int] == c);
        if c == '/' {
            if files != 8 || ranks >= 7 {
                return false;
            }
            ranks = ranks + 1;
            files = 0;
        } else if '1' <= c && c <= '8' {
            let d: u8 = (c as u32 - 48) as u8;
            if files + d > 8 {
                return false;
            }
            files = files + d;
        } else if c == 'p' || c == 'n' || c == 'b' || c == 'r' || c == 'q' || c == 'k' || c == 'P'
            || c == 'N' || c == 'B' || c == 'R' || c == 'Q' || c == 'K' {
            if files + 1 > 8 {
                return false;
            }
            files = files + 1;
        } else {
            return false;
        }
        i += 1;
    }
    ranks == 7 && files == 8
}

fn holds_char(s: &Vec<char>, end: usize, c: char) -> (r: bool)
    requires
        end <= s@.len(),
    ensures
        r == s@.subrange(0, end as int).contains(c),
{
    let mut i: usize = 0;
    while i < end
        invariant
            end <= s@.len(),
            i <= end,
            forall|j: int| 0 <= j < i ==> s@[j] != c,
        decreases end - i,
    {
        if s[i] == c {
            assert(s@.subrange(0, end as int)[i as int] == c);
            return true;
        }
        i += 1;
    }
    assert forall|j: int| 0 <= j < end implies s@.subrange(0, end as int)[j] != c by {
        assert(s@.subrange(0, end as int)[j] == s@[j]);
    }
    false
}

/// Checks a position's text: a full board, and a side to move (`w` or `b`)
/// whose king is on it. Returns that side when the text passes.
pub fn check_fen(fen: &str) -> (r: Option<Side>)
    ensures
        r.is_some() == fen_well_formed(fen@),
        r matches Some(side) ==> side == side_of(fen@),
{
    let s = chars_of(fen);
    let e0 = field_end_at(&s, 0);
    if !layout_ok(&s, e0) {
        return None;
    }
    assert(placement(s@) == s@.subrange(0, e0 as int));
    if s.len() - e0 < 2 {
        if e0 < s.len() {
            assert(field_end(s@, e0 + 1) == e0 + 1);
        }
        assert(side_field(s@).len() == 0);
        return None;
    }
    let e1 = field_end_at(&s, e0 + 1);
    assert(side_field(s@) == s@.subrange(e0 + 1, e1 as int));
    if e1 != e0 + 2 {
        assert(side_field(s@).len() != 1);
        assert(side_field(s@) != seq!['w']);
        assert(side_field(s@) != seq!['b']);
        return None;
    }
    let c = s[e0 + 1];
    assert(side_field(s@) =~= seq![c]);
    assert(side_field(s@)[0] == c);
    assert(seq!['w'][0] == 'w' && seq!['b'][0] == 'b');
    if c == 'w' {
        if holds_char(&s, e0, 'K') {
            Some(Side::White)
        } else {
            None
        }
    } else if c == 'b' {
        if holds_char(&s, e0, 'k') {
            Some(Side::Black)
        } else {
            None
        }
    } else {
        assert(side_field(s@) != seq!['w']);
        assert(side_field(s@) != seq!['b']);
        None
    }
}

} // verus!
