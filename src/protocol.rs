//! The engine-control protocol: the lines a session sends (handshake,
//! parameters, position, timed search) and the reading of the lines an engine
//! answers with. The process itself is driven by the caller, which writes the
//! pending lines and hands the received ones back.
use vstd::prelude::*;
use crate::clock::Clock;
use crate::contest::Contest;
use crate::text::{
    after_word, chars_of, dec_int, dec_nat, first_word, join_spaced, push_decimal, push_signed,
    push_str, second_word, skip_spaces, skip_spaces_at, span_is, span_of, string_of, word_end_at,
};
use crate::tune::FeatureVector;
use crate::uci_move::{is_uci_move, move_from_chars, uci_move_of, uci_text, UciMove};

verus! {

/// The line that hands the engine the position: the starting position, then
/// the moves played from it.
pub open spec fn position_line(fen: Seq<char>, moves: Seq<UciMove>) -> Seq<char> {
    "position fen "@ + fen + " moves "@ + join_spaced(move_texts(moves))
}

/// The line that asks for a move, with both clocks and the increment.
pub open spec fn go_line(clock: Clock, inc: u64) -> Seq<char> {
    "go wtime "@ + dec_nat(clock.white as nat) + " winc "@ + dec_nat(inc as nat) + " btime "@
        + dec_nat(clock.black as nat) + " binc "@ + dec_nat(inc as nat)
}

/// The line that hands the engine a parameter vector, as integers separated
/// by spaces.
pub open spec fn features_line(fs: Seq<i32>) -> Seq<char> {
    "setoption name FeatureVector "@ + join_spaced(feature_texts(fs))
}

/// What a line of the engine's answer to a search request is.
#[derive(Clone, Copy, Debug, PartialEq, Eq, Structural)]
pub enum Reply {
    /// `bestmove` followed by a move in coordinate notation.
    BestMove(UciMove),
    /// `bestmove` followed by anything else, or by nothing.
    Malformed,
    /// Any other line (search information and the like).
    Unrelated,
}

pub open spec fn reply_of(line: Seq<char>) -> Reply {
    if first_word(line) == "bestmove"@ {
        if is_uci_move(second_word(line)) {
            Reply::BestMove(uci_move_of(second_word(line)))
        } else {
            Reply::Malformed
        }
    } else {
        Reply::Unrelated
    }
}

/// The name in an identification line (`id name <name>`): the rest of the
/// line after the two words and the separators that follow them.
pub open spec fn name_of(line: Seq<char>) -> Option<Seq<char>> {
    if first_word(line) == "id"@ && second_word(line) == "name"@ {
        Some(line.subrange(skip_spaces(line, after_word(line, after_word(line, 0))), line.len() as int))
    } else {
        None
    }
}

/// Whether a line acknowledges the protocol (`uciok`).
pub open spec fn is_protocol_ack(line: Seq<char>) -> bool {
    first_word(line) == "uciok"@
}

/// The name announced before the protocol acknowledgment, if any.
pub open spec fn announced_name(lines: Seq<Seq<char>>) -> Option<Seq<char>>
    decreases lines.len(),
{
    if lines.len() == 0 {
        None
    } else if name_of(lines[0]).is_some() {
        name_of(lines[0])
    } else if is_protocol_ack(lines[0]) {
        None
    } else {
        announced_name(lines.drop_first())
    }
}

/// Whether a line acknowledges readiness (starts with `readyok`).
pub open spec fn is_ready_ack(line: Seq<char>) -> bool {
    line.len() >= 7 && line.subrange(0, 7) == "readyok"@
}

/// The first word of a line, with where it ends.
fn first_word_span(line: &Vec<char>) -> (r: (usize, usize))
    ensures
        line@.subrange(r.0 as int, r.1 as int) == first_word(line@),
        r.1 as int == after_word(line@, 0),
        r.0 <= r.1 <= line@.len(),
{
    let s = skip_spaces_at(line, 0);
    let e = word_end_at(line, s);
    (s, e)
}

/// The word after position `from`, with where it ends.
fn word_span_after(line: &Vec<char>, from: usize) -> (r: (usize, usize))
    requires
        from <= line@.len(),
    ensures
        line@.subrange(r.0 as int, r.1 as int) == crate::text::word_from(line@, from as int),
        r.1 as int == after_word(line@, from as int),
        from <= r.0 <= r.1 <= line@.len(),
{
    let s = skip_spaces_at(line, from);
    let e = word_end_at(line, s);
    (s, e)
}

/// Reads one line of the answer to a search request.
pub fn scan_reply(line: &str) -> (r: Reply)
    ensures
        r == reply_of(line@),
        r matches Reply::BestMove(m) ==> m.wf(),
{
    let cs = chars_of(line);
    let (s0, e0) = first_word_span(&cs);
    let key = chars_of("bestmove");
    if !span_is(&cs, s0, e0, &key) {
        return Reply::Unrelated;
    }
    let (s1, e1) = word_span_after(&cs, e0);
    let word = span_of(&cs, s1, e1);
    match move_from_chars(&word) {
        Some(m) => Reply::BestMove(m),
        None => Reply::Malformed,
    }
}

/// Reads the name out of an identification line.
pub fn scan_name(line: &str) -> (r: Option<String>)
    ensures
        match r {
            Some(n) => name_of(line@) == Some(n@),
            None => name_of(line@).is_none(),
        },
{
    let cs = chars_of(line);
    scan_name_chars(&cs)
}

fn scan_name_chars(cs: &Vec<char>) -> (r: Option<String>)
    ensures
        match r {
            Some(n) => name_of(cs@) == Some(n@),
            None => name_of(cs@).is_none(),
        },
{
    let (s0, e0) = first_word_span(cs);
    let id = chars_of("id");
    if !span_is(cs, s0, e0, &id) {
        return None;
    }
    let (s1, e1) = word_span_after(cs, e0);
    let name = chars_of("name");
    if !span_is(cs, s1, e1, &name) {
        return None;
    }
    let start = skip_spaces_at(cs, e1);
    let rest = span_of(cs, start, cs.len());
    Some(string_of(&rest))
}

/// Whether a line acknowledges the protocol (`uciok`).
pub fn protocol_ack(line: &str) -> (r: bool)
    ensures
        r == is_protocol_ack(line@),
{
    let cs = chars_of(line);
    protocol_ack_chars(&cs)
}

fn protocol_ack_chars(cs: &Vec<char>) -> (r: bool)
    ensures
        r == is_protocol_ack(cs@),
{
    let (s0, e0) = first_word_span(cs);
    let ack = chars_of("uciok");
    span_is(cs, s0, e0, &ack)
}

/// Whether a line acknowledges readiness (starts with `readyok`).
pub fn ready_ack(line: &str) -> (r: bool)
    ensures
        r == is_ready_ack(line@),
{
    let cs = chars_of(line);
    let key = chars_of("readyok");
    if cs.len() < 7 {
        return false;
    }
    proof {
        reveal_strlit("readyok");
    }
    span_is(&cs, 0, 7, &key)
}

/// The coordinate notation of each move.
pub open spec fn move_texts(moves: Seq<UciMove>) -> Seq<Seq<char>> {
    moves.map_values(|m: UciMove| uci_text(m))
}

/// The decimal rendering of each parameter.
pub open spec fn feature_texts(fs: Seq<i32>) -> Seq<Seq<char>> {
    fs.map_values(|v: i32| dec_int(v as int))
}

proof fn lemma_join_push(t: Seq<Seq<char>>, y: Seq<char>)
    ensures
        join_spaced(t.push(y)) == (if t.len() == 0 { y } else { join_spaced(t) + seq![' '] + y }),
{
    assert(t.push(y).drop_last() =~= t);
    if t.len() == 0 {
        assert(t.push(y).len() == 1);
    }
}

/// Renders a list of moves with one space between neighbours.
fn push_moves(out: &mut Vec<char>, moves: &Vec<UciMove>)
    requires
        forall|i: int| 0 <= i < moves@.len() ==> #[trigger] moves@[i].wf(),
    ensures
        final(out)@ == old(out)@ + join_spaced(move_texts(moves@)),
{
    let mut i: usize = 0;
    while i < moves.len()
        invariant
            i <= moves@.len(),
            forall|k: int| 0 <= k < moves@.len() ==> #[trigger] moves@[k].wf(),
            out@ == old(out)@ + join_spaced(move_texts(moves@.subrange(0, i as int))),
        decreases moves.len() - i,
    {
        if i > 0 {
            out.push(' ');
        }
        moves[i].push_text(out);
        proof {
            let t = move_texts(moves@.subrange(0, i as int));
            assert(moves@.subrange(0, i + 1) =~= moves@.subrange(0, i as int).push(moves@[i as int]));
            assert(move_texts(moves@.subrange(0, i + 1)) =~= t.push(uci_text(moves@[i as int])));
            lemma_join_push(t, uci_text(moves@[i as int]));
        }
        i += 1;
        assert(out@ =~= old(out)@ + join_spaced(move_texts(moves@.subrange(0, i as int))));
    }
    assert(moves@.subrange(0, moves@.len() as int) =~= moves@);
}

/// Renders parameters with one space between neighbours.
fn push_features(out: &mut Vec<char>, fs: &Vec<i32>)
    ensures
        final(out)@ == old(out)@ + join_spaced(feature_texts(fs@)),
{
    let mut i: usize = 0;
    while i < fs.len()
        invariant
            i <= fs@.len(),
            out@ == old(out)@ + join_spaced(feature_texts(fs@.subrange(0, i as int))),
        decreases fs.len() - i,
    {
        if i > 0 {
            out.push(' ');
        }
        push_signed(out, fs[i] as i64);
        proof {
            let t = feature_texts(fs@.subrange(0, i as int));
            assert(fs@.subrange(0, i + 1) =~= fs@.subrange(0, i as int).push(fs@[i as int]));
            assert(feature_texts(fs@.subrange(0, i + 1)) =~= t.push(dec_int(fs@[i as int] as int)));
            lemma_join_push(t, dec_int(fs@[i as int] as int));
        }
        i += 1;
        assert(out@ =~= old(out)@ + join_spaced(feature_texts(fs@.subrange(0, i as int))));
    }
    assert(fs@.subrange(0, fs@.len() as int) =~= fs@);
}

/// What a protocol session is: the engine's executable, the starting
/// position of its contest, and the lines written to the engine but not yet
/// sent.
pub ghost struct EngineView {
    pub path: Seq<char>,
    pub fen: Seq<char>,
    pub pending: Seq<Seq<char>>,
}

/// The protocol side of one session with an engine process. The caller owns
/// the process: it sends what `take_pending` hands out and feeds the lines it
/// reads to the `scan_*` functions.
pub struct Engine {
    path: String,
    fen: String,
    pending: Vec<String>,
}

impl View for Engine {
    type V = EngineView;

    closed spec fn view(&self) -> EngineView {
        EngineView {
            path: self.path@,
            fen: self.fen@,
            pending: self.pending@.map_values(|l: String| l@),
        }
    }
}

/// A line as a `String`.
fn line_of(v: &Vec<char>) -> (r: String)
    ensures
        r@ == v@,
{
    string_of(v)
}

impl Engine {
    /// A session with the engine at `path`, whose contest starts from `fen`.
    /// The handshake opens it: the protocol announcement, then the request
    /// for readiness.
    pub fn new(path: &str, fen: &str) -> (r: Engine)
        ensures
            r@.path == path@,
            r@.fen == fen@,
            r@.pending == seq!["uci"@, "isready"@],
    {
        let mut pending: Vec<String> = Vec::new();
        pending.push(String::from_str("uci"));
        pending.push(String::from_str("isready"));
        let r = Engine { path: String::from_str(path), fen: String::from_str(fen), pending };
        assert(r@.pending =~= seq!["uci"@, "isready"@]);
        r
    }

    /// The executable of the engine.
    pub fn path(&self) -> (r: &str)
        ensures
            r@ == self@.path,
    {
        self.path.as_str()
    }

    fn queue(&mut self, line: String)
        ensures
            final(self)@ == (EngineView { pending: old(self)@.pending.push(line@), ..old(self)@ }),
    {
        self.pending.push(line);
        assert(self@.pending =~= old(self)@.pending.push(line@));
    }

    /// Hands the engine a parameter vector; sent before the new game starts.
    pub fn send_features(&mut self, features: &FeatureVector<i32>)
        ensures
            final(self)@ == (EngineView {
                pending: old(self)@.pending.push(features_line(features.features@)),
                ..old(self)@
            }),
    {
        let mut out: Vec<char> = Vec::new();
        push_str(&mut out, "setoption name FeatureVector ");
        push_features(&mut out, &features.features);
        self.queue(line_of(&out));
    }

    /// Ends the handshake: the engine is told that a new game starts.
    pub fn begin_game(&mut self)
        ensures
            final(self)@ == (EngineView { pending: old(self)@.pending.push("ucinewgame"@), ..old(self)@ }),
    {
        self.queue(String::from_str("ucinewgame"));
    }

    /// Asks the engine for its move in `contest`: the position (the starting
    /// position and the moves played), then a search with both clocks.
    pub fn get_move(&mut self, contest: &Contest)
        requires
            contest@.wf(),
        ensures
            final(self)@ == (EngineView {
                pending: old(self)@.pending.push(position_line(old(self)@.fen, contest@.moves)).push(
                    go_line(contest@.clock, contest@.increment),
                ),
                ..old(self)@
            }),
    {
        let mut pos: Vec<char> = Vec::new();
        push_str(&mut pos, "position fen ");
        push_str(&mut pos, self.fen.as_str());
        push_str(&mut pos, " moves ");
        push_moves(&mut pos, contest.moves());
        self.queue(line_of(&pos));
        let clock = contest.clock();
        let inc = contest.increment();
        let mut go: Vec<char> = Vec::new();
        push_str(&mut go, "go wtime ");
        push_decimal(&mut go, clock.white);
        push_str(&mut go, " winc ");
        push_decimal(&mut go, inc);
        push_str(&mut go, " btime ");
        push_decimal(&mut go, clock.black);
        push_str(&mut go, " binc ");
        push_decimal(&mut go, inc);
        self.queue(line_of(&go));
    }

    /// Hands out the lines to send, oldest first, and forgets them.
    pub fn take_pending(&mut self) -> (r: Vec<String>)
        ensures
            r@.map_values(|l: String| l@) == old(self)@.pending,
            final(self)@ == (EngineView { pending: Seq::empty(), ..old(self)@ }),
    {
        let mut r: Vec<String> = Vec::new();
        std::mem::swap(&mut r, &mut self.pending);
        assert(self@.pending =~= Seq::<Seq<char>>::empty());
        r
    }

    /// The name an engine announced during the handshake: the first
    /// identification line before the protocol acknowledgment, read from the
    /// lines the engine wrote in order.
    pub fn get_name(lines: &Vec<String>) -> (r: Option<String>)
        ensures
            match r {
                Some(n) => announced_name(lines@.map_values(|l: String| l@)) == Some(n@),
                None => announced_name(lines@.map_values(|l: String| l@)).is_none(),
            },
    {
        let ghost all = lines@.map_values(|l: String| l@);
        let mut i: usize = 0;
        assert(all.subrange(0, all.len() as int) =~= all);
        while i < lines.len()
            invariant
                i <= lines@.len(),
                all == lines@.map_values(|l: String| l@),
                announced_name(all) == announced_name(all.subrange(i as int, all.len() as int)),
            decreases lines.len() - i,
        {
            let ghost rest = all.subrange(i as int, all.len() as int);
            assert(rest[0] == lines@[i as int]@);
            assert(rest.drop_first() =~= all.subrange(i + 1, all.len() as int));
            let cs = chars_of(lines[i].as_str());
            match scan_name_chars(&cs) {
                Some(n) => {
                    return Some(n);
                },
                None => {},
            }
            if protocol_ack_chars(&cs) {
                return None;
            }
            i += 1;
        }
        assert(all.subrange(i as int, all.len() as int).len() == 0);
        None
    }
}

/// One of the two competitors of a run.
#[derive(Clone, Debug)]
pub struct Player {
    /// The engine's executable.
    pub path: String,
    /// The name shown in reports.
    pub name: String,
}

impl Player {
    /// A competitor named by what its engine announced, or by its path when it
    /// announced nothing.
    pub fn new(path: &str, announced: Option<String>) -> (r: Player)
        ensures
            r.path@ == path@,
            r.name@ == (match announced {
                Some(n) => n@,
                None => path@,
            }),
    {
        let name = match announced {
            Some(n) => n,
            None => String::from_str(path),
        };
        Player { path: String::from_str(path), name }
    }
}

} // verus!
