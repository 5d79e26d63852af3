use uci_ab_test::clock::{charge, Clock};
use uci_ab_test::contest::{Contest, IllegalMove, Policy};
use uci_ab_test::outcome::{flip, GameEnd, Outcome, Side};
use uci_ab_test::scheduler::{schedule, Pairing, Scheduler, Tally};
use uci_ab_test::uci_move::{move_from_uci, UciMove};

const START: &str = "rnbqkbnr/pppppppp/8/8/8/8/PPPPPPPP/RNBQKBNR w KQkq - 0 1";
const SICILIAN: &str = "rnbqkbnr/pp1ppppp/8/2p5/4P3/8/PPPP1PPP/RNBQKBNR w KQkq c6 0 2";

fn policy(illegal_move_forfeits: bool) -> Policy {
    Policy { illegal_move_forfeits, claim_draws: true }
}

fn mv(s: &str) -> Option<UciMove> {
    Some(move_from_uci(s))
}

#[test]
fn charging_the_clock() {
    assert_eq!(charge(1000, 100, 1050), Some(50));
    assert_eq!(charge(1000, 100, 1100), Some(0));
    assert_eq!(charge(1000, 100, 1101), None);
    assert_eq!(charge(0, 0, 0), Some(0));
    assert_eq!(charge(u64::MAX, 5, 10), Some(u64::MAX - 10));
}

#[test]
fn unreadable_position_is_refused() {
    assert!(Contest::new("not a position", 1000, 0, true, policy(true)).is_none());
    assert!(Contest::new(START, 1000, 0, true, policy(true)).is_some());
    // No king for the side to move: refused before the rules library sees it.
    assert!(Contest::new("8/8/8/8/8/8/8/8 w - - 0 1", 1000, 0, true, policy(true)).is_none());
    assert!(Contest::new("4k3/8/8/8/8/8/8/8 w - - 0 1", 1000, 0, true, policy(true)).is_none());
    // Seven ranks, or a rank of nine squares.
    assert!(Contest::new("4k3/8/8/8/8/8/4K3 w - - 0 1", 1000, 0, true, policy(true)).is_none());
    assert!(Contest::new("4k4/8/8/8/8/8/8/4K3 w - - 0 1", 1000, 0, true, policy(true)).is_none());
    // Full board and king, but the rules library refuses it (no black king).
    assert!(Contest::new("8/8/8/8/8/8/8/4K3 w - - 0 1", 1000, 0, true, policy(true)).is_none());
    assert!(Contest::new("4k3/8/8/8/8/8/8/4K3 x - - 0 1", 1000, 0, true, policy(true)).is_none());
    let c = Contest::new("4k3/8/8/8/8/8/8/4K3 b - - 0 1", 1000, 0, true, policy(true)).unwrap();
    assert_eq!(c.side_to_move(), Side::Black);
    assert_eq!(c.start(), "4k3/8/8/8/8/8/8/4K3 b - - 0 1");
}

#[test]
fn finished_position_starts_decided() {
    // Black to move is stalemated.
    let c = Contest::new("7k/5Q2/6K1/8/8/8/8/8 b - - 0 1", 1000, 0, true, policy(true)).unwrap();
    assert!(c.is_over());
    assert_eq!(c.end(), Some(GameEnd::Draw));
    // Black to move is mated.
    let m = Contest::new("7k/6Q1/6K1/8/8/8/8/8 b - - 0 1", 1000, 0, false, policy(true)).unwrap();
    assert_eq!(m.end(), Some(GameEnd::Decisive { winner: Side::White }));
    assert_eq!(m.outcome(), Some(Outcome::DecisiveB));
}

#[test]
fn draws_are_left_unclaimed_when_the_policy_says_so() {
    let p = Policy { illegal_move_forfeits: true, claim_draws: false };
    let mut c = Contest::new(START, 10_000, 0, true, p).unwrap();
    for m in ["g1f3", "g8f6", "f3g1", "f6g8", "g1f3", "g8f6", "f3g1", "f6g8"] {
        c.apply_reply(mv(m), 1).unwrap();
    }
    assert!(!c.is_over());
    assert_eq!(c.moves().len(), 8);
}

#[test]
fn legal_move_is_played_and_charged() {
    let mut c = Contest::new(START, 1000, 10, true, policy(true)).unwrap();
    assert_eq!(c.side_to_move(), Side::White);
    assert!(c.mover_is_a());
    assert_eq!(c.time_budget(), 1010);
    assert_eq!(c.apply_reply(mv("g1f3"), 300), Ok(()));
    assert_eq!(c.moves().len(), 1);
    assert_eq!(c.clock(), Clock { white: 710, black: 1000 });
    assert_eq!(c.side_to_move(), Side::Black);
    assert!(!c.mover_is_a());
    assert!(!c.is_over());
    assert_eq!(c.outcome(), None);
}

#[test]
fn no_reply_forfeits_the_mover() {
    let mut c = Contest::new(START, 1000, 10, false, policy(true)).unwrap();
    assert_eq!(c.apply_reply(None, 1010), Ok(()));
    assert_eq!(c.end(), Some(GameEnd::Forfeit { loser: Side::White }));
    // A played Black, so White's forfeit is B's.
    assert_eq!(c.outcome(), Some(Outcome::ForfeitB));
    assert_eq!(c.clock(), Clock { white: 1000, black: 1000 });
}

#[test]
fn overrunning_the_clock_forfeits_before_the_move() {
    let mut c = Contest::new(START, 1000, 10, true, policy(true)).unwrap();
    assert_eq!(c.apply_reply(mv("e2e4"), 1011), Ok(()));
    assert_eq!(c.end(), Some(GameEnd::Forfeit { loser: Side::White }));
    assert_eq!(c.outcome(), Some(Outcome::ForfeitA));
    assert!(c.moves().is_empty());
    assert_eq!(c.clock(), Clock { white: 1000, black: 1000 });
}

#[test]
fn illegal_move_follows_the_policy() {
    let mut c = Contest::new(START, 1000, 0, true, policy(true)).unwrap();
    assert_eq!(c.apply_reply(mv("e2e5"), 1), Ok(()));
    assert_eq!(c.outcome(), Some(Outcome::ForfeitA));

    let mut strict = Contest::new(START, 1000, 0, true, policy(false)).unwrap();
    let e2e5 = move_from_uci("e2e5");
    assert_eq!(strict.apply_reply(Some(e2e5), 1), Err(IllegalMove { proposed: e2e5 }));
    assert!(!strict.is_over());
    assert!(strict.moves().is_empty());
    assert_eq!(strict.clock(), Clock { white: 1000, black: 1000 });
}

#[test]
fn checkmate_decides_the_contest() {
    let mut c = Contest::new(START, 10_000, 0, true, policy(true)).unwrap();
    for m in ["f2f3", "e7e5", "g2g4", "d8h4"] {
        assert!(!c.is_over());
        c.apply_reply(mv(m), 1).unwrap();
    }
    assert_eq!(c.end(), Some(GameEnd::Decisive { winner: Side::Black }));
    assert_eq!(c.outcome(), Some(Outcome::DecisiveB));
    assert_eq!(c.outcome().unwrap().half_points(), (0, 2));
}

#[test]
fn repetition_is_claimed_as_a_draw() {
    let mut c = Contest::new(START, 10_000, 0, true, policy(true)).unwrap();
    for m in ["g1f3", "g8f6", "f3g1", "f6g8", "g1f3", "g8f6", "f3g1", "f6g8"] {
        assert!(!c.is_over());
        c.apply_reply(mv(m), 1).unwrap();
    }
    assert_eq!(c.end(), Some(GameEnd::Draw));
    assert_eq!(c.outcome(), Some(Outcome::Draw));
}

#[test]
fn side_to_move_comes_from_the_position() {
    let mut c = Contest::new(SICILIAN, 500, 0, false, policy(true)).unwrap();
    assert_eq!(c.side_to_move(), Side::White);
    assert!(!c.mover_is_a());
    c.apply_reply(mv("g1f3"), 1).unwrap();
    assert_eq!(c.side_to_move(), Side::Black);
    assert!(c.mover_is_a());
}

#[test]
fn outcomes_map_to_buckets_and_scores() {
    let white_wins = GameEnd::Decisive { winner: Side::White };
    assert_eq!(white_wins.resolve(true), Outcome::DecisiveA);
    assert_eq!(white_wins.resolve(false), Outcome::DecisiveB);
    assert_eq!(white_wins.tally_index(true), 0);
    assert_eq!(white_wins.tally_index(false), 2);
    let black_flagged = GameEnd::Forfeit { loser: Side::Black };
    assert_eq!(black_flagged.resolve(true), Outcome::ForfeitB);
    assert_eq!(black_flagged.tally_index(true), 0);
    assert_eq!(black_flagged.tally_index(false), 2);
    assert_eq!(GameEnd::Draw.tally_index(false), 1);
    assert_eq!(Outcome::ForfeitA.tally_index(), 2);
    assert_eq!(Outcome::Draw.half_points(), (1, 1));
    assert_eq!(Outcome::ForfeitB.half_points(), (2, 0));
    assert_eq!(flip(0, true, 2), 2);
    assert_eq!(flip(1, true, 2), 1);
    assert_eq!(flip(2, false, 2), 2);
}

#[test]
fn admission_never_exceeds_the_limit() {
    let mut s = Scheduler::new(2);
    assert!(s.try_admit());
    assert!(s.try_admit());
    assert!(!s.try_admit());
    assert_eq!(s.in_flight(), 2);
    s.complete(Outcome::DecisiveA);
    assert_eq!(s.in_flight(), 1);
    assert!(s.try_admit());
    assert!(!s.try_admit());
    s.complete(Outcome::Draw);
    s.complete(Outcome::ForfeitA);
    assert!(s.is_quiescent());
    assert_eq!(s.submitted(), 3);
    assert_eq!(s.tally(), Tally { a_wins: 1, draws: 1, b_wins: 1 });
    assert_eq!(s.tally().counts(), [1, 1, 1]);
}

#[test]
fn zero_limit_admits_nothing() {
    let mut s = Scheduler::new(0);
    assert!(!s.try_admit());
    assert_eq!(s.jobs(), 0);
    assert!(s.is_quiescent());
}

#[test]
fn both_directions_pairs_each_position_twice() {
    let p = schedule(3, true);
    assert_eq!(p.len(), 6);
    assert_eq!(p.iter().filter(|x| x.a_white).count(), 3);
    assert_eq!(p[0], Pairing { position: 0, a_white: true });
    assert_eq!(p[1], Pairing { position: 0, a_white: false });
    assert_eq!(p[5], Pairing { position: 2, a_white: false });
    let one_way = schedule(3, false);
    assert_eq!(one_way.len(), 3);
    assert!(one_way.iter().all(|x| x.a_white));
    assert!(schedule(0, true).is_empty());
}

/// Plays every contest of a run with scripted engines: `reply` gives the
/// answer of the engine to move, or `None` for silence.
fn run(
    positions: &[&str],
    jobs: usize,
    time: u64,
    reply: &dyn Fn(&Contest) -> Option<UciMove>,
) -> (Scheduler, usize) {
    let pairings = schedule(positions.len(), true);
    let mut s = Scheduler::new(jobs);
    for p in pairings.iter() {
        assert!(s.try_admit());
        assert!(s.in_flight() <= jobs);
        let mut c = Contest::new(positions[p.position], time, 0, p.a_white, policy(true)).unwrap();
        while !c.is_over() {
            let budget = c.time_budget();
            let answer = reply(&c);
            let used = if answer.is_some() { 1 } else { budget };
            c.apply_reply(answer, used).unwrap();
            assert!(c.clock().white <= time && c.clock().black <= time);
        }
        s.complete(c.outcome().unwrap());
    }
    (s, pairings.len())
}

#[test]
fn fixed_reply_engines_finish_every_contest() {
    let fixed = |_: &Contest| Some(move_from_uci("e2e4"));
    let (s, n) = run(&[START, START], 1, u64::MAX / 2, &fixed);
    assert_eq!(n, 4);
    assert!(s.is_quiescent());
    let t = s.tally();
    assert_eq!(t.a_wins + t.draws + t.b_wins, 4);
    // White plays e2e4, then Black repeats it illegally and forfeits.
    assert_eq!(t, Tally { a_wins: 2, draws: 0, b_wins: 2 });
}

#[test]
fn silent_engine_forfeits_within_its_budget() {
    let silent_b = |c: &Contest| if c.mover_is_a() { Some(move_from_uci("g1f3")) } else { None };
    let (s, n) = run(&[START], 1, 1000, &silent_b);
    assert_eq!(n, 2);
    assert_eq!(s.tally(), Tally { a_wins: 2, draws: 0, b_wins: 0 });

    let mut c = Contest::new(START, 1000, 25, true, policy(true)).unwrap();
    assert_eq!(c.time_budget(), 1025);
    c.apply_reply(None, 1025).unwrap();
    assert_eq!(c.outcome(), Some(Outcome::ForfeitA));
}
