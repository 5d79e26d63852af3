//! Admission of contests into a bounded pool, the pairing of competitors and
//! colours over the starting positions, and the tally of finished contests.
use vstd::prelude::*;
use crate::outcome::{bucket, Outcome};

verus! {

/// Finished contests by result: A won, drawn, B won.
#[derive(Clone, Copy, Debug, PartialEq, Eq, Structural)]
pub struct Tally {
    pub a_wins: u64,
    pub draws: u64,
    pub b_wins: u64,
}

impl Tally {
    pub open spec fn total(self) -> int {
        self.a_wins + self.draws + self.b_wins
    }

    /// The tally after one more contest with outcome `o`.
    pub open spec fn counted(self, o: Outcome) -> Tally {
        if bucket(o) == 0 {
            Tally { a_wins: (self.a_wins + 1) as u64, ..self }
        } else if bucket(o) == 1 {
            Tally { draws: (self.draws + 1) as u64, ..self }
        } else {
            Tally { b_wins: (self.b_wins + 1) as u64, ..self }
        }
    }

    /// No contest counted yet.
    pub fn new() -> (r: Tally)
        ensures
            r == (Tally { a_wins: 0, draws: 0, b_wins: 0 }),
    {
        Tally { a_wins: 0, draws: 0, b_wins: 0 }
    }

    /// The three counts in bucket order: A won, drawn, B won.
    pub fn counts(&self) -> (r: [u64; 3])
        ensures
            r@ == seq![self.a_wins, self.draws, self.b_wins],
    {
        let r = [self.a_wins, self.draws, self.b_wins];
        assert(r@ =~= seq![self.a_wins, self.draws, self.b_wins]);
        r
    }
}

/// The admission state of a run: at most `jobs` contests at once, and the
/// tally of those that finished.
pub struct Scheduler {
    jobs: usize,
    in_flight: usize,
    submitted: u64,
    tally: Tally,
}

pub ghost struct SchedulerView {
    pub jobs: nat,
    pub in_flight: nat,
    pub submitted: nat,
    pub tally: Tally,
}

impl View for Scheduler {
    type V = SchedulerView;

    closed spec fn view(&self) -> SchedulerView {
        SchedulerView {
            jobs: self.jobs as nat,
            in_flight: self.in_flight as nat,
            submitted: self.submitted as nat,
            tally: self.tally,
        }
    }
}

impl SchedulerView {
    /// Never more contests running than the limit, and every admitted contest
    /// is either running or counted exactly once.
    pub open spec fn wf(self) -> bool {
        &&& self.in_flight <= self.jobs
        &&& self.tally.total() + self.in_flight == self.submitted
        &&& self.submitted <= u64::MAX
    }
}

impl Scheduler {
    /// An idle scheduler that runs at most `jobs` contests at once.
    pub fn new(jobs: usize) -> (r: Scheduler)
        ensures
            r@.wf(),
            r@ == (SchedulerView { jobs: jobs as nat, in_flight: 0, submitted: 0, tally: Tally { a_wins: 0, draws: 0, b_wins: 0 } }),
    {
        Scheduler { jobs, in_flight: 0, submitted: 0, tally: Tally::new() }
    }

    /// Admits one more contest when a slot is free (and the count of admitted
    /// contests can still grow); says whether it did.
    pub fn try_admit(&mut self) -> (r: bool)
        requires
            old(self)@.wf(),
        ensures
            final(self)@.wf(),
            r == (old(self)@.in_flight < old(self)@.jobs && old(self)@.submitted < u64::MAX),
            r ==> final(self)@ == (SchedulerView {
                in_flight: old(self)@.in_flight + 1,
                submitted: old(self)@.submitted + 1,
                ..old(self)@
            }),
            !r ==> final(self)@ == old(self)@,
    {
        if self.in_flight < self.jobs && self.submitted < u64::MAX {
            self.in_flight = self.in_flight + 1;
            self.submitted = self.submitted + 1;
            true
        } else {
            false
        }
    }

    /// A running contest finished with outcome `o`: its bucket is counted and
    /// its slot is freed.
    pub fn complete(&mut self, o: Outcome)
        requires
            old(self)@.wf(),
            old(self)@.in_flight > 0,
        ensures
            final(self)@.wf(),
            final(self)@ == (SchedulerView {
                in_flight: (old(self)@.in_flight - 1) as nat,
                tally: old(self)@.tally.counted(o),
                ..old(self)@
            }),
    {
        let b = o.tally_index();
        if b == 0 {
            self.tally.a_wins = self.tally.a_wins + 1;
        } else if b == 1 {
            self.tally.draws = self.tally.draws + 1;
        } else {
            self.tally.b_wins = self.tally.b_wins + 1;
        }
        self.in_flight = self.in_flight - 1;
    }

    /// The number of contests running.
    pub fn in_flight(&self) -> (r: usize)
        ensures
            r as nat == self@.in_flight,
    {
        self.in_flight
    }

    /// The number of contests admitted so far.
    pub fn submitted(&self) -> (r: u64)
        ensures
            r as nat == self@.submitted,
    {
        self.submitted
    }

    /// The limit on running contests.
    pub fn jobs(&self) -> (r: usize)
        ensures
            r as nat == self@.jobs,
    {
        self.jobs
    }

    /// Whether every admitted contest has finished.
    pub fn is_quiescent(&self) -> (r: bool)
        ensures
            r == (self@.in_flight == 0),
    {
        self.in_flight == 0
    }

    /// The tally of the finished contests.
    pub fn tally(&self) -> (r: Tally)
        ensures
            r == self@.tally,
    {
        self.tally
    }
}

/// At every state the scheduler can reach, no more contests run than the
/// limit allows; once it is quiescent the tally counts exactly the admitted
/// contests.
pub proof fn lemma_scheduler_bounds(s: SchedulerView)
    requires
        s.wf(),
    ensures
        s.in_flight <= s.jobs,
        s.in_flight == 0 ==> s.tally.total() == s.submitted,
{
}

/// One contest of a run: a starting position and the colour of competitor A.
#[derive(Clone, Copy, Debug, PartialEq, Eq, Structural)]
pub struct Pairing {
    pub position: usize,
    pub a_white: bool,
}

/// The contests of a run over `n` positions, in submission order: for each
/// position, A with White, then (both directions) A with Black.
pub open spec fn schedule_of(n: nat, both_directions: bool) -> Seq<Pairing> {
    if both_directions {
        Seq::new(2 * n, |j: int| Pairing { position: (j / 2) as usize, a_white: j % 2 == 0 })
    } else {
        Seq::new(n, |j: int| Pairing { position: j as usize, a_white: true })
    }
}

/// The contests of a run over `positions` starting positions.
pub fn schedule(positions: usize, both_directions: bool) -> (r: Vec<Pairing>)
    ensures
        r@ == schedule_of(positions as nat, both_directions),
{
    let mut r: Vec<Pairing> = Vec::new();
    let mut i: usize = 0;
    let ghost per: int = if both_directions { 2 } else { 1 };
    while i < positions
        invariant
            i <= positions,
            per == (if both_directions { 2int } else { 1int }),
            r@.len() == per * i,
            forall|j: int| 0 <= j < r@.len() ==> #[trigger] r@[j] == schedule_of(positions as nat, both_directions)[j],
        decreases positions - i,
    {
        r.push(Pairing { position: i, a_white: true });
        if both_directions {
            r.push(Pairing { position: i, a_white: false });
        }
        i += 1;
    }
    assert(r@ =~= schedule_of(positions as nat, both_directions));
    r
}

/// The number of contests in `s` where A plays White.
pub open spec fn count_a_white(s: Seq<Pairing>) -> nat
    decreases s.len(),
{
    if s.len() == 0 {
        0
    } else {
        count_a_white(s.drop_last()) + if s.last().a_white { 1nat } else { 0nat }
    }
}

/// Scheduling `n` positions in both directions gives `2n` contests, A with
/// White in exactly `n` of them and with Black in the other `n`, each
/// position once with each colour.
pub proof fn lemma_colour_symmetry(n: nat)
    ensures
        schedule_of(n, true).len() == 2 * n,
        count_a_white(schedule_of(n, true)) == n,
        forall|p: int| 0 <= p < n ==> (#[trigger] schedule_of(n, true)[2 * p]) == (Pairing { position: p as usize, a_white: true })
            && schedule_of(n, true)[2 * p + 1] == (Pairing { position: p as usize, a_white: false }),
    decreases n,
{
    if n > 0 {
        lemma_colour_symmetry((n - 1) as nat);
        let s = schedule_of(n, true);
        let t = schedule_of((n - 1) as nat, true);
        assert(s.drop_last().drop_last() =~= t);
        assert(s.drop_last().last().a_white);
        assert(!s.last().a_white);
        assert(count_a_white(s) == count_a_white(s.drop_last()));
        assert(count_a_white(s.drop_last()) == count_a_white(t) + 1);
    }
    assert forall|p: int| 0 <= p < n implies (#[trigger] schedule_of(n, true)[2 * p]) == (Pairing { position: p as usize, a_white: true })
        && schedule_of(n, true)[2 * p + 1] == (Pairing { position: p as usize, a_white: false }) by {
        assert((2 * p) / 2 == p);
        assert((2 * p + 1) / 2 == p);
        assert((2 * p) % 2 == 0);
        assert((2 * p + 1) % 2 == 1);
    }
}

} // verus!
