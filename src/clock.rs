//! The pair of remaining time budgets of one contest, in milliseconds.
use vstd::prelude::*;
use crate::outcome::Side;

verus! {

/// Remaining thinking time of each side, in milliseconds.
#[derive(Clone, Copy, Debug, PartialEq, Eq, Structural)]
pub struct Clock {
    pub white: u64,
    pub black: u64,
}

/// What is left after a move that took `used` ms from `remaining`, with the
/// increment `inc` added (the sum saturates at `u64::MAX`); `None` when the
/// budget would go below zero, which is a forfeit.
pub open spec fn charged(remaining: u64, inc: u64, used: u64) -> Option<u64> {
    let total = if remaining + inc > u64::MAX { u64::MAX as int } else { remaining + inc };
    if total >= used {
        Some((total - used) as u64)
    } else {
        None
    }
}

/// Charges a move of `used` ms against `remaining`, adding `inc`.
pub fn charge(remaining: u64, inc: u64, used: u64) -> (r: Option<u64>)
    ensures
        r == charged(remaining, inc, used),
{
    let total = remaining.saturating_add(inc);
    if total >= used {
        Some(total - used)
    } else {
        None
    }
}

impl Clock {
    pub open spec fn time_of(self, s: Side) -> u64 {
        match s {
            Side::White => self.white,
            Side::Black => self.black,
        }
    }

    pub open spec fn with_time(self, s: Side, t: u64) -> Clock {
        match s {
            Side::White => Clock { white: t, ..self },
            Side::Black => Clock { black: t, ..self },
        }
    }

    /// Both sides start with `time` ms.
    pub fn new(time: u64) -> (r: Clock)
        ensures
            r.white == time,
            r.black == time,
    {
        Clock { white: time, black: time }
    }

    /// The time left to side `s`.
    pub fn remaining(&self, s: Side) -> (r: u64)
        ensures
            r == self.time_of(s),
    {
        match s {
            Side::White => self.white,
            Side::Black => self.black,
        }
    }

    /// Sets the time left to side `s`.
    pub fn set(&mut self, s: Side, t: u64)
        ensures
            *final(self) == old(self).with_time(s, t),
    {
        match s {
            Side::White => self.white = t,
            Side::Black => self.black = t,
        }
    }
}

} // verus!
