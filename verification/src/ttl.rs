//! Time-to-live values: their unit, what a value asks for, and the due-time
//! it leads to.

use crate::command::CommandError;
use vstd::prelude::*;
use vstd::string::StrSliceExecFns;

verus! {

/// The unit in which a time-to-live is given.
#[derive(Clone, Copy, Debug, PartialEq, Eq, Structural)]
pub enum TimeUnit {
    Seconds,
    Milliseconds,
}

/// What a time-to-live value asks for.
#[derive(Clone, Copy, Debug, PartialEq, Eq, Structural)]
pub enum Request {
    /// A negative value: end the member's expiration.
    Cancel,
    /// Zero: remove the member at once.
    ExpireNow,
    /// A positive value: remove the member once that much time has passed.
    Schedule,
}

/// `c` is the ASCII letter `lower`, in either case.
pub open spec fn is_letter(c: char, lower: char, upper: char) -> bool {
    c == lower || c == upper
}

/// The unit that a text names: `s` for seconds and `ms` for milliseconds,
/// in either case of each letter; no other text names a unit.
pub open spec fn unit_named(text: Seq<char>) -> Option<TimeUnit> {
    if text.len() == 1 && is_letter(text[0], 's', 'S') {
        Some(TimeUnit::Seconds)
    } else if text.len() == 2 && is_letter(text[0], 'm', 'M') && is_letter(text[1], 's', 'S') {
        Some(TimeUnit::Milliseconds)
    } else {
        None
    }
}

/// The unit of a request: the one that the text names, seconds where no
/// text is given, and a refusal where the text names none.
pub open spec fn unit_of(given: Option<Seq<char>>) -> Result<TimeUnit, CommandError> {
    match given {
        None => Ok(TimeUnit::Seconds),
        Some(text) => match unit_named(text) {
            Some(unit) => Ok(unit),
            None => Err(CommandError::InvalidUnit),
        },
    }
}

/// What the value `ttl` asks for.
pub open spec fn request_of(ttl: i64) -> Request {
    if ttl < 0 {
        Request::Cancel
    } else if ttl == 0 {
        Request::ExpireNow
    } else {
        Request::Schedule
    }
}

/// The instant, in milliseconds, at which a member scheduled at `now` with
/// the time-to-live `ttl` comes due.
pub open spec fn due_at(now: u64, ttl: i64, unit: TimeUnit) -> int {
    now + ttl * unit.millis()
}

impl TimeUnit {
    /// The number of milliseconds in one unit.
    pub open spec fn millis(self) -> int {
        match self {
            TimeUnit::Seconds => 1000,
            TimeUnit::Milliseconds => 1,
        }
    }

    /// Reads a unit from its name; `None` if the text names no unit.
    pub fn parse(text: &str) -> (unit: Option<TimeUnit>)
        ensures
            unit == unit_named(text@),
    {
        let n: usize = text.unicode_len();
        if n == 1 {
            let c = text.get_char(0);
            if c == 's' || c == 'S' {
                return Some(TimeUnit::Seconds);
            }
            None
        } else if n == 2 {
            let c = text.get_char(0);
            let d = text.get_char(1);
            if (c == 'm' || c == 'M') && (d == 's' || d == 'S') {
                return Some(TimeUnit::Milliseconds);
            }
            None
        } else {
            None
        }
    }
}

/// Settles the unit of a request from the argument that may name it.
pub fn unit_from(given: Option<&str>) -> (unit: Result<TimeUnit, CommandError>)
    ensures
        given is None ==> unit == unit_of(None),
        given is Some ==> unit == unit_of(Some(given->Some_0@)),
{
    match given {
        None => Ok(TimeUnit::Seconds),
        Some(text) => match TimeUnit::parse(text) {
            Some(unit) => Ok(unit),
            None => Err(CommandError::InvalidUnit),
        },
    }
}

impl Request {
    /// Tells what a time-to-live value asks for.
    pub fn of(ttl: i64) -> (request: Request)
        ensures
            request == request_of(ttl),
    {
        if ttl < 0 {
            Request::Cancel
        } else if ttl == 0 {
            Request::ExpireNow
        } else {
            Request::Schedule
        }
    }
}

/// Computes the due-time of a member scheduled at `now`. The result is wide
/// enough for every instant and every positive time-to-live, so nothing is
/// cut off: a due-time beyond the clock's range simply never comes.
pub fn due_time(now: u64, ttl: i64, unit: TimeUnit) -> (due: u128)
    requires
        ttl > 0,
    ensures
        due == due_at(now, ttl, unit),
{
    let span: u128 = ttl as u128;
    let factor: u128 = match unit {
        TimeUnit::Seconds => 1000,
        TimeUnit::Milliseconds => 1,
    };
    assert(span * factor <= 0x7fff_ffff_ffff_ffff * 1000) by (nonlinear_arith)
        requires
            0 < span <= 0x7fff_ffff_ffff_ffff,
            factor == 1 || factor == 1000,
    ;
    now as u128 + span * factor
}

} // verus!
