use vstd::prelude::*;

verus! {

/// A point in time: the whole seconds since 1970-01-01 00:00:00 UTC, and the
/// nanoseconds into that second.
#[derive(Clone, Copy, Debug, PartialEq, Eq, Structural)]
pub struct Timestamp {
    pub secs: i64,
    pub nanos: u32,
}

pub const SECONDS_PER_MINUTE: i64 = 60;

pub const SECONDS_PER_DAY: i64 = 86_400;

/// The number of the day 1970-01-01, where 1 January of the year 1 is day 1.
pub const EPOCH_DAY: i64 = 719_163;

/// The shortest time an order takes, in minutes.
pub const SHORTEST_WAIT: i64 = 5;

/// The longest time an order takes, in minutes.
pub const LONGEST_WAIT: i64 = 14;

/// The minutes an order takes, drawn from a random number: the number's
/// remainder modulo ten, which is never negative, on top of the shortest wait.
pub open spec fn wait_minutes(random: int) -> int {
    SHORTEST_WAIT + random % 10
}

impl Timestamp {
    /// The day of this time has a number that fits 32 bits, as the day of
    /// every time that the clock shows has.
    pub open spec fn on_calendar(self) -> bool {
        (self.secs as int) / (SECONDS_PER_DAY as int) + EPOCH_DAY <= i32::MAX
    }

    /// The time `minutes` whole minutes after this one, where the seconds
    /// of that time fit 64 bits.
    pub open spec fn plus_minutes(self, minutes: int) -> Timestamp {
        Timestamp { secs: (self.secs + SECONDS_PER_MINUTE * minutes) as i64, nanos: self.nanos }
    }

    /// This time is not later than `other`.
    pub open spec fn at_or_before(self, other: Timestamp) -> bool {
        self.secs < other.secs || (self.secs == other.secs && self.nanos <= other.nanos)
    }

    /// This time is a time at which an order placed at `placed` can be ready:
    /// not before the shortest wait is over, and not after the longest.
    pub open spec fn in_ready_window(self, placed: Timestamp) -> bool {
        &&& placed.plus_minutes(SHORTEST_WAIT as int).at_or_before(self)
        &&& self.at_or_before(placed.plus_minutes(LONGEST_WAIT as int))
    }
}

/// Reads the system clock with `chrono::Utc::now` and returns the reading as
/// seconds and nanoseconds since the epoch. The contract claims one thing of
/// every reading: the number of its day fits 32 bits, which `chrono` checks
/// before it hands out a time. The call aborts where the system clock shows a
/// time before the epoch.
#[verifier::external_body]
pub(crate) fn current_time() -> (now: Timestamp)
    ensures
        now.on_calendar(),
{
    let now = chrono::Utc::now();
    Timestamp { secs: now.timestamp(), nanos: now.timestamp_subsec_nanos() }
}

/// Computes the minutes an order takes from a random number: from 5 to 14.
pub fn ready_offset_minutes(random: i64) -> (minutes: i64)
    ensures
        minutes == wait_minutes(random as int),
        SHORTEST_WAIT <= minutes <= LONGEST_WAIT,
{
    let remainder: i64 = random % 10;
    if remainder < 0 {
        SHORTEST_WAIT + (remainder + 10)
    } else {
        SHORTEST_WAIT + remainder
    }
}

/// Computes the time at which an order placed at `now` is ready: `now` plus
/// the minutes drawn from `random`, so at least 5 and at most 14 minutes
/// later.
pub fn ready_at(now: Timestamp, random: i64) -> (ready: Timestamp)
    requires
        now.secs + SECONDS_PER_MINUTE * LONGEST_WAIT <= i64::MAX,
    ensures
        ready == now.plus_minutes(wait_minutes(random as int)),
        ready.secs == now.secs + SECONDS_PER_MINUTE * wait_minutes(random as int),
        ready.in_ready_window(now),
        !ready.at_or_before(now),
{
    let minutes: i64 = ready_offset_minutes(random);
    Timestamp { secs: now.secs + SECONDS_PER_MINUTE * minutes, nanos: now.nanos }
}

} // verus!
