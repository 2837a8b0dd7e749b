//! The wait for the start time of a job.
//!
//! The clock is the caller's: this module reads the start time, and says for
//! a given distance to it what the caller does.

use vstd::prelude::*;
use vstd::string::StringExecFns;
use crate::engine::{error_line, info_line, warn_line, LogLine};
use crate::text::{decimal_u64, digits_of, parse_u32, parsed_u32, split_on_char, split_seq};

verus! {

/// A time of day as a job names it: hours, minutes and seconds.
#[derive(Debug, Clone, Copy, PartialEq, Eq, Structural)]
pub struct ClockTime {
    pub hour: u32,
    pub minute: u32,
    pub second: u32,
}

/// The number that a part of a time stands for; zero where it is no number.
pub open spec fn part_value(part: Seq<char>) -> u32 {
    match parsed_u32(part) {
        Some(n) => n,
        None => 0,
    }
}

/// The time of day that a text of the form `H:M:S` names: none where the
/// text has fewer than three parts.
pub open spec fn start_time_of(text: Seq<char>) -> Option<ClockTime> {
    let parts = split_seq(text, ':');
    if parts.len() < 3 {
        None
    } else {
        Some(
            ClockTime {
                hour: part_value(parts[0]),
                minute: part_value(parts[1]),
                second: part_value(parts[2]),
            },
        )
    }
}

/// Reads a start time of the form `H:M:S`. A part that is no number counts as zero.
pub fn parse_start_time(text: &str) -> (r: Option<ClockTime>)
    ensures
        r == start_time_of(text@),
{
    let parts = split_on_char(text, ':');
    if parts.len() < 3 {
        return None;
    }
    assert(parts.deep_view()[0] == parts[0]@);
    assert(parts.deep_view()[1] == parts[1]@);
    assert(parts.deep_view()[2] == parts[2]@);
    let hour = match parse_u32(parts[0].as_str()) {
        Some(n) => n,
        None => 0,
    };
    let minute = match parse_u32(parts[1].as_str()) {
        Some(n) => n,
        None => 0,
    };
    let second = match parse_u32(parts[2].as_str()) {
        Some(n) => n,
        None => 0,
    };
    Some(ClockTime { hour, minute, second })
}

impl ClockTime {
    /// Whether there is such a time of day.
    pub fn is_valid(&self) -> (r: bool)
        ensures
            r == (self.hour < 24 && self.minute < 60 && self.second < 60),
    {
        self.hour < 24 && self.minute < 60 && self.second < 60
    }
}

/// The line that reports a start time that cannot be read.
pub fn invalid_time_line(text: &str) -> (r: LogLine)
    ensures
        r@ == error_line("invalid time format: "@ + text@),
{
    let mut m = String::from_str("invalid time format: ");
    m.append(text);
    LogLine { level: String::from_str("error"), message: m }
}

/// The digits of a number below a thousand, three of them.
pub open spec fn three_digits(n: nat) -> Seq<char> {
    if n < 10 {
        "00"@ + digits_of(n)
    } else if n < 100 {
        "0"@ + digits_of(n)
    } else {
        digits_of(n)
    }
}

/// A number of milliseconds as seconds with three decimals.
pub open spec fn seconds_text(ms: int) -> Seq<char> {
    let magnitude = if ms < 0 {
        -ms
    } else {
        ms
    };
    (if ms < 0 {
        "-"@
    } else {
        Seq::empty()
    }) + digits_of((magnitude / 1000) as nat) + "."@ + three_digits((magnitude % 1000) as nat)
}

/// The line that reports by how much the server's clock is ahead of the local one.
pub fn offset_line(offset_ms: i64) -> (r: LogLine)
    ensures
        r@ == info_line("time offset "@ + seconds_text(offset_ms as int) + "s"@),
{
    let magnitude: u64 = if offset_ms < 0 {
        ((-(offset_ms + 1)) as u64) + 1
    } else {
        offset_ms as u64
    };
    let mut m = String::from_str("time offset ");
    if offset_ms < 0 {
        m.append("-");
    }
    proof {
        assert(m@ =~= "time offset "@ + (if offset_ms < 0 {
            "-"@
        } else {
            Seq::empty()
        }));
    }
    m.append(decimal_u64(magnitude / 1000).as_str());
    m.append(".");
    let rest = magnitude % 1000;
    if rest < 10 {
        m.append("00");
    } else if rest < 100 {
        m.append("0");
    }
    m.append(decimal_u64(rest).as_str());
    m.append("s");
    proof {
        let sign = if offset_ms < 0 {
            "-"@
        } else {
            Seq::<char>::empty()
        };
        let pad = if rest < 10 {
            "00"@
        } else if rest < 100 {
            "0"@
        } else {
            Seq::<char>::empty()
        };
        assert(pad + digits_of(rest as nat) =~= three_digits(rest as nat));
        assert(m@ =~= "time offset "@ + (sign + digits_of((magnitude / 1000) as nat) + "."@
            + three_digits(rest as nat)) + "s"@);
    }
    LogLine { level: String::from_str("info"), message: m }
}

/// What the caller does about the start time.
#[derive(Debug)]
pub enum ArmPlan {
    /// The start time has passed: the run begins at once.
    AlreadyPassed,
    /// The run begins in `wait_ms` milliseconds.
    Wait { wait_ms: u64 },
}

/// The distance from `now_ms` to the start: the target on the local clock,
/// less the lead of the server's clock.
pub open spec fn distance_to_start(target_ms: i64, offset_ms: i64, now_ms: i64) -> int {
    target_ms - offset_ms - now_ms
}

/// Plans the wait for the start time: `target_ms` is the start on the local
/// clock, `offset_ms` the lead of the server's clock over it, `now_ms` the
/// local clock. The wait is the distance to the start, or the greatest
/// number of milliseconds that fits where the distance is beyond it. The
/// line tells what was decided.
pub fn plan_arming(start_time: &str, target_ms: i64, offset_ms: i64, now_ms: i64) -> (r: (
    ArmPlan,
    LogLine,
))
    ensures
        ({
            let d = distance_to_start(target_ms, offset_ms, now_ms);
            if d <= 0 {
                &&& r.0 is AlreadyPassed
                &&& r.1@ == warn_line("target time already passed: "@ + start_time@)
            } else {
                &&& r.0 matches ArmPlan::Wait { wait_ms }
                &&& wait_ms == (if d <= u64::MAX {
                    d
                } else {
                    u64::MAX as int
                })
                &&& r.1@ == info_line(
                    "waiting "@ + digits_of((wait_ms / 1000) as nat) + ".0s to start"@,
                )
            }
        }),
{
    let d: i128 = target_ms as i128 - offset_ms as i128 - now_ms as i128;
    if d <= 0 {
        let mut m = String::from_str("target time already passed: ");
        m.append(start_time);
        (ArmPlan::AlreadyPassed, LogLine { level: String::from_str("warn"), message: m })
    } else {
        let wait_ms: u64 = if d <= u64::MAX as i128 {
            d as u64
        } else {
            u64::MAX
        };
        let mut m = String::from_str("waiting ");
        m.append(decimal_u64(wait_ms / 1000).as_str());
        m.append(".0s to start");
        (ArmPlan::Wait { wait_ms }, LogLine { level: String::from_str("info"), message: m })
    }
}

/// What the caller does while the start time is awaited.
#[derive(Debug, Clone, Copy, PartialEq, Eq, Structural)]
pub enum WaitStep {
    /// Sleep for so many milliseconds, then look at the clock again.
    Sleep { ms: u64 },
    /// Yield, then look at the clock again.
    Spin,
    /// The start time has come.
    Go,
}

/// The longest sleep while the start time is awaited, in milliseconds.
pub const WAIT_SLICE_MS: u64 = 1000;

/// What has to remain of the wait, in milliseconds, for the caller to sleep.
pub const WAIT_SPIN_MS: i64 = 2000;

/// Decides the next step of the wait from what remains of it: sleeps of at
/// most a second while more than two seconds remain, then yields until
/// nothing remains.
pub fn wait_step(remaining_ms: i64) -> (r: WaitStep)
    ensures
        r == (if remaining_ms <= 0 {
            WaitStep::Go
        } else if remaining_ms <= WAIT_SPIN_MS {
            WaitStep::Spin
        } else {
            WaitStep::Sleep { ms: WAIT_SLICE_MS }
        }),
{
    if remaining_ms <= 0 {
        WaitStep::Go
    } else if remaining_ms <= WAIT_SPIN_MS {
        WaitStep::Spin
    } else {
        WaitStep::Sleep { ms: WAIT_SLICE_MS }
    }
}

/// The line that reports that the start time has come.
pub fn start_line() -> (r: LogLine)
    ensures
        r@ == info_line("start trigger"@),
{
    LogLine { level: String::from_str("info"), message: String::from_str("start trigger") }
}

} // verus!
