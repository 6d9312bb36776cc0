//! Positions on the timeline of the mirrored player. A position is written
//! as hours, a dot, and minutes (`1.30` is an hour and a half); the minutes
//! may be left out.

use vstd::prelude::*;
use crate::decimal::{parse_u64, parse_unsigned};
use crate::text::{chars_of, find, index_of, index_of_from, find_from, slice_chars};

verus! {

/// What separates hours from minutes.
pub const PART_SEPARATOR: &'static str = ".";

/// The milliseconds of a minute.
pub const MILLIS_PER_MINUTE: u64 = 60_000;

/// What is wrong with a request to move on the timeline.
#[derive(Clone, Copy, Debug, PartialEq, Eq, Structural)]
pub enum TimelineError {
    /// The position is not written as hours and minutes.
    Format,
    /// The player does not say how long the video is.
    NoDuration,
}

/// Where to move on the timeline.
#[derive(Clone, Copy, Debug, PartialEq, Eq, Structural)]
pub struct TimelineTarget {
    /// The position to move to, in milliseconds: the one asked for, or the
    /// end of the video where that is earlier.
    pub position_ms: u64,
    /// The length of the video, in milliseconds. It is not 0.
    pub length_ms: u64,
}

/// The part of `s` before its first dot; all of it where it has none.
pub open spec fn first_part(s: Seq<char>) -> Seq<char> {
    match find(s, PART_SEPARATOR@) {
        Some(i) => s.subrange(0, i),
        None => s,
    }
}

/// The part of `s` between its first dot and its second; `None` where it
/// has no dot.
pub open spec fn second_part(s: Seq<char>) -> Option<Seq<char>> {
    match find(s, PART_SEPARATOR@) {
        Some(i) => Some(first_part(s.skip(i + PART_SEPARATOR@.len()))),
        None => None,
    }
}

/// The minutes that `s` names: those of its second part, 0 where it has
/// none.
pub open spec fn minutes_of(s: Seq<char>) -> Option<nat> {
    match second_part(s) {
        Some(p) => parse_unsigned(p, u64::MAX as nat),
        None => Some(0nat),
    }
}

/// The position that `s` names, in milliseconds. There is none where the
/// hours or the minutes are no number, where the minutes are 60 or more, or
/// where the milliseconds cannot be counted in 64 bits.
pub open spec fn time_millis(s: Seq<char>) -> Option<nat> {
    match (parse_unsigned(first_part(s), u64::MAX as nat), minutes_of(s)) {
        (Some(hours), Some(minutes)) => if minutes < 60 && (hours * 60 + minutes)
            * MILLIS_PER_MINUTE <= u64::MAX {
            Some(((hours * 60 + minutes) * MILLIS_PER_MINUTE) as nat)
        } else {
            None
        },
        _ => None,
    }
}

/// The length of the video in milliseconds, from the seconds that the
/// player reports: 0 where it reports none, something that is no number, or
/// more than can be counted in 64 bits.
pub open spec fn length_millis(reported: Option<Seq<char>>) -> nat {
    match reported {
        Some(text) => match parse_unsigned(text, u64::MAX as nat) {
            Some(seconds) => if seconds * 1000 <= u64::MAX {
                (seconds * 1000) as nat
            } else {
                0
            },
            None => 0,
        },
        None => 0,
    }
}

/// Where to move for a position written as `s`, in a video of the length
/// that the player reports.
pub open spec fn timeline_target(s: Seq<char>, reported: Option<Seq<char>>) -> Result<
    TimelineTarget,
    TimelineError,
> {
    match time_millis(s) {
        None => Err(TimelineError::Format),
        Some(position) => {
            let length = length_millis(reported);
            if length == 0 {
                Err(TimelineError::NoDuration)
            } else {
                Ok(
                    TimelineTarget {
                        position_ms: (if position < length {
                            position
                        } else {
                            length
                        }) as u64,
                        length_ms: length as u64,
                    },
                )
            }
        },
    }
}

fn part_from(s: &[char], from: usize) -> (r: (Vec<char>, Option<usize>))
    requires
        from <= s.len(),
    ensures
        r.0@ == first_part(s@.skip(from as int)),
        match r.1 {
            Some(next) => from <= next <= s.len() && find(s@.skip(from as int), PART_SEPARATOR@)
                == Some(next - from - PART_SEPARATOR@.len()),
            None => find(s@.skip(from as int), PART_SEPARATOR@) is None,
        },
{
    let sep = chars_of(PART_SEPARATOR);
    let rest = slice_chars(s, from, s.len());
    proof {
        assert(rest@ =~= s@.skip(from as int));
    }
    match index_of(rest.as_slice(), sep.as_slice()) {
        Some(i) => {
            proof {
                crate::text::lemma_find_from_is_least(rest@, sep@, 0);
            }
            let part = slice_chars(rest.as_slice(), 0, i);
            (part, Some(from + i + sep.len()))
        },
        None => (rest, None),
    }
}

/// The position that `time_str` names, in milliseconds.
pub fn convert_time_format(time_str: &str) -> (r: Option<u64>)
    ensures
        match r {
            Some(ms) => time_millis(time_str@) == Some(ms as nat),
            None => time_millis(time_str@) is None,
        },
{
    let text = chars_of(time_str);
    proof {
        assert(text@.skip(0) =~= text@);
    }
    let (hours_text, next) = part_from(text.as_slice(), 0);
    let hours = match parse_u64(hours_text.as_slice()) {
        Some(h) => h,
        None => {
            return None;
        },
    };
    let minutes = match next {
        Some(at) => {
            let (minutes_text, _) = part_from(text.as_slice(), at);
            match parse_u64(minutes_text.as_slice()) {
                Some(m) => m,
                None => {
                    return None;
                },
            }
        },
        None => 0,
    };
    if minutes >= 60 {
        return None;
    }
    if hours > (u64::MAX / MILLIS_PER_MINUTE - minutes) / 60 {
        proof {
            assert((hours * 60 + minutes) * MILLIS_PER_MINUTE > u64::MAX) by (nonlinear_arith)
                requires
                    hours > (u64::MAX / MILLIS_PER_MINUTE - minutes) / 60,
                    minutes < 60,
                    MILLIS_PER_MINUTE == 60_000,
            ;
        }
        return None;
    }
    proof {
        assert((hours * 60 + minutes) * MILLIS_PER_MINUTE <= u64::MAX) by (nonlinear_arith)
            requires
                hours <= (u64::MAX / MILLIS_PER_MINUTE - minutes) / 60,
                minutes < 60,
                MILLIS_PER_MINUTE == 60_000,
        ;
    }
    Some((hours * 60 + minutes) * MILLIS_PER_MINUTE)
}

/// The length of the video in milliseconds, from the seconds that the
/// player reports.
pub fn video_length_ms(reported: Option<&str>) -> (r: u64)
    ensures
        r == length_millis(
            match reported {
                Some(t) => Some(t@),
                None => None,
            },
        ),
{
    match reported {
        Some(t) => {
            let text = chars_of(t);
            match parse_u64(text.as_slice()) {
                Some(seconds) => if seconds <= u64::MAX / 1000 {
                    seconds * 1000
                } else {
                    0
                },
                None => 0,
            }
        },
        None => 0,
    }
}

/// Where to move for the position `time_input`, in a video of the length
/// that the player reports: never past the end of the video.
pub fn plan_timeline_move(time_input: &str, reported: Option<&str>) -> (r: Result<
    TimelineTarget,
    TimelineError,
>)
    ensures
        r == timeline_target(
            time_input@,
            match reported {
                Some(t) => Some(t@),
                None => None,
            },
        ),
{
    let position = match convert_time_format(time_input) {
        Some(p) => p,
        None => {
            return Err(TimelineError::Format);
        },
    };
    let length = video_length_ms(reported);
    if length == 0 {
        return Err(TimelineError::NoDuration);
    }
    Ok(
        TimelineTarget {
            position_ms: if position < length {
                position
            } else {
                length
            },
            length_ms: length,
        },
    )
}

} // verus!
