use vstd::prelude::*;

use crate::text::{zero_padded, zero_padded_text};
use vstd::string::StringExecFns;

verus! {

/// A measured duration, split as the timer library splits it.
#[derive(Clone, Copy, Debug, PartialEq, Eq, Structural)]
pub struct Time {
    pub hours: u64,
    pub minutes: u64,
    pub seconds: u64,
    pub milliseconds: u64,
    pub nanoseconds: u64,
}

impl Time {
    /// The parts of the duration, largest first.
    pub open spec fn parts(self) -> (u64, u64, u64, u64, u64) {
        (self.hours, self.minutes, self.seconds, self.milliseconds, self.nanoseconds)
    }
}

/// Whether the timer library orders the first duration strictly before the
/// second.
pub uninterp spec fn timer_lib_time_lt(a: (u64, u64, u64, u64, u64), b: (u64, u64, u64, u64, u64)) -> bool;

/// `<` on `climer::Time` (which compares the two durations as fractional
/// hours). Stated: the result is a function of the two durations' parts, and
/// no duration is before itself.
#[verifier::external_body]
pub(crate) fn time_lt(a: &Time, b: &Time) -> (res: bool)
    ensures
        res == timer_lib_time_lt(a.parts(), b.parts()),
        a.parts() == b.parts() ==> !res,
{
    climer::Time::new(a.hours, a.minutes, a.seconds, a.milliseconds, a.nanoseconds)
        < climer::Time::new(b.hours, b.minutes, b.seconds, b.milliseconds, b.nanoseconds)
}

/// Whether the first duration is before the second (as the timer library
/// orders them; no duration is before itself).
pub open spec fn spec_time_lt(a: Time, b: Time) -> bool {
    a.parts() != b.parts() && timer_lib_time_lt(a.parts(), b.parts())
}

/// Whether one duration comes before another, as the timer library orders
/// them.
pub fn is_before(a: &Time, b: &Time) -> (res: bool)
    ensures
        res == spec_time_lt(*a, *b),
{
    time_lt(a, b)
}

/// How the timer library writes a duration: hours, minutes and seconds with
/// at least two digits, then milliseconds with at least three, as in
/// `00:01:05.042`.
pub open spec fn spec_time_text(t: Time) -> Seq<char> {
    zero_padded(t.hours as nat, 2) + ":"@ + zero_padded(t.minutes as nat, 2) + ":"@ + zero_padded(
        t.seconds as nat,
        2,
    ) + "."@ + zero_padded(t.milliseconds as nat, 3)
}

/// The text of a duration, as the timer library writes it (its `Display`:
/// `{:02}:{:02}:{:02}.{:03}` of the hours, minutes, seconds and
/// milliseconds).
pub fn time_text(t: &Time) -> (res: String)
    ensures
        res@ == spec_time_text(*t),
{
    let mut s = zero_padded_text(t.hours, 2);
    s.append(":");
    s.append(zero_padded_text(t.minutes, 2).as_str());
    s.append(":");
    s.append(zero_padded_text(t.seconds, 2).as_str());
    s.append(".");
    s.append(zero_padded_text(t.milliseconds, 3).as_str());
    s
}

/// The best times of a level or of a whole game: over all play-throughs, and
/// in the first play-through.
#[derive(Clone, Copy, Debug, PartialEq, Eq, Structural)]
pub struct TimeData {
    pub general: Time,
    pub first: Time,
}

/// The better of a record's two times: the general one when it is before the
/// first one, else the first one.
pub open spec fn spec_best_time(t: TimeData) -> Time {
    if spec_time_lt(t.general, t.first) {
        t.general
    } else {
        t.first
    }
}

/// A record after a new time: the general best improves when the new time is
/// before it; the first-play-through best improves only in the first
/// play-through. A missing record starts with the new time as both.
pub open spec fn spec_record_time(old_record: Option<TimeData>, time: Time, is_first_loop: bool) -> TimeData {
    match old_record {
        None => TimeData { general: time, first: time },
        Some(r) => TimeData {
            general: if spec_time_lt(time, r.general) { time } else { r.general },
            first: if is_first_loop && spec_time_lt(time, r.first) { time } else { r.first },
        },
    }
}

impl TimeData {
    /// The better of the two times.
    pub fn best(&self) -> (res: Time)
        ensures
            res == spec_best_time(*self),
    {
        if is_before(&self.general, &self.first) {
            self.general
        } else {
            self.first
        }
    }
}

/// Records a new time.
pub fn record_time(old_record: Option<TimeData>, time: Time, is_first_loop: bool) -> (res: TimeData)
    ensures
        res == spec_record_time(old_record, time, is_first_loop),
{
    match old_record {
        None => TimeData { general: time, first: time },
        Some(r) => {
            let mut entry = r;
            if is_before(&time, &entry.general) {
                entry.general = time;
            }
            if is_first_loop && is_before(&time, &entry.first) {
                entry.first = time;
            }
            entry
        },
    }
}

/// After recording a time, that time is not before the general best; the
/// first-play-through best changes only in the first play-through.
pub proof fn lemma_record_time_not_beaten(old_record: Option<TimeData>, time: Time, is_first_loop: bool)
    ensures
        !spec_time_lt(time, spec_record_time(old_record, time, is_first_loop).general),
        !is_first_loop && old_record is Some ==> spec_record_time(old_record, time, is_first_loop).first == old_record->0.first,
        is_first_loop ==> !spec_time_lt(time, spec_record_time(old_record, time, is_first_loop).first),
{
}

/// A record keeps the best times: the general best becomes the new time
/// exactly when that is before the old general best, and otherwise stays;
/// the first-play-through best becomes the new time exactly when this is the
/// first play-through and the time is before it, and otherwise stays. A first
/// record holds the new time as both.
pub proof fn lemma_record_time_keeps_best(old_record: Option<TimeData>, time: Time, is_first_loop: bool)
    ensures
        ({
            let r = spec_record_time(old_record, time, is_first_loop);
            match old_record {
                None => r.general == time && r.first == time,
                Some(o) => {
                    &&& (r.general == time && spec_time_lt(time, o.general)) || (r.general == o.general
                        && !spec_time_lt(time, o.general))
                    &&& (r.first == time && is_first_loop && spec_time_lt(time, o.first)) || (r.first == o.first
                        && !(is_first_loop && spec_time_lt(time, o.first)))
                },
            }
        }),
{
}

} // verus!
