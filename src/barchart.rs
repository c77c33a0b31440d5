//! Per-day aggregates of the log, as the charts show them.

use crate::calc_time::TimeOfDay;
use crate::record::{focus_total, meeting_total, Worktime};
use vstd::prelude::*;

verus! {

/// What one day adds up to: minutes worked, in meetings and in focus.
#[derive(Debug)]
pub struct DaySummary {
    pub date: String,
    pub worked_minutes: i32,
    pub meeting_minutes: u128,
    pub focus_minutes: u128,
}

/// `s` is an empty slot: no date and no minutes.
pub open spec fn is_blank_summary(s: DaySummary) -> bool {
    &&& s.date@.len() == 0
    &&& s.worked_minutes == 0
    &&& s.meeting_minutes == 0
    &&& s.focus_minutes == 0
}

/// `s` adds up the day recorded in `w`.
pub open spec fn is_summary_of(s: DaySummary, w: Worktime) -> bool {
    &&& s.date == w.date
    &&& s.worked_minutes == w.endtime@ - w.starttime@
    &&& s.meeting_minutes == meeting_total(w.meetings@)
    &&& s.focus_minutes == focus_total(w.focus_time@)
}

/// How many of `n` records a window of `window_size` slots shows.
pub open spec fn shown(n: nat, window_size: nat) -> nat {
    if n < window_size {
        n
    } else {
        window_size
    }
}

/// `r` is the window of `window_size` slots over `records`: the last records
/// that fit, oldest first, placed at the end, and blank slots before them.
pub open spec fn is_window(r: Seq<DaySummary>, records: Seq<Worktime>, window_size: nat) -> bool {
    let k = shown(records.len(), window_size);
    let pad = window_size - k;
    &&& r.len() == window_size
    &&& forall|i: int| 0 <= i < pad ==> #[trigger] is_blank_summary(r[i])
    &&& forall|i: int|
        pad <= i < window_size ==> #[trigger] is_summary_of(
            r[i],
            records[records.len() - k + (i - pad)],
        )
}

impl DaySummary {
    /// An empty slot.
    pub fn blank() -> (s: DaySummary)
        ensures
            is_blank_summary(s),
    {
        DaySummary { date: String::new(), worked_minutes: 0, meeting_minutes: 0, focus_minutes: 0 }
    }

    /// The aggregate of one recorded day.
    pub fn of_record(w: &Worktime) -> (s: DaySummary)
        ensures
            is_summary_of(s, *w),
    {
        DaySummary {
            date: w.date.clone(),
            worked_minutes: w.worked_minutes(),
            meeting_minutes: w.meeting_minutes(),
            focus_minutes: w.focus_minutes(),
        }
    }
}

/// The last `window_size` records of the log, one summary each, oldest first.
/// A log shorter than the window leaves blank slots in front, so the result
/// always has `window_size` entries.
pub fn summaries_for_window(records: &Vec<Worktime>, window_size: usize) -> (r: Vec<DaySummary>)
    ensures
        r@.len() == window_size,
        is_window(r@, records@, window_size as nat),
{
    let n = records.len();
    let k = if n < window_size {
        n
    } else {
        window_size
    };
    let pad = window_size - k;
    let mut r: Vec<DaySummary> = Vec::new();
    let mut i: usize = 0;
    while i < window_size
        invariant
            i <= window_size,
            n == records@.len(),
            k == shown(n as nat, window_size as nat),
            pad == window_size - k,
            r@.len() == i,
            forall|j: int| 0 <= j < i && j < pad ==> #[trigger] is_blank_summary(r@[j]),
            forall|j: int|
                pad <= j < i ==> #[trigger] is_summary_of(r@[j], records@[n - k + (j - pad)]),
        decreases window_size - i,
    {
        if i < pad {
            r.push(DaySummary::blank());
        } else {
            r.push(DaySummary::of_record(&records[n - k + (i - pad)]));
        }
        i = i + 1;
    }
    r
}

/// The aggregate of the day still being tracked, at time `now`: minutes
/// worked since `start`, and the minutes of the meetings and focus intervals
/// that ended plus those of the ones still running.
pub fn current_day_projection(
    date: String,
    start: TimeOfDay,
    now: TimeOfDay,
    closed_meeting_minutes: u128,
    running_meeting_minutes: u64,
    closed_focus_minutes: u128,
    running_focus_minutes: u64,
) -> (s: DaySummary)
    requires
        closed_meeting_minutes + running_meeting_minutes <= u128::MAX,
        closed_focus_minutes + running_focus_minutes <= u128::MAX,
    ensures
        s.date == date,
        s.worked_minutes == now@ - start@,
        s.meeting_minutes == closed_meeting_minutes + running_meeting_minutes,
        s.focus_minutes == closed_focus_minutes + running_focus_minutes,
{
    DaySummary {
        date,
        worked_minutes: crate::calc_time::duration_minutes(start, now),
        meeting_minutes: closed_meeting_minutes + running_meeting_minutes as u128,
        focus_minutes: closed_focus_minutes + running_focus_minutes as u128,
    }
}

} // verus!
