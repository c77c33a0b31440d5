//! The record of one tracked day, as it is kept in the log.

use crate::calc_time::{
    duration_minutes, is_time_text, parse_time, time_text_minutes, FormatError, TimeOfDay,
};
use vstd::prelude::*;

verus! {

/// A meeting that was held during the day.
#[derive(Debug)]
pub struct MeetingList {
    pub meeting_name: String,
    pub meeting_start_time: TimeOfDay,
    pub meeting_end_time: TimeOfDay,
    /// The meeting's length in minutes.
    pub time_in_meeting: u32,
}

/// An interval of focused work during the day.
#[derive(Debug)]
pub struct FocusTime {
    pub focus_time_start: TimeOfDay,
    pub focus_time_end: TimeOfDay,
    /// The interval's length in minutes.
    pub focus_time: u32,
}

/// One tracked day: its date (`YYYY-MM-DD`), when work started and ended, and
/// the meetings and focus intervals it held, in the order they ended.
#[derive(Debug)]
pub struct Worktime {
    pub date: String,
    pub starttime: TimeOfDay,
    pub endtime: TimeOfDay,
    pub meetings: Vec<MeetingList>,
    pub focus_time: Vec<FocusTime>,
}

impl Clone for MeetingList {
    fn clone(&self) -> (r: Self)
        ensures
            r == *self,
    {
        MeetingList {
            meeting_name: self.meeting_name.clone(),
            meeting_start_time: self.meeting_start_time,
            meeting_end_time: self.meeting_end_time,
            time_in_meeting: self.time_in_meeting,
        }
    }
}

impl Clone for FocusTime {
    fn clone(&self) -> (r: Self)
        ensures
            r == *self,
    {
        FocusTime {
            focus_time_start: self.focus_time_start,
            focus_time_end: self.focus_time_end,
            focus_time: self.focus_time,
        }
    }
}

/// The minutes of all `meetings` together.
pub open spec fn meeting_total(meetings: Seq<MeetingList>) -> nat
    decreases meetings.len(),
{
    if meetings.len() == 0 {
        0
    } else {
        meeting_total(meetings.drop_last()) + meetings.last().time_in_meeting as nat
    }
}

/// The minutes of all focus `intervals` together.
pub open spec fn focus_total(intervals: Seq<FocusTime>) -> nat
    decreases intervals.len(),
{
    if intervals.len() == 0 {
        0
    } else {
        focus_total(intervals.drop_last()) + intervals.last().focus_time as nat
    }
}

/// The largest value a `u32` sum of `n` terms can reach.
pub open spec fn sum_bound(n: nat) -> nat {
    n * (u32::MAX as nat)
}

proof fn lemma_sum_bound_fits(n: nat)
    requires
        n <= usize::MAX,
    ensures
        sum_bound(n) < u128::MAX,
{
    assert(n * (u32::MAX as nat) <= (usize::MAX as nat) * (u32::MAX as nat)) by (nonlinear_arith)
        requires
            n <= usize::MAX,
    ;
}

/// A `u32` sum over a vector leaves room in a `u128` for a `u64` more.
proof fn lemma_room_for_u64(n: nat)
    requires
        n <= usize::MAX,
    ensures
        sum_bound(n) + u64::MAX <= u128::MAX,
{
    assert(sum_bound(n) <= sum_bound(usize::MAX as nat)) by (nonlinear_arith)
        requires
            n <= usize::MAX,
    ;
    assert(sum_bound(usize::MAX as nat) + u64::MAX <= u128::MAX) by (nonlinear_arith);
}

/// The minutes of all `meetings` together.
pub fn sum_meeting_minutes(meetings: &Vec<MeetingList>) -> (total: u128)
    ensures
        total == meeting_total(meetings@),
        total + u64::MAX <= u128::MAX,
{
    let mut total: u128 = 0;
    let mut i: usize = 0;
    while i < meetings.len()
        invariant
            i <= meetings@.len(),
            total == meeting_total(meetings@.subrange(0, i as int)),
            total <= sum_bound(i as nat),
        decreases meetings.len() - i,
    {
        proof {
            assert(meetings@.subrange(0, i + 1).drop_last() =~= meetings@.subrange(0, i as int));
            lemma_sum_bound_fits((i + 1) as nat);
        }
        total = total + meetings[i].time_in_meeting as u128;
        i = i + 1;
    }
    assert(meetings@.subrange(0, i as int) =~= meetings@);
    proof {
        lemma_room_for_u64(i as nat);
    }
    total
}

/// The minutes of all focus `intervals` together.
pub fn sum_focus_minutes(intervals: &Vec<FocusTime>) -> (total: u128)
    ensures
        total == focus_total(intervals@),
        total + u64::MAX <= u128::MAX,
{
    let mut total: u128 = 0;
    let mut i: usize = 0;
    while i < intervals.len()
        invariant
            i <= intervals@.len(),
            total == focus_total(intervals@.subrange(0, i as int)),
            total <= sum_bound(i as nat),
        decreases intervals.len() - i,
    {
        proof {
            assert(intervals@.subrange(0, i + 1).drop_last() =~= intervals@.subrange(0, i as int));
            lemma_sum_bound_fits((i + 1) as nat);
        }
        total = total + intervals[i].focus_time as u128;
        i = i + 1;
    }
    assert(intervals@.subrange(0, i as int) =~= intervals@);
    proof {
        lemma_room_for_u64(i as nat);
    }
    total
}

/// A copy of `meetings`, in the same order.
pub fn copy_meetings(meetings: &Vec<MeetingList>) -> (r: Vec<MeetingList>)
    ensures
        r@ == meetings@,
{
    let mut r: Vec<MeetingList> = Vec::new();
    let mut i: usize = 0;
    while i < meetings.len()
        invariant
            i <= meetings@.len(),
            r@ == meetings@.subrange(0, i as int),
        decreases meetings.len() - i,
    {
        r.push(meetings[i].clone());
        i = i + 1;
    }
    r
}

/// A copy of the focus `intervals`, in the same order.
pub fn copy_focus_times(intervals: &Vec<FocusTime>) -> (r: Vec<FocusTime>)
    ensures
        r@ == intervals@,
{
    let mut r: Vec<FocusTime> = Vec::new();
    let mut i: usize = 0;
    while i < intervals.len()
        invariant
            i <= intervals@.len(),
            r@ == intervals@.subrange(0, i as int),
        decreases intervals.len() - i,
    {
        r.push(intervals[i].clone());
        i = i + 1;
    }
    r
}

impl Worktime {
    /// The record of a day with these fields.
    pub fn new(
        date: String,
        starttime: TimeOfDay,
        endtime: TimeOfDay,
        meetings: Vec<MeetingList>,
        focus_time: Vec<FocusTime>,
    ) -> (r: Worktime)
        ensures
            r.date == date,
            r.starttime == starttime,
            r.endtime == endtime,
            r.meetings == meetings,
            r.focus_time == focus_time,
    {
        Worktime { date, starttime, endtime, meetings, focus_time }
    }

    /// Minutes from the start of work to its end; negative where the end was
    /// entered before the start.
    pub fn worked_minutes(&self) -> (m: i32)
        ensures
            m == self.endtime@ - self.starttime@,
    {
        duration_minutes(self.starttime, self.endtime)
    }

    /// Minutes spent in meetings.
    pub fn meeting_minutes(&self) -> (m: u128)
        ensures
            m == meeting_total(self.meetings@),
    {
        sum_meeting_minutes(&self.meetings)
    }

    /// Minutes of focused work.
    pub fn focus_minutes(&self) -> (m: u128)
        ensures
            m == focus_total(self.focus_time@),
    {
        sum_focus_minutes(&self.focus_time)
    }
}

impl MeetingList {
    /// The meeting as it is stored: its times as text, which must read as
    /// times of day.
    pub fn from_stored(
        meeting_name: String,
        meeting_start_time: &str,
        meeting_end_time: &str,
        time_in_meeting: u32,
    ) -> (r: Result<MeetingList, FormatError>)
        ensures
            r is Ok <==> is_time_text(meeting_start_time@) && is_time_text(meeting_end_time@),
            r matches Ok(m) ==> {
                &&& m.meeting_name == meeting_name
                &&& m.meeting_start_time@ == time_text_minutes(meeting_start_time@)
                &&& m.meeting_end_time@ == time_text_minutes(meeting_end_time@)
                &&& m.time_in_meeting == time_in_meeting
            },
    {
        let start = parse_time(meeting_start_time)?;
        let end = parse_time(meeting_end_time)?;
        Ok(
            MeetingList {
                meeting_name,
                meeting_start_time: start,
                meeting_end_time: end,
                time_in_meeting,
            },
        )
    }
}

impl FocusTime {
    /// The focus interval as it is stored: its times as text, which must
    /// read as times of day.
    pub fn from_stored(focus_time_start: &str, focus_time_end: &str, focus_time: u32) -> (r:
        Result<FocusTime, FormatError>)
        ensures
            r is Ok <==> is_time_text(focus_time_start@) && is_time_text(focus_time_end@),
            r matches Ok(f) ==> {
                &&& f.focus_time_start@ == time_text_minutes(focus_time_start@)
                &&& f.focus_time_end@ == time_text_minutes(focus_time_end@)
                &&& f.focus_time == focus_time
            },
    {
        let start = parse_time(focus_time_start)?;
        let end = parse_time(focus_time_end)?;
        Ok(FocusTime { focus_time_start: start, focus_time_end: end, focus_time })
    }
}

impl Worktime {
    /// The day as it is stored: its times as text, which must read as times
    /// of day. Records written before focus time was tracked have no focus
    /// intervals; they are read as having none.
    pub fn from_stored(
        date: String,
        starttime: &str,
        endtime: &str,
        meetings: Vec<MeetingList>,
        focus_time: Option<Vec<FocusTime>>,
    ) -> (r: Result<Worktime, FormatError>)
        ensures
            r is Ok <==> is_time_text(starttime@) && is_time_text(endtime@),
            r matches Ok(w) ==> {
                &&& w.date == date
                &&& w.starttime@ == time_text_minutes(starttime@)
                &&& w.endtime@ == time_text_minutes(endtime@)
                &&& w.meetings == meetings
                &&& focus_time matches Some(f) ==> w.focus_time == f
                &&& focus_time is None ==> w.focus_time@ == Seq::<FocusTime>::empty()
            },
    {
        let start = parse_time(starttime)?;
        let end = parse_time(endtime)?;
        let focus = match focus_time {
            Some(f) => f,
            None => Vec::new(),
        };
        Ok(Worktime::new(date, start, end, meetings, focus))
    }
}

} // verus!
