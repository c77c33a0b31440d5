use time_tracking_basic::barchart::{summaries_for_window, DaySummary};
use time_tracking_basic::calc_time::{parse_time, FormatError, TimeOfDay};
use time_tracking_basic::record::{FocusTime, MeetingList, Worktime};
use time_tracking_basic::store::{get_json_data, RecordLog, StoreError};

fn t(text: &str) -> TimeOfDay {
    parse_time(text).unwrap()
}

fn day(date: &str, start: &str, end: &str) -> Worktime {
    Worktime::new(date.to_string(), t(start), t(end), Vec::new(), Vec::new())
}

fn meeting(name: &str, start: &str, end: &str, minutes: u32) -> MeetingList {
    MeetingList::from_stored(name.to_string(), start, end, minutes).unwrap()
}

fn focus(start: &str, end: &str, minutes: u32) -> FocusTime {
    FocusTime::from_stored(start, end, minutes).unwrap()
}

fn assert_blank(s: &DaySummary) {
    assert_eq!(s.date, "");
    assert_eq!(s.worked_minutes, 0);
    assert_eq!(s.meeting_minutes, 0);
    assert_eq!(s.focus_minutes, 0);
}

#[test]
fn worked_minutes_of_a_stored_day() {
    let mut log = RecordLog::new();
    log.append(day("2024-01-01", "09:00", "17:00"));
    let records = log.read_all();
    assert_eq!(records.len(), 1);
    assert_eq!(records[0].date, "2024-01-01");
    assert_eq!(records[0].worked_minutes(), 480);
}

#[test]
fn worked_minutes_negative_when_end_precedes_start() {
    assert_eq!(day("2024-01-02", "17:00", "09:00").worked_minutes(), -480);
}

#[test]
fn meeting_and_focus_totals() {
    let mut w = day("2024-01-03", "08:00", "16:30");
    w.meetings.push(meeting("standup", "09:00", "09:15", 15));
    w.meetings.push(meeting("review", "13:00", "14:00", 60));
    w.focus_time.push(focus("10:00", "11:30", 90));
    assert_eq!(w.meeting_minutes(), 75);
    assert_eq!(w.focus_minutes(), 90);
    assert_eq!(w.worked_minutes(), 510);
}

#[test]
fn append_then_read_keeps_order_and_fields() {
    let mut log = RecordLog::new();
    let dates = ["2024-02-01", "2024-02-02", "2024-01-30", "2024-02-05"];
    for (i, d) in dates.iter().enumerate() {
        let mut w = day(d, "08:00", "16:00");
        w.meetings.push(meeting(&format!("m{i}"), "10:00", "10:30", 30 + i as u32));
        log.append(w);
    }
    let records = log.read_all();
    assert_eq!(records.len(), dates.len());
    for (i, d) in dates.iter().enumerate() {
        assert_eq!(records[i].date, *d);
        assert_eq!(records[i].starttime, t("08:00"));
        assert_eq!(records[i].endtime, t("16:00"));
        assert_eq!(records[i].meetings.len(), 1);
        assert_eq!(records[i].meetings[0].meeting_name, format!("m{i}"));
        assert_eq!(records[i].meetings[0].time_in_meeting, 30 + i as u32);
        assert!(records[i].focus_time.is_empty());
    }
}

#[test]
fn reading_twice_gives_the_same_records() {
    let mut log = RecordLog::new();
    log.append(day("2024-03-01", "09:00", "17:00"));
    log.append(day("2024-03-02", "08:30", "16:45"));
    let first: Vec<(String, u32, u32)> = log
        .read_all()
        .iter()
        .map(|w| (w.date.clone(), w.starttime.minutes(), w.endtime.minutes()))
        .collect();
    let second: Vec<(String, u32, u32)> = log
        .read_all()
        .iter()
        .map(|w| (w.date.clone(), w.starttime.minutes(), w.endtime.minutes()))
        .collect();
    assert_eq!(first, second);
    assert_eq!(log.len(), 2);
}

#[test]
fn lines_become_a_log() {
    let lines = vec![Some(day("2024-04-01", "09:00", "17:00")), Some(day("2024-04-02", "09:30", "17:00"))];
    let log = RecordLog::from_lines(lines).unwrap();
    assert_eq!(log.len(), 2);
    assert_eq!(log.read_all()[1].date, "2024-04-02");
    assert_eq!(RecordLog::from_lines(Vec::new()).unwrap().len(), 0);
}

#[test]
fn corrupt_line_is_reported_by_number() {
    let lines = vec![
        Some(day("2024-04-01", "09:00", "17:00")),
        None,
        Some(day("2024-04-03", "09:00", "17:00")),
        None,
    ];
    assert_eq!(RecordLog::from_lines(lines).err(), Some(StoreError::CorruptRecord { line: 2 }));
    assert_eq!(RecordLog::from_lines(vec![None]).err(), Some(StoreError::CorruptRecord { line: 1 }));
}

#[test]
fn failed_read_degrades_to_empty_log() {
    let log = get_json_data(Err(StoreError::CorruptRecord { line: 3 }));
    assert_eq!(log.len(), 0);
    let mut kept = RecordLog::new();
    kept.append(day("2024-05-01", "09:00", "17:00"));
    assert_eq!(get_json_data(Ok(kept)).len(), 1);
}

#[test]
fn record_without_focus_field_has_no_focus_intervals() {
    let w = Worktime::from_stored("2023-12-01".to_string(), "09:00", "17:00", Vec::new(), None)
        .unwrap();
    assert!(w.focus_time.is_empty());
    assert_eq!(w.focus_minutes(), 0);
    assert_eq!(w.worked_minutes(), 480);
}

#[test]
fn stored_record_keeps_its_focus_intervals() {
    let w = Worktime::from_stored(
        "2023-12-02".to_string(),
        "09:00",
        "17:00",
        vec![meeting("planning", "09:30", "10:00", 30)],
        Some(vec![focus("11:00", "11:45", 45)]),
    )
    .unwrap();
    assert_eq!(w.focus_time.len(), 1);
    assert_eq!(w.focus_minutes(), 45);
    assert_eq!(w.meeting_minutes(), 30);
}

#[test]
fn stored_record_with_bad_time_is_refused() {
    let r = Worktime::from_stored("2023-12-03".to_string(), "9h", "17:00", Vec::new(), None);
    assert_eq!(r.err(), Some(FormatError));
    assert!(MeetingList::from_stored("x".to_string(), "10:00", "25:00", 5).is_err());
    assert!(FocusTime::from_stored("10:61", "11:00", 5).is_err());
}

#[test]
fn empty_log_gives_blank_window() {
    let s = summaries_for_window(&Vec::new(), 5);
    assert_eq!(s.len(), 5);
    for slot in &s {
        assert_blank(slot);
    }
}

#[test]
fn short_log_is_padded_in_front() {
    let records = vec![day("2024-06-01", "09:00", "17:00"), day("2024-06-02", "08:00", "12:00")];
    let s = summaries_for_window(&records, 5);
    assert_eq!(s.len(), 5);
    for slot in &s[..3] {
        assert_blank(slot);
    }
    assert_eq!(s[3].date, "2024-06-01");
    assert_eq!(s[3].worked_minutes, 480);
    assert_eq!(s[4].date, "2024-06-02");
    assert_eq!(s[4].worked_minutes, 240);
}

#[test]
fn full_log_fills_the_window() {
    let records: Vec<Worktime> =
        (1..=5).map(|d| day(&format!("2024-07-0{d}"), "09:00", "17:00")).collect();
    let s = summaries_for_window(&records, 5);
    assert_eq!(s.len(), 5);
    for (i, slot) in s.iter().enumerate() {
        assert_eq!(slot.date, format!("2024-07-0{}", i + 1));
    }
}

#[test]
fn long_log_shows_the_last_days() {
    let mut records: Vec<Worktime> =
        (1..=8).map(|d| day(&format!("2024-08-0{d}"), "09:00", "17:00")).collect();
    records[7].meetings.push(meeting("retro", "15:00", "16:00", 60));
    records[7].focus_time.push(focus("09:00", "10:00", 60));
    let s = summaries_for_window(&records, 5);
    assert_eq!(s.len(), 5);
    assert_eq!(s[0].date, "2024-08-04");
    assert_eq!(s[4].date, "2024-08-08");
    assert_eq!(s[4].meeting_minutes, 60);
    assert_eq!(s[4].focus_minutes, 60);
    assert_eq!(summaries_for_window(&records, 0).len(), 0);
    assert_eq!(summaries_for_window(&records, 6).len(), 6);
}
