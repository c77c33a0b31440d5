use time_tracking_basic::calc_time::{
    calc_endtime, duration_minutes, elapsed_minutes, parse_time, project_end_time, FormatError,
    TimeOfDay,
};

fn t(text: &str) -> TimeOfDay {
    parse_time(text).unwrap()
}

#[test]
fn parses_canonical_time() {
    assert_eq!(t("09:00").minutes(), 540);
    assert_eq!(t("00:00").minutes(), 0);
    assert_eq!(t("23:59").minutes(), 1439);
    assert_eq!(t("17:05").hour(), 17);
    assert_eq!(t("17:05").minute(), 5);
}

#[test]
fn parses_short_fields() {
    assert_eq!(t("9:5").minutes(), 545);
    assert_eq!(t("008:045").minutes(), 8 * 60 + 45);
}

#[test]
fn every_canonical_time_round_trips() {
    for h in 0..24u32 {
        for m in 0..60u32 {
            let text = format!("{:02}:{:02}", h, m);
            let parsed = parse_time(&text).unwrap();
            assert_eq!(parsed.minutes(), h * 60 + m);
            assert_eq!(parsed.to_text(), text);
        }
    }
}

#[test]
fn formats_with_leading_zeros() {
    assert_eq!(TimeOfDay::from_minutes(65).to_text(), "01:05");
    assert_eq!(t("9:5").to_text(), "09:05");
}

#[test]
fn rejects_malformed_text() {
    let bad = [
        "", "9", ":", "09:", ":30", "09:00:00", "ab:cd", "0a:00", "24:00", "12:60", " 09:00",
        "09:00 ", "-1:00", "+9:00", "09-00", "99999999999999999999:00", "12:99999999999999999999",
    ];
    for text in bad {
        assert_eq!(parse_time(text), Err(FormatError), "{text:?}");
    }
}

#[test]
fn builds_times_from_parts() {
    assert_eq!(TimeOfDay::from_hm(8, 45).unwrap().minutes(), 525);
    assert!(TimeOfDay::from_hm(24, 0).is_none());
    assert!(TimeOfDay::from_hm(0, 60).is_none());
}

#[test]
fn duration_is_end_minus_start() {
    assert_eq!(duration_minutes(t("09:00"), t("17:00")), 480);
    assert_eq!(duration_minutes(t("22:00"), t("01:00")), -1260);
    assert_eq!(duration_minutes(t("10:10"), t("10:10")), 0);
}

#[test]
fn elapsed_runs_across_midnight() {
    assert_eq!(elapsed_minutes(t("10:00"), t("10:15")), 15);
    assert_eq!(elapsed_minutes(t("23:50"), t("00:10")), 20);
    assert_eq!(elapsed_minutes(t("12:00"), t("12:00")), 0);
}

#[test]
fn projects_end_of_workday() {
    assert_eq!(calc_endtime(9, 0), (17, 20));
    assert_eq!(calc_endtime(8, 45), (17, 5));
    assert_eq!(calc_endtime(20, 30), (28, 50));
    assert_eq!(project_end_time(t("08:45"), 7, 80), (17, 5));
    assert_eq!(project_end_time(t("08:00"), 0, 150), (10, 30));
}
