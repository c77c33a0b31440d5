use time_tracking_basic::clock;
use time_tracking_basic::focus_cache::{focus_cache_text, parse_focus_cache, FocusCache};
use time_tracking_basic::tabs::{EditHistoryTab, FocusTimeTab, Tab};

#[test]
fn tab_order() {
    assert_eq!(Tab::BarChartTab.next(), Tab::EditHistoryTab);
    assert_eq!(Tab::EditHistoryTab.next(), Tab::FocusTimeTab);
    assert_eq!(Tab::FocusTimeTab.next(), Tab::MeetingNotesTab);
    assert_eq!(Tab::MeetingNotesTab.next(), Tab::MeetingNotesTab);
    assert_eq!(Tab::BarChartTab.prev(), Tab::BarChartTab);
    assert_eq!(Tab::MeetingNotesTab.prev(), Tab::FocusTimeTab);
    assert_eq!(Tab::default(), Tab::BarChartTab);
    assert_eq!(Tab::FocusTimeTab.index(), 2);
    assert_eq!(Tab::from_index(3), Some(Tab::MeetingNotesTab));
    assert_eq!(Tab::from_index(4), None);
}

#[test]
fn tab_titles() {
    assert_eq!(Tab::BarChartTab.title(), "");
    assert_eq!(Tab::EditHistoryTab.title(), " EditHistoryTab ");
    assert_eq!(Tab::FocusTimeTab.title(), " FocusTimeTab ");
    assert_eq!(Tab::MeetingNotesTab.title(), " MeetingNotesTab ");
}

#[test]
fn list_tabs_move_their_row() {
    let mut h = EditHistoryTab::new();
    h.previous();
    assert_eq!(h.row_index(), 0);
    h.next();
    h.next();
    assert_eq!(h.row_index(), 2);
    h.previous();
    assert_eq!(h.row_index(), 1);
    let mut f = FocusTimeTab::new();
    f.next();
    assert_eq!(f.row_index(), 1);
    f.previous();
    f.previous();
    assert_eq!(f.row_index(), 0);
}

#[test]
fn cache_text_round_trips() {
    assert_eq!(focus_cache_text(false, 0), "false,0");
    assert_eq!(focus_cache_text(true, 1234), "true,1234");
    for (focus, minutes) in [(true, 0u64), (false, 7), (true, 60), (false, u64::MAX)] {
        let text = focus_cache_text(focus, minutes);
        assert_eq!(parse_focus_cache(&text), Some(FocusCache { focus, minutes }));
    }
}

#[test]
fn malformed_cache_text_is_refused() {
    for text in ["", "true", "true,", ",5", "yes,5", "true,5,6", "true,-1", "true, 5", "True,5",
        "false,18446744073709551616"]
    {
        assert_eq!(parse_focus_cache(text), None, "{text:?}");
    }
    assert_eq!(parse_focus_cache("false,007"), Some(FocusCache { focus: false, minutes: 7 }));
}

#[test]
fn clock_gives_a_time_and_a_date() {
    let now = clock::now().unwrap();
    assert!(now.minutes() < 1440);
    assert_eq!(now.to_text().len(), 5);
    let today = clock::today().unwrap();
    assert_eq!(today.len(), 10);
    assert_eq!(&today[4..5], "-");
}
