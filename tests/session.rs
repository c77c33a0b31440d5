use time_tracking_basic::app::{Action, App, CurrentScreen, CurrentlyEditing, Key, KeyKind, Notice};
use time_tracking_basic::calc_time::{parse_time, TimeOfDay};
use time_tracking_basic::tabs::Tab;

fn t(text: &str) -> TimeOfDay {
    parse_time(text).unwrap()
}

fn press(app: &mut App, key: Key, now: &str) -> Action {
    app.handle_key(key, KeyKind::Press, t(now), 0)
}

fn type_text(app: &mut App, text: &str) {
    for c in text.chars() {
        press(app, Key::Char(c), "12:00");
    }
}

#[test]
fn new_day_is_empty() {
    let app = App::new();
    assert!(app.starttime.is_none());
    assert!(app.endtime.is_none());
    assert_eq!(app.default_starttime.minutes(), 525);
    assert_eq!(app.current_screen, CurrentScreen::Main);
    assert_eq!(app.tab, Tab::BarChartTab);
    assert!(!app.is_closable());
}

#[test]
fn entering_a_start_time() {
    let mut app = App::new();
    press(&mut app, Key::Char('s'), "08:00");
    assert_eq!(app.current_screen, CurrentScreen::EditingStarttime);
    assert_eq!(app.currently_editing, Some(CurrentlyEditing::Starttime));
    type_text(&mut app, "09:0x");
    press(&mut app, Key::Backspace, "08:00");
    type_text(&mut app, "0");
    assert_eq!(app.starttime_input, "09:00");
    press(&mut app, Key::Enter, "08:00");
    assert_eq!(app.starttime, Some(t("09:00")));
    assert_eq!(app.starttime_input, "");
    assert_eq!(app.current_screen, CurrentScreen::Main);
    assert!(app.currently_editing.is_none());
}

#[test]
fn invalid_time_is_kept_for_correction() {
    let mut app = App::new();
    press(&mut app, Key::Char('e'), "08:00");
    type_text(&mut app, "25:00");
    press(&mut app, Key::Enter, "08:00");
    assert!(app.endtime.is_none());
    assert_eq!(app.endtime_input, "25:00");
    assert_eq!(app.notice, Some(Notice::InvalidTime));
    assert_eq!(app.current_screen, CurrentScreen::EditingEndtime);
    app.endtime_input = "17:30".to_string();
    assert!(app.save_endtime_value().is_ok());
    assert_eq!(app.endtime, Some(t("17:30")));
}

#[test]
fn backspace_on_empty_input_keeps_it_empty() {
    let mut app = App::new();
    press(&mut app, Key::Char('s'), "08:00");
    press(&mut app, Key::Backspace, "08:00");
    assert_eq!(app.starttime_input, "");
    press(&mut app, Key::Esc, "08:00");
    assert_eq!(app.current_screen, CurrentScreen::Main);
}

#[test]
fn released_keys_do_nothing() {
    let mut app = App::new();
    let a = app.handle_key(Key::Char('s'), KeyKind::Release, t("08:00"), 0);
    assert_eq!(a, Action::Nothing);
    assert_eq!(app.current_screen, CurrentScreen::Main);
}

#[test]
fn meeting_is_recorded_with_its_minutes() {
    let mut app = App::new();
    app.starttime_input = "09:00".to_string();
    app.save_starttime_value().unwrap();
    press(&mut app, Key::Char('m'), "10:00");
    type_text(&mut app, "sync");
    press(&mut app, Key::Enter, "10:00");
    assert!(app.meeting.running);
    assert_eq!(app.meeting_name, "sync");
    assert_eq!(app.tab, Tab::MeetingNotesTab);
    press(&mut app, Key::Char('M'), "10:15");
    assert!(!app.meeting.running);
    assert_eq!(app.meeting_list.len(), 1);
    assert_eq!(app.meeting_list[0].time_in_meeting, 15);
    app.endtime_input = "17:00".to_string();
    app.save_endtime_value().unwrap();
    let record = app.export_json("2024-01-01".to_string()).unwrap();
    assert_eq!(record.meeting_minutes(), 15);
    assert_eq!(record.starttime, t("09:00"));
    assert_eq!(record.worked_minutes(), 480);
}

#[test]
fn ending_without_a_meeting_changes_nothing() {
    let mut app = App::new();
    app.end_meeting(t("11:00"));
    assert!(app.meeting_list.is_empty());
}

#[test]
fn starting_a_second_meeting_is_ignored() {
    let mut app = App::new();
    app.meeting_name_input = "first".to_string();
    app.start_meeting(t("10:00"));
    app.meeting_name_input = "second".to_string();
    app.start_meeting(t("10:05"));
    assert_eq!(app.meeting_name, "first");
    assert_eq!(app.meeting.start, t("10:00"));
}

#[test]
fn focus_started_and_ended_at_once_lasts_zero_minutes() {
    let mut app = App::new();
    app.start_focus_time(t("14:00"));
    app.end_focus_time(t("14:00"));
    assert_eq!(app.focus_time_list.len(), 1);
    assert_eq!(app.focus_time_list[0].focus_time, 0);
    assert!(!app.focus.running);
}

#[test]
fn focus_key_toggles_on_focus_tab() {
    let mut app = App::new();
    assert_eq!(press(&mut app, Key::Char('F'), "09:00"), Action::Nothing);
    assert!(!app.focus.running);
    app.tab = Tab::FocusTimeTab;
    assert_eq!(press(&mut app, Key::Char('F'), "09:00"), Action::CacheFocus);
    assert!(app.focus.running);
    assert_eq!(app.chache_focus_time(), "true,0");
    assert_eq!(press(&mut app, Key::Char('F'), "09:40"), Action::CacheFocus);
    assert!(!app.focus.running);
    assert_eq!(app.focus_time_list[0].focus_time, 40);
    assert_eq!(app.focus_time_total(), 40);
    assert_eq!(app.chache_focus_time(), "false,0");
}

#[test]
fn ticks_count_minutes() {
    let mut app = App::new();
    app.starttime = Some(t("09:00"));
    app.meeting_name_input = "call".to_string();
    app.start_meeting(t("10:00"));
    app.start_focus_time(t("10:00"));
    let mut cache_requests = 0;
    for _ in 0..125 {
        if app.on_tick(t("10:02")) == Action::CacheFocus {
            cache_requests += 1;
        }
    }
    assert_eq!(app.meeting.minutes, 2);
    assert_eq!(app.meeting.seconds, 5);
    assert_eq!(app.focus.minutes, 2);
    assert_eq!(cache_requests, 2);
    assert_eq!(app.current_worktime, 62);
    assert_eq!(app.total_time_in_meetings, 2);
    assert_eq!(app.chache_focus_time(), "true,2");
}

#[test]
fn worktime_uses_default_start_until_one_is_entered() {
    let mut app = App::new();
    app.on_tick(t("09:45"));
    assert_eq!(app.current_worktime, 60);
    let today = app.current_day_projection(t("10:45"), "2024-09-09".to_string());
    assert_eq!(today.worked_minutes, 120);
    assert_eq!(today.date, "2024-09-09");
}

#[test]
fn projection_adds_running_meeting() {
    let mut app = App::new();
    app.starttime = Some(t("08:00"));
    app.meeting_name_input = "a".to_string();
    app.start_meeting(t("09:00"));
    app.end_meeting(t("09:30"));
    app.start_meeting(t("10:00"));
    for _ in 0..180 {
        app.on_tick(t("10:03"));
    }
    let today = app.current_day_projection(t("10:03"), "2024-09-10".to_string());
    assert_eq!(today.meeting_minutes, 33);
    assert_eq!(today.worked_minutes, 123);
    assert_eq!(app.total_time_in_meetings, 33);
}

#[test]
fn saving_needs_start_and_end() {
    let mut app = App::new();
    press(&mut app, Key::Char('q'), "17:00");
    assert_eq!(app.current_screen, CurrentScreen::Exiting);
    assert_eq!(press(&mut app, Key::Char('y'), "17:00"), Action::Nothing);
    assert_eq!(app.notice, Some(Notice::NotReadyToSave));
    assert_eq!(app.current_screen, CurrentScreen::Main);
    assert!(app.export_json("2024-01-01".to_string()).is_none());
}

#[test]
fn save_flow_and_failed_write() {
    let mut app = App::new();
    app.starttime = Some(t("09:00"));
    app.endtime = Some(t("17:00"));
    press(&mut app, Key::Char('q'), "17:00");
    assert_eq!(press(&mut app, Key::Char('y'), "17:00"), Action::Save);
    app.finish_export(false);
    assert_eq!(app.notice, Some(Notice::SaveFailed));
    assert!(!app.should_exit);
    assert!(app.is_closable());
    press(&mut app, Key::Char('q'), "17:01");
    assert_eq!(press(&mut app, Key::Char('y'), "17:01"), Action::Save);
    app.finish_export(true);
    assert!(app.should_exit);
}

#[test]
fn leaving_exit_screen() {
    let mut app = App::new();
    press(&mut app, Key::Char('q'), "17:00");
    press(&mut app, Key::Char('n'), "17:00");
    assert_eq!(app.current_screen, CurrentScreen::Main);
    press(&mut app, Key::Char('q'), "17:00");
    press(&mut app, Key::Esc, "17:00");
    assert_eq!(app.current_screen, CurrentScreen::Main);
}

#[test]
fn tab_keys_move_between_tabs() {
    let mut app = App::new();
    press(&mut app, Key::Char('l'), "09:00");
    assert_eq!(app.tab, Tab::BarChartTab);
    for _ in 0..5 {
        press(&mut app, Key::Char('r'), "09:00");
    }
    assert_eq!(app.tab, Tab::MeetingNotesTab);
    press(&mut app, Key::Char('l'), "09:00");
    assert_eq!(app.tab, Tab::FocusTimeTab);
    app.next_tab();
    assert_eq!(app.tab, Tab::MeetingNotesTab);
    app.previous_tab();
    assert_eq!(app.tab, Tab::FocusTimeTab);
}

#[test]
fn history_selection_wraps() {
    let mut app = App::new();
    app.tab = Tab::EditHistoryTab;
    app.handle_key(Key::Down, KeyKind::Press, t("09:00"), 3);
    assert_eq!(app.selected_row, Some(0));
    app.handle_key(Key::Down, KeyKind::Press, t("09:00"), 3);
    app.handle_key(Key::Down, KeyKind::Press, t("09:00"), 3);
    assert_eq!(app.selected_row, Some(2));
    app.handle_key(Key::Down, KeyKind::Press, t("09:00"), 3);
    assert_eq!(app.selected_row, Some(0));
    app.handle_key(Key::Up, KeyKind::Press, t("09:00"), 3);
    assert_eq!(app.selected_row, Some(2));
    app.previous_list_item(3);
    assert_eq!(app.selected_row, Some(1));
    app.next_list_item(0);
    assert_eq!(app.selected_row, None);
}

#[test]
fn empty_history_still_selects_a_row() {
    let mut app = App::new();
    app.next_list_item(0);
    assert_eq!(app.selected_row, Some(0));
    let mut app = App::new();
    app.last_selected = Some(4);
    app.previous_list_item(0);
    assert_eq!(app.selected_row, Some(4));
    app.previous_list_item(0);
    assert_eq!(app.selected_row, Some(3));
    app.selected_row = Some(0);
    app.previous_list_item(0);
    assert_eq!(app.selected_row, None);
}

#[test]
fn scrolling_saturates_at_zero() {
    let mut app = App::new();
    press(&mut app, Key::Left, "09:00");
    assert_eq!(app.horizontal_scroll, 0);
    press(&mut app, Key::Right, "09:00");
    press(&mut app, Key::Right, "09:00");
    assert_eq!(app.horizontal_scroll, 2);
}
