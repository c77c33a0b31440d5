//! The state of the day that is being tracked, and how it answers keys and
//! the clock's ticks.

use crate::barchart::{current_day_projection, DaySummary};
use crate::calc_time::{
    elapsed, elapsed_minutes, is_time_text, parse_time, push_char, time_text_minutes, FormatError,
    TimeOfDay,
};
use crate::focus_cache::{cache_text, focus_cache_text};
use crate::record::{
    copy_focus_times, copy_meetings, focus_total, meeting_total, sum_focus_minutes,
    sum_meeting_minutes, FocusTime, MeetingList, Worktime,
};
use crate::tabs::{next_tab, prev_tab, EditHistoryTab, FocusTimeTab, Tab};
use vstd::prelude::*;

verus! {

/// The screen the user is on.
#[derive(Debug, Clone, Copy, PartialEq, Eq, Structural)]
pub enum CurrentScreen {
    Main,
    EditingStarttime,
    EditingEndtime,
    EditingMeetingName,
    Exiting,
}

/// The input the user is typing into.
#[derive(Debug, Clone, Copy, PartialEq, Eq, Structural)]
pub enum CurrentlyEditing {
    Starttime,
    Endtime,
    MeetingName,
}

/// A key the user pressed.
#[derive(Debug, Clone, Copy, PartialEq, Eq, Structural)]
pub enum Key {
    Char(char),
    Enter,
    Backspace,
    Esc,
    Left,
    Right,
    Up,
    Down,
    Other,
}

/// Whether a key went down, repeats, or came up.
#[derive(Debug, Clone, Copy, PartialEq, Eq, Structural)]
pub enum KeyKind {
    Press,
    Repeat,
    Release,
}

/// A message for the user about the last command.
#[derive(Debug, Clone, Copy, PartialEq, Eq, Structural)]
pub enum Notice {
    /// The text entered is not a time of day; it was kept for correction.
    InvalidTime,
    /// Saving needs both the start and the end of the day.
    NotReadyToSave,
    /// The day could not be written; nothing was lost and saving may be
    /// tried again.
    SaveFailed,
}

/// What the caller has to carry out after a command.
#[derive(Debug, Clone, Copy, PartialEq, Eq, Structural)]
pub enum Action {
    Nothing,
    /// Write the focus cache text.
    CacheFocus,
    /// Write the day's record to the log, then report how it went.
    Save,
}

/// A running or stopped stopwatch that counts whole minutes from one-second
/// ticks.
#[derive(Debug, Clone, Copy, PartialEq, Eq, Structural)]
pub struct Timer {
    pub running: bool,
    /// When it was last started.
    pub start: TimeOfDay,
    /// Whole minutes counted since then.
    pub minutes: u64,
    /// Ticks since the last whole minute.
    pub seconds: u32,
}

/// One more minute, where there is room for it.
pub open spec fn next_minute(m: u64) -> u64 {
    if m < u64::MAX {
        (m + 1) as u64
    } else {
        m
    }
}

/// The timer after one tick: a running timer counts a second, and the
/// sixtieth second makes a minute.
pub open spec fn ticked(t: Timer) -> Timer {
    if !t.running {
        t
    } else if t.seconds >= 59 {
        Timer { seconds: 0, minutes: next_minute(t.minutes), ..t }
    } else {
        Timer { seconds: (t.seconds + 1) as u32, ..t }
    }
}

/// Whether a tick of `t` completes a minute.
pub open spec fn completes_minute(t: Timer) -> bool {
    t.running && t.seconds >= 59
}

impl Timer {
    /// A stopped timer.
    pub fn stopped(at: TimeOfDay) -> (t: Timer)
        ensures
            t == (Timer { running: false, start: at, minutes: 0, seconds: 0 }),
    {
        Timer { running: false, start: at, minutes: 0, seconds: 0 }
    }

    /// Starts counting from zero at `now`.
    pub fn start(&mut self, now: TimeOfDay)
        ensures
            *final(self) == (Timer { running: true, start: now, minutes: 0, seconds: 0 }),
    {
        *self = Timer { running: true, start: now, minutes: 0, seconds: 0 };
    }

    /// Stops and clears the count; the start is kept.
    pub fn stop(&mut self)
        ensures
            *final(self) == (Timer { running: false, minutes: 0, seconds: 0, ..*old(self) }),
    {
        self.running = false;
        self.minutes = 0;
        self.seconds = 0;
    }

    /// Counts one second; true where that completed a minute.
    pub fn tick(&mut self) -> (rolled: bool)
        ensures
            *final(self) == ticked(*old(self)),
            rolled == completes_minute(*old(self)),
    {
        if !self.running {
            false
        } else if self.seconds >= 59 {
            self.seconds = 0;
            if self.minutes < u64::MAX {
                self.minutes = self.minutes + 1;
            }
            true
        } else {
            self.seconds = self.seconds + 1;
            false
        }
    }
}

/// Relies on String::pop: the last character, if any, is removed.
#[verifier::external_body]
fn pop_char(s: &mut String)
    ensures
        old(s)@.len() > 0 ==> final(s)@ == old(s)@.drop_last(),
        old(s)@.len() == 0 ==> final(s)@ == old(s)@,
{
    s.pop();
}

/// The selection after moving down a list of `len` rows: the row below, and
/// the first row after the last. Where nothing was selected, the row selected
/// before, or else the first. A row selected in an empty list is let go.
pub open spec fn next_selection(sel: Option<usize>, last: Option<usize>, len: usize) -> Option<
    usize,
> {
    match sel {
        Some(i) => if len == 0 {
            None
        } else if i >= len - 1 {
            Some(0)
        } else {
            Some((i + 1) as usize)
        },
        None => Some(
            match last {
                Some(l) => l,
                None => 0,
            },
        ),
    }
}

/// The selection after moving up a list of `len` rows: the row above, and the
/// last row before the first. Where nothing was selected, the row selected
/// before, or else the first. The first row selected in an empty list is let
/// go.
pub open spec fn previous_selection(sel: Option<usize>, last: Option<usize>, len: usize) -> Option<
    usize,
> {
    match sel {
        Some(i) => if i > 0 {
            Some((i - 1) as usize)
        } else if len == 0 {
            None
        } else {
            Some((len - 1) as usize)
        },
        None => Some(
            match last {
                Some(l) => l,
                None => 0,
            },
        ),
    }
}

/// The day being tracked: the start and end entered so far, the meetings and
/// focus intervals that ended, the ones running, and what the screen shows.
pub struct App {
    pub starttime_input: String,
    pub starttime: Option<TimeOfDay>,
    pub endtime_input: String,
    pub endtime: Option<TimeOfDay>,
    /// The start assumed while none has been entered.
    pub default_starttime: TimeOfDay,
    pub current_screen: CurrentScreen,
    pub currently_editing: Option<CurrentlyEditing>,
    pub notice: Option<Notice>,
    pub meeting_name_input: String,
    pub meeting_name: String,
    pub meeting: Timer,
    pub meeting_list: Vec<MeetingList>,
    pub focus: Timer,
    pub focus_time_list: Vec<FocusTime>,
    /// Minutes worked so far, as of the last tick.
    pub current_worktime: i32,
    /// Minutes in meetings so far, as of the last tick.
    pub total_time_in_meetings: u128,
    pub horizontal_scroll: usize,
    pub selected_row: Option<usize>,
    pub last_selected: Option<usize>,
    pub tab: Tab,
    pub focus_time_tab: FocusTimeTab,
    pub edit_history_tab: EditHistoryTab,
    pub do_print: bool,
    pub should_exit: bool,
}

/// Minutes the timer has counted while it runs, none while it is stopped.
pub open spec fn running_minutes(t: Timer) -> nat {
    if t.running {
        t.minutes as nat
    } else {
        0
    }
}

impl App {
    /// The start of work that counts: the one entered, or else the default.
    pub open spec fn effective_start(self) -> TimeOfDay {
        match self.starttime {
            Some(t) => t,
            None => self.default_starttime,
        }
    }

    /// Both the start and the end of the day have been entered.
    pub open spec fn closable(self) -> bool {
        self.starttime is Some && self.endtime is Some
    }

    /// `new` is this state after the start input was accepted as the start.
    pub open spec fn start_saved(self, new: App) -> bool {
        &&& new.starttime matches Some(t) && t@ == time_text_minutes(self.starttime_input@)
        &&& new.starttime_input@ == Seq::<char>::empty()
        &&& new == (App {
            starttime: new.starttime,
            starttime_input: new.starttime_input,
            currently_editing: None,
            current_screen: CurrentScreen::Main,
            ..self
        })
    }

    /// `new` is this state after the end input was accepted as the end.
    pub open spec fn end_saved(self, new: App) -> bool {
        &&& new.endtime matches Some(t) && t@ == time_text_minutes(self.endtime_input@)
        &&& new.endtime_input@ == Seq::<char>::empty()
        &&& new == (App {
            endtime: new.endtime,
            endtime_input: new.endtime_input,
            currently_editing: None,
            current_screen: CurrentScreen::Main,
            ..self
        })
    }

    /// `new` is this state after a meeting named by the name input started
    /// at `now`.
    pub open spec fn meeting_started(self, new: App, now: TimeOfDay) -> bool {
        &&& new.meeting_name@ == self.meeting_name_input@
        &&& new.meeting_name_input@ == Seq::<char>::empty()
        &&& new == (App {
            meeting_name: new.meeting_name,
            meeting_name_input: new.meeting_name_input,
            meeting: Timer { running: true, start: now, minutes: 0, seconds: 0 },
            currently_editing: None,
            current_screen: CurrentScreen::Main,
            tab: Tab::MeetingNotesTab,
            ..self
        })
    }

    /// `new` is this state after the running meeting ended at `now` and was
    /// added to the meetings of the day.
    pub open spec fn meeting_ended(self, new: App, now: TimeOfDay) -> bool {
        &&& new.meeting_list@ == self.meeting_list@.push(
            MeetingList {
                meeting_name: self.meeting_name,
                meeting_start_time: self.meeting.start,
                meeting_end_time: now,
                time_in_meeting: elapsed(self.meeting.start@, now@) as u32,
            },
        )
        &&& new == (App {
            meeting_list: new.meeting_list,
            meeting: Timer { running: false, minutes: 0, seconds: 0, ..self.meeting },
            ..self
        })
    }

    /// `new` is this state after the running focus interval ended at `now`
    /// and was added to the focus intervals of the day.
    pub open spec fn focus_ended(self, new: App, now: TimeOfDay) -> bool {
        &&& new.focus_time_list@ == self.focus_time_list@.push(
            FocusTime {
                focus_time_start: self.focus.start,
                focus_time_end: now,
                focus_time: elapsed(self.focus.start@, now@) as u32,
            },
        )
        &&& new == (App {
            focus_time_list: new.focus_time_list,
            focus: Timer { running: false, minutes: 0, seconds: 0, ..self.focus },
            ..self
        })
    }

    /// A day with nothing entered yet; work is assumed to start at 08:45.
    pub fn new() -> (app: App)
        ensures
            app.starttime_input@ == Seq::<char>::empty(),
            app.starttime is None,
            app.endtime_input@ == Seq::<char>::empty(),
            app.endtime is None,
            app.default_starttime@ == 8 * 60 + 45,
            app.current_screen == CurrentScreen::Main,
            app.currently_editing is None,
            app.notice is None,
            app.meeting_name_input@ == Seq::<char>::empty(),
            app.meeting_name@ == Seq::<char>::empty(),
            !app.meeting.running,
            app.meeting.minutes == 0,
            app.meeting.seconds == 0,
            app.meeting_list@ == Seq::<MeetingList>::empty(),
            !app.focus.running,
            app.focus.minutes == 0,
            app.focus.seconds == 0,
            app.focus_time_list@ == Seq::<FocusTime>::empty(),
            app.current_worktime == 0,
            app.total_time_in_meetings == 0,
            app.horizontal_scroll == 0,
            app.selected_row is None,
            app.last_selected is None,
            app.tab == Tab::BarChartTab,
            app.focus_time_tab.row() == 0,
            app.edit_history_tab.row() == 0,
            !app.do_print,
            !app.should_exit,
    {
        let default_start = TimeOfDay::from_minutes(8 * 60 + 45);
        App {
            starttime_input: String::new(),
            starttime: None,
            endtime_input: String::new(),
            endtime: None,
            default_starttime: default_start,
            current_screen: CurrentScreen::Main,
            currently_editing: None,
            notice: None,
            meeting_name_input: String::new(),
            meeting_name: String::new(),
            meeting: Timer::stopped(default_start),
            meeting_list: Vec::new(),
            focus: Timer::stopped(default_start),
            focus_time_list: Vec::new(),
            current_worktime: 0,
            total_time_in_meetings: 0,
            horizontal_scroll: 0,
            selected_row: None,
            last_selected: None,
            tab: Tab::BarChartTab,
            focus_time_tab: FocusTimeTab::new(),
            edit_history_tab: EditHistoryTab::new(),
            do_print: false,
            should_exit: false,
        }
    }

    /// Shows the tab to the right.
    pub fn next_tab(&mut self)
        ensures
            *final(self) == (App { tab: final(self).tab, ..*old(self) }),
            final(self).tab == next_tab(old(self).tab),
    {
        self.tab = self.tab.next();
    }

    /// Shows the tab to the left.
    pub fn previous_tab(&mut self)
        ensures
            *final(self) == (App { tab: final(self).tab, ..*old(self) }),
            final(self).tab == prev_tab(old(self).tab),
    {
        self.tab = self.tab.prev();
    }

    /// Takes the start input as the start of the day, where it reads as a
    /// time, and leaves the editor. Text that is not a time is refused and
    /// everything is left as it was, the input included.
    pub fn save_starttime_value(&mut self) -> (r: Result<(), FormatError>)
        ensures
            r is Ok <==> is_time_text(old(self).starttime_input@),
            r is Ok ==> old(self).start_saved(*final(self)),
            r is Err ==> *final(self) == *old(self),
    {
        match parse_time(self.starttime_input.as_str()) {
            Ok(t) => {
                self.starttime = Some(t);
                self.starttime_input = String::new();
                self.currently_editing = None;
                self.current_screen = CurrentScreen::Main;
                Ok(())
            },
            Err(e) => Err(e),
        }
    }

    /// Takes the end input as the end of the day, where it reads as a time,
    /// and leaves the editor. Text that is not a time is refused and
    /// everything is left as it was, the input included.
    pub fn save_endtime_value(&mut self) -> (r: Result<(), FormatError>)
        ensures
            r is Ok <==> is_time_text(old(self).endtime_input@),
            r is Ok ==> old(self).end_saved(*final(self)),
            r is Err ==> *final(self) == *old(self),
    {
        match parse_time(self.endtime_input.as_str()) {
            Ok(t) => {
                self.endtime = Some(t);
                self.endtime_input = String::new();
                self.currently_editing = None;
                self.current_screen = CurrentScreen::Main;
                Ok(())
            },
            Err(e) => Err(e),
        }
    }

    /// Starts a meeting at `now`, named by the name input, and shows the
    /// meeting tab. While a meeting runs, nothing happens.
    pub fn start_meeting(&mut self, now: TimeOfDay)
        ensures
            old(self).meeting.running ==> *final(self) == *old(self),
            !old(self).meeting.running ==> old(self).meeting_started(*final(self), now),
    {
        if self.meeting.running {
            return;
        }
        self.meeting_name = self.meeting_name_input.clone();
        self.meeting_name_input = String::new();
        self.meeting.start(now);
        self.currently_editing = None;
        self.current_screen = CurrentScreen::Main;
        self.tab = Tab::MeetingNotesTab;
    }

    /// Ends the running meeting at `now` and adds it to the day's meetings,
    /// with the minutes from its start to `now`. Without a running meeting,
    /// nothing happens.
    pub fn end_meeting(&mut self, now: TimeOfDay)
        ensures
            !old(self).meeting.running ==> *final(self) == *old(self),
            old(self).meeting.running ==> old(self).meeting_ended(*final(self), now),
    {
        if !self.meeting.running {
            return;
        }
        let meeting = MeetingList {
            meeting_name: self.meeting_name.clone(),
            meeting_start_time: self.meeting.start,
            meeting_end_time: now,
            time_in_meeting: elapsed_minutes(self.meeting.start, now),
        };
        self.meeting_list.push(meeting);
        self.meeting.stop();
    }

    /// Starts a focus interval at `now`. While one runs, nothing happens.
    pub fn start_focus_time(&mut self, now: TimeOfDay)
        ensures
            old(self).focus.running ==> *final(self) == *old(self),
            !old(self).focus.running ==> *final(self) == (App {
                focus: Timer { running: true, start: now, minutes: 0, seconds: 0 },
                ..*old(self)
            }),
    {
        if self.focus.running {
            return;
        }
        self.focus.start(now);
    }

    /// Ends the running focus interval at `now` and adds it to the day's
    /// focus intervals, with the minutes from its start to `now`. Without a
    /// running interval, nothing happens.
    pub fn end_focus_time(&mut self, now: TimeOfDay)
        ensures
            !old(self).focus.running ==> *final(self) == *old(self),
            old(self).focus.running ==> old(self).focus_ended(*final(self), now),
    {
        if !self.focus.running {
            return;
        }
        let interval = FocusTime {
            focus_time_start: self.focus.start,
            focus_time_end: now,
            focus_time: elapsed_minutes(self.focus.start, now),
        };
        self.focus_time_list.push(interval);
        self.focus.stop();
    }

    /// Minutes of the focus intervals that ended today.
    pub fn focus_time_total(&self) -> (m: u128)
        ensures
            m == focus_total(self.focus_time_list@),
    {
        sum_focus_minutes(&self.focus_time_list)
    }

    /// The focus cache text: whether focus time runs, and its minutes.
    pub fn chache_focus_time(&self) -> (s: String)
        ensures
            s@ == cache_text(self.focus.running, self.focus.minutes as nat),
    {
        focus_cache_text(self.focus.running, self.focus.minutes)
    }

    /// Selects the row above in a list of `data_len` rows.
    pub fn previous_list_item(&mut self, data_len: usize)
        ensures
            *final(self) == (App {
                selected_row: previous_selection(
                    old(self).selected_row,
                    old(self).last_selected,
                    data_len,
                ),
                ..*old(self)
            }),
    {
        let next = match self.selected_row {
            Some(i) => if i > 0 {
                Some(i - 1)
            } else if data_len == 0 {
                None
            } else {
                Some(data_len - 1)
            },
            None => Some(self.last_selected.unwrap_or(0)),
        };
        self.selected_row = next;
    }

    /// Selects the row below in a list of `data_len` rows.
    pub fn next_list_item(&mut self, data_len: usize)
        ensures
            *final(self) == (App {
                selected_row: next_selection(
                    old(self).selected_row,
                    old(self).last_selected,
                    data_len,
                ),
                ..*old(self)
            }),
    {
        let next = match self.selected_row {
            Some(i) => if data_len == 0 {
                None
            } else if i >= data_len - 1 {
                Some(0)
            } else {
                Some(i + 1)
            },
            None => Some(self.last_selected.unwrap_or(0)),
        };
        self.selected_row = next;
    }

    /// Whether the day can be saved: both its start and its end are entered.
    pub fn is_closable(&self) -> (b: bool)
        ensures
            b == self.closable(),
    {
        self.starttime.is_some() && self.endtime.is_some()
    }

    /// The record of the day under `date`, where it can be saved: its start,
    /// its end, and the meetings and focus intervals that ended, in order.
    /// Meetings and focus intervals still running are not part of it. The
    /// state is left as it is, so a failed write loses nothing.
    pub fn export_json(&self, date: String) -> (r: Option<Worktime>)
        ensures
            r is Some <==> self.closable(),
            r matches Some(w) ==> {
                &&& w.date == date
                &&& Some(w.starttime) == self.starttime
                &&& Some(w.endtime) == self.endtime
                &&& w.meetings@ == self.meeting_list@
                &&& w.focus_time@ == self.focus_time_list@
            },
    {
        match (self.starttime, self.endtime) {
            (Some(start), Some(end)) => Some(
                Worktime::new(
                    date,
                    start,
                    end,
                    copy_meetings(&self.meeting_list),
                    copy_focus_times(&self.focus_time_list),
                ),
            ),
            _ => None,
        }
    }

    /// Takes note of how writing the day's record went: once written, the
    /// day is closed and the program may end; otherwise the day stays as it
    /// is, back on the main screen, with a notice.
    pub fn finish_export(&mut self, written: bool)
        ensures
            written ==> *final(self) == (App { do_print: true, should_exit: true, ..*old(self) }),
            !written ==> *final(self) == (App {
                notice: Some(Notice::SaveFailed),
                current_screen: CurrentScreen::Main,
                ..*old(self)
            }),
    {
        if written {
            self.do_print = true;
            self.should_exit = true;
        } else {
            self.notice = Some(Notice::SaveFailed);
            self.current_screen = CurrentScreen::Main;
        }
    }

    /// The aggregate of today at `now`, under `date`: minutes since the start
    /// of work (the default start while none is entered), and the minutes of
    /// meetings and focus intervals, ended or running.
    pub fn current_day_projection(&self, now: TimeOfDay, date: String) -> (s: DaySummary)
        ensures
            s.date == date,
            s.worked_minutes == now@ - self.effective_start()@,
            s.meeting_minutes == meeting_total(self.meeting_list@) + running_minutes(self.meeting),
            s.focus_minutes == focus_total(self.focus_time_list@) + running_minutes(self.focus),
    {
        let start = match self.starttime {
            Some(t) => t,
            None => self.default_starttime,
        };
        let closed_meetings = sum_meeting_minutes(&self.meeting_list);
        let closed_focus = sum_focus_minutes(&self.focus_time_list);
        let running_meeting = if self.meeting.running {
            self.meeting.minutes
        } else {
            0
        };
        let running_focus = if self.focus.running {
            self.focus.minutes
        } else {
            0
        };
        current_day_projection(
            date,
            start,
            now,
            closed_meetings,
            running_meeting,
            closed_focus,
            running_focus,
        )
    }

    /// Advances the clock by one second at time `now`: running timers count
    /// it, and the minutes worked and spent in meetings so far are brought up
    /// to date. Asks for the focus cache to be written when a minute of
    /// focus time is complete.
    pub fn on_tick(&mut self, now: TimeOfDay) -> (a: Action)
        ensures
            final(self).meeting == ticked(old(self).meeting),
            final(self).focus == ticked(old(self).focus),
            final(self).current_worktime == now@ - old(self).effective_start()@,
            final(self).total_time_in_meetings == meeting_total(old(self).meeting_list@)
                + running_minutes(final(self).meeting),
            *final(self) == (App {
                meeting: final(self).meeting,
                focus: final(self).focus,
                current_worktime: final(self).current_worktime,
                total_time_in_meetings: final(self).total_time_in_meetings,
                ..*old(self)
            }),
            a == (if completes_minute(old(self).focus) {
                Action::CacheFocus
            } else {
                Action::Nothing
            }),
    {
        self.meeting.tick();
        let rolled = self.focus.tick();
        let today = self.current_day_projection(now, String::new());
        self.current_worktime = today.worked_minutes;
        self.total_time_in_meetings = today.meeting_minutes;
        if rolled {
            Action::CacheFocus
        } else {
            Action::Nothing
        }
    }

    /// This state with no notice.
    pub open spec fn without_notice(self) -> App {
        App { notice: None, ..self }
    }

    /// This state on `screen`, typing into `field`.
    pub open spec fn editing(self, screen: CurrentScreen, field: Option<CurrentlyEditing>) -> App {
        App { current_screen: screen, currently_editing: field, ..self }
    }

    /// What a key does on the main screen, from this state to `new`.
    pub open spec fn main_key_effect(
        self,
        new: App,
        key: Key,
        now: TimeOfDay,
        rows: usize,
        a: Action,
    ) -> bool {
        match key {
            Key::Char('s') => new == self.editing(
                CurrentScreen::EditingStarttime,
                Some(CurrentlyEditing::Starttime),
            ) && a == Action::Nothing,
            Key::Char('e') => new == self.editing(
                CurrentScreen::EditingEndtime,
                Some(CurrentlyEditing::Endtime),
            ) && a == Action::Nothing,
            Key::Char('m') => new == self.editing(
                CurrentScreen::EditingMeetingName,
                Some(CurrentlyEditing::MeetingName),
            ) && a == Action::Nothing,
            Key::Char('M') => a == Action::Nothing && if self.meeting.running {
                self.meeting_ended(new, now)
            } else {
                new == self
            },
            Key::Char('q') => new == (App { current_screen: CurrentScreen::Exiting, ..self })
                && a == Action::Nothing,
            Key::Char('r') => new == (App { tab: next_tab(self.tab), ..self }) && a
                == Action::Nothing,
            Key::Char('l') => new == (App { tab: prev_tab(self.tab), ..self }) && a
                == Action::Nothing,
            Key::Right => new == (App {
                horizontal_scroll: if self.horizontal_scroll < usize::MAX {
                    (self.horizontal_scroll + 1) as usize
                } else {
                    self.horizontal_scroll
                },
                ..self
            }) && a == Action::Nothing,
            Key::Left => new == (App {
                horizontal_scroll: if self.horizontal_scroll > 0 {
                    (self.horizontal_scroll - 1) as usize
                } else {
                    0
                },
                ..self
            }) && a == Action::Nothing,
            Key::Down => a == Action::Nothing && if self.tab == Tab::EditHistoryTab {
                new == (App {
                    selected_row: next_selection(self.selected_row, self.last_selected, rows),
                    ..self
                })
            } else {
                new == self
            },
            Key::Up => a == Action::Nothing && if self.tab == Tab::EditHistoryTab {
                new == (App {
                    selected_row: previous_selection(self.selected_row, self.last_selected, rows),
                    ..self
                })
            } else {
                new == self
            },
            Key::Char('F') => if self.tab == Tab::FocusTimeTab {
                a == Action::CacheFocus && if self.focus.running {
                    self.focus_ended(new, now)
                } else {
                    new == (App {
                        focus: Timer { running: true, start: now, minutes: 0, seconds: 0 },
                        ..self
                    })
                }
            } else {
                new == self && a == Action::Nothing
            },
            _ => new == self && a == Action::Nothing,
        }
    }

    /// What a key does on the exit screen, from this state to `new`: `y`
    /// asks for the day to be saved where it can be, `n` and Esc go back.
    pub open spec fn exiting_key_effect(self, new: App, key: Key, a: Action) -> bool {
        match key {
            Key::Char('y') => if self.closable() {
                new == self && a == Action::Save
            } else {
                new == (App {
                    notice: Some(Notice::NotReadyToSave),
                    current_screen: CurrentScreen::Main,
                    ..self
                }) && a == Action::Nothing
            },
            Key::Char('n') | Key::Esc => new == (App {
                current_screen: CurrentScreen::Main,
                ..self
            }) && a == Action::Nothing,
            _ => new == self && a == Action::Nothing,
        }
    }

    /// What Backspace or a character typed into `field` does to its text,
    /// from `input` to `typed`: Backspace removes the last character and a
    /// character is added at the end, only while `field` is the input being
    /// edited.
    pub open spec fn typing_effect(
        self,
        key: Key,
        field: CurrentlyEditing,
        input: Seq<char>,
        typed: Seq<char>,
    ) -> bool {
        if self.currently_editing != Some(field) {
            typed == input
        } else {
            match key {
                Key::Backspace => typed == (if input.len() > 0 {
                    input.drop_last()
                } else {
                    input
                }),
                Key::Char(c) => typed == input.push(c),
                _ => typed == input,
            }
        }
    }

    /// The effect of Enter in the start editor, from this state to `new`.
    pub open spec fn submit_start(self, new: App) -> bool {
        if is_time_text(self.starttime_input@) {
            self.start_saved(new)
        } else {
            new == (App { notice: Some(Notice::InvalidTime), ..self })
        }
    }

    /// The effect of Enter in the end editor, from this state to `new`.
    pub open spec fn submit_end(self, new: App) -> bool {
        if is_time_text(self.endtime_input@) {
            self.end_saved(new)
        } else {
            new == (App { notice: Some(Notice::InvalidTime), ..self })
        }
    }

    /// The effect of Enter in the meeting name editor, from this state to
    /// `new`.
    pub open spec fn submit_name(self, new: App, now: TimeOfDay) -> bool {
        if self.meeting.running {
            new == self.editing(CurrentScreen::Main, None)
        } else {
            self.meeting_started(new, now)
        }
    }

    /// What a key does in the start editor, from this state to `new`.
    pub open spec fn start_editor_effect(self, new: App, key: Key) -> bool {
        let active = self.currently_editing == Some(CurrentlyEditing::Starttime);
        match key {
            Key::Enter => if active {
                self.submit_start(new)
            } else {
                new == self
            },
            Key::Esc => new == self.editing(CurrentScreen::Main, None),
            Key::Backspace | Key::Char(_) => new == (App {
                starttime_input: new.starttime_input,
                ..self
            }) && self.typing_effect(
                key,
                CurrentlyEditing::Starttime,
                self.starttime_input@,
                new.starttime_input@,
            ),
            _ => new == self,
        }
    }

    /// What a key does in the end editor, from this state to `new`.
    pub open spec fn end_editor_effect(self, new: App, key: Key) -> bool {
        let active = self.currently_editing == Some(CurrentlyEditing::Endtime);
        match key {
            Key::Enter => if active {
                self.submit_end(new)
            } else {
                new == self
            },
            Key::Esc => new == self.editing(CurrentScreen::Main, None),
            Key::Backspace | Key::Char(_) => new == (App {
                endtime_input: new.endtime_input,
                ..self
            }) && self.typing_effect(
                key,
                CurrentlyEditing::Endtime,
                self.endtime_input@,
                new.endtime_input@,
            ),
            _ => new == self,
        }
    }

    /// What a key does in the meeting name editor, from this state to `new`.
    pub open spec fn name_editor_effect(self, new: App, key: Key, now: TimeOfDay) -> bool {
        let active = self.currently_editing == Some(CurrentlyEditing::MeetingName);
        match key {
            Key::Enter => if active {
                self.submit_name(new, now)
            } else {
                new == self
            },
            Key::Esc => new == self.editing(CurrentScreen::Main, None),
            Key::Backspace | Key::Char(_) => new == (App {
                meeting_name_input: new.meeting_name_input,
                ..self
            }) && self.typing_effect(
                key,
                CurrentlyEditing::MeetingName,
                self.meeting_name_input@,
                new.meeting_name_input@,
            ),
            _ => new == self,
        }
    }

    /// Answers a key of `kind` at time `now`, where the history list has
    /// `rows` rows, and says what the caller has to carry out. A released
    /// key does nothing; any other clears the notice first. In the editors
    /// only key presses count.
    pub fn handle_key(&mut self, key: Key, kind: KeyKind, now: TimeOfDay, rows: usize) -> (a: Action)
        ensures
            kind == KeyKind::Release ==> *final(self) == *old(self) && a == Action::Nothing,
            kind != KeyKind::Release ==> match old(self).current_screen {
                CurrentScreen::Main => old(self).without_notice().main_key_effect(
                    *final(self),
                    key,
                    now,
                    rows,
                    a,
                ),
                CurrentScreen::Exiting => old(self).without_notice().exiting_key_effect(
                    *final(self),
                    key,
                    a,
                ),
                CurrentScreen::EditingStarttime => a == Action::Nothing && if kind
                    == KeyKind::Press {
                    old(self).without_notice().start_editor_effect(*final(self), key)
                } else {
                    *final(self) == old(self).without_notice()
                },
                CurrentScreen::EditingEndtime => a == Action::Nothing && if kind
                    == KeyKind::Press {
                    old(self).without_notice().end_editor_effect(*final(self), key)
                } else {
                    *final(self) == old(self).without_notice()
                },
                CurrentScreen::EditingMeetingName => a == Action::Nothing && if kind
                    == KeyKind::Press {
                    old(self).without_notice().name_editor_effect(*final(self), key, now)
                } else {
                    *final(self) == old(self).without_notice()
                },
            },
    {
        if kind == KeyKind::Release {
            return Action::Nothing;
        }
        self.notice = None;
        match self.current_screen {
            CurrentScreen::Main => self.main_key(key, now, rows),
            CurrentScreen::Exiting => self.exiting_key(key),
            CurrentScreen::EditingStarttime => {
                if kind == KeyKind::Press {
                    self.start_editor_key(key);
                }
                Action::Nothing
            },
            CurrentScreen::EditingEndtime => {
                if kind == KeyKind::Press {
                    self.end_editor_key(key);
                }
                Action::Nothing
            },
            CurrentScreen::EditingMeetingName => {
                if kind == KeyKind::Press {
                    self.name_editor_key(key, now);
                }
                Action::Nothing
            },
        }
    }

    fn main_key(&mut self, key: Key, now: TimeOfDay, rows: usize) -> (a: Action)
        ensures
            old(self).main_key_effect(*final(self), key, now, rows, a),
    {
        match key {
            Key::Char('s') => {
                self.current_screen = CurrentScreen::EditingStarttime;
                self.currently_editing = Some(CurrentlyEditing::Starttime);
                Action::Nothing
            },
            Key::Char('e') => {
                self.current_screen = CurrentScreen::EditingEndtime;
                self.currently_editing = Some(CurrentlyEditing::Endtime);
                Action::Nothing
            },
            Key::Char('m') => {
                self.current_screen = CurrentScreen::EditingMeetingName;
                self.currently_editing = Some(CurrentlyEditing::MeetingName);
                Action::Nothing
            },
            Key::Char('M') => {
                self.end_meeting(now);
                Action::Nothing
            },
            Key::Char('q') => {
                self.current_screen = CurrentScreen::Exiting;
                Action::Nothing
            },
            Key::Char('r') => {
                self.next_tab();
                Action::Nothing
            },
            Key::Char('l') => {
                self.previous_tab();
                Action::Nothing
            },
            Key::Right => {
                self.horizontal_scroll = self.horizontal_scroll.saturating_add(1);
                Action::Nothing
            },
            Key::Left => {
                self.horizontal_scroll = self.horizontal_scroll.saturating_sub(1);
                Action::Nothing
            },
            Key::Down => {
                if self.tab == Tab::EditHistoryTab {
                    self.next_list_item(rows);
                }
                Action::Nothing
            },
            Key::Up => {
                if self.tab == Tab::EditHistoryTab {
                    self.previous_list_item(rows);
                }
                Action::Nothing
            },
            Key::Char('F') => {
                if self.tab == Tab::FocusTimeTab {
                    if self.focus.running {
                        self.end_focus_time(now);
                    } else {
                        self.start_focus_time(now);
                    }
                    Action::CacheFocus
                } else {
                    Action::Nothing
                }
            },
            _ => Action::Nothing,
        }
    }

    fn exiting_key(&mut self, key: Key) -> (a: Action)
        ensures
            old(self).exiting_key_effect(*final(self), key, a),
    {
        match key {
            Key::Char('y') => {
                if self.is_closable() {
                    Action::Save
                } else {
                    self.notice = Some(Notice::NotReadyToSave);
                    self.current_screen = CurrentScreen::Main;
                    Action::Nothing
                }
            },
            Key::Char('n') | Key::Esc => {
                self.current_screen = CurrentScreen::Main;
                Action::Nothing
            },
            _ => Action::Nothing,
        }
    }

    fn start_editor_key(&mut self, key: Key)
        ensures
            old(self).start_editor_effect(*final(self), key),
    {
        let active = self.currently_editing == Some(CurrentlyEditing::Starttime);
        match key {
            Key::Enter => {
                if active {
                    if self.save_starttime_value().is_err() {
                        self.notice = Some(Notice::InvalidTime);
                    }
                }
            },
            Key::Esc => {
                self.current_screen = CurrentScreen::Main;
                self.currently_editing = None;
            },
            Key::Backspace => {
                if active {
                    pop_char(&mut self.starttime_input);
                }
            },
            Key::Char(c) => {
                if active {
                    push_char(&mut self.starttime_input, c);
                }
            },
            _ => {},
        }
    }

    fn end_editor_key(&mut self, key: Key)
        ensures
            old(self).end_editor_effect(*final(self), key),
    {
        let active = self.currently_editing == Some(CurrentlyEditing::Endtime);
        match key {
            Key::Enter => {
                if active {
                    if self.save_endtime_value().is_err() {
                        self.notice = Some(Notice::InvalidTime);
                    }
                }
            },
            Key::Esc => {
                self.current_screen = CurrentScreen::Main;
                self.currently_editing = None;
            },
            Key::Backspace => {
                if active {
                    pop_char(&mut self.endtime_input);
                }
            },
            Key::Char(c) => {
                if active {
                    push_char(&mut self.endtime_input, c);
                }
            },
            _ => {},
        }
    }

    fn name_editor_key(&mut self, key: Key, now: TimeOfDay)
        ensures
            old(self).name_editor_effect(*final(self), key, now),
    {
        let active = self.currently_editing == Some(CurrentlyEditing::MeetingName);
        match key {
            Key::Enter => {
                if active {
                    if self.meeting.running {
                        self.current_screen = CurrentScreen::Main;
                        self.currently_editing = None;
                    } else {
                        self.start_meeting(now);
                    }
                }
            },
            Key::Esc => {
                self.current_screen = CurrentScreen::Main;
                self.currently_editing = None;
            },
            Key::Backspace => {
                if active {
                    pop_char(&mut self.meeting_name_input);
                }
            },
            Key::Char(c) => {
                if active {
                    push_char(&mut self.meeting_name_input, c);
                }
            },
            _ => {},
        }
    }
}

/// A focus interval that is ended at the same time it was started, with no
/// tick between, lasts zero minutes: starting and ending are the only steps
/// from `before` to `after`.
pub proof fn lemma_immediate_focus_is_empty(before: App, started: App, after: App, now: TimeOfDay)
    requires
        !before.focus.running,
        started == (App {
            focus: Timer { running: true, start: now, minutes: 0, seconds: 0 },
            ..before
        }),
        started.focus_ended(after, now),
    ensures
        after.focus_time_list@.len() == before.focus_time_list@.len() + 1,
        after.focus_time_list@.last().focus_time == 0,
        after.focus_time_list@.last().focus_time_start == now,
        after.focus_time_list@.last().focus_time_end == now,
        !after.focus.running,
{
}

} // verus!
