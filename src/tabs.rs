//! The tabs of the dashboard and the row each list tab has selected.

use vstd::prelude::*;
use vstd::string::StringExecFns;

verus! {

/// The tabs, in the order they are shown.
#[derive(Debug, Clone, Copy, PartialEq, Eq, Structural)]
pub enum Tab {
    BarChartTab,
    EditHistoryTab,
    FocusTimeTab,
    MeetingNotesTab,
}

/// A tab's place in the row of tabs.
pub open spec fn tab_index(t: Tab) -> nat {
    match t {
        Tab::BarChartTab => 0,
        Tab::EditHistoryTab => 1,
        Tab::FocusTimeTab => 2,
        Tab::MeetingNotesTab => 3,
    }
}

/// The tab to the right of `t`; the last tab has none and stays.
pub open spec fn next_tab(t: Tab) -> Tab {
    match t {
        Tab::BarChartTab => Tab::EditHistoryTab,
        Tab::EditHistoryTab => Tab::FocusTimeTab,
        Tab::FocusTimeTab => Tab::MeetingNotesTab,
        Tab::MeetingNotesTab => Tab::MeetingNotesTab,
    }
}

/// The tab to the left of `t`; the first tab has none and stays.
pub open spec fn prev_tab(t: Tab) -> Tab {
    match t {
        Tab::BarChartTab => Tab::BarChartTab,
        Tab::EditHistoryTab => Tab::BarChartTab,
        Tab::FocusTimeTab => Tab::EditHistoryTab,
        Tab::MeetingNotesTab => Tab::FocusTimeTab,
    }
}

/// The number of tabs.
pub const TAB_COUNT: usize = 4;

/// The label of a tab in the tab row: none for the chart tab, the tab's name
/// between spaces for the others.
pub open spec fn tab_title(t: Tab) -> Seq<char> {
    match t {
        Tab::BarChartTab => Seq::<char>::empty(),
        Tab::EditHistoryTab => " EditHistoryTab "@,
        Tab::FocusTimeTab => " FocusTimeTab "@,
        Tab::MeetingNotesTab => " MeetingNotesTab "@,
    }
}

impl Default for Tab {
    fn default() -> (t: Tab)
        ensures
            t == Tab::BarChartTab,
    {
        Tab::BarChartTab
    }
}

impl Tab {
    /// The tab's place in the row of tabs.
    pub fn index(self) -> (i: usize)
        ensures
            i == tab_index(self),
    {
        match self {
            Tab::BarChartTab => 0,
            Tab::EditHistoryTab => 1,
            Tab::FocusTimeTab => 2,
            Tab::MeetingNotesTab => 3,
        }
    }

    /// The tab at place `i`, if there is one.
    pub fn from_index(i: usize) -> (t: Option<Tab>)
        ensures
            t is Some <==> i < TAB_COUNT,
            t matches Some(tab) ==> tab_index(tab) == i,
    {
        match i {
            0 => Some(Tab::BarChartTab),
            1 => Some(Tab::EditHistoryTab),
            2 => Some(Tab::FocusTimeTab),
            3 => Some(Tab::MeetingNotesTab),
            _ => None,
        }
    }

    /// The tab to the right; the last tab stays where it is.
    pub fn next(self) -> (t: Tab)
        ensures
            t == next_tab(self),
    {
        let i = self.index();
        match Tab::from_index(i + 1) {
            Some(t) => t,
            None => self,
        }
    }

    /// The tab to the left; the first tab stays where it is.
    pub fn prev(self) -> (t: Tab)
        ensures
            t == prev_tab(self),
    {
        let i = self.index();
        let j = if i > 0 {
            i - 1
        } else {
            0
        };
        match Tab::from_index(j) {
            Some(t) => t,
            None => self,
        }
    }

    /// The label of the tab in the tab row.
    pub fn title(self) -> (s: String)
        ensures
            s@ == tab_title(self),
    {
        match self {
            Tab::BarChartTab => String::new(),
            Tab::EditHistoryTab => String::from_str(" EditHistoryTab "),
            Tab::FocusTimeTab => String::from_str(" FocusTimeTab "),
            Tab::MeetingNotesTab => String::from_str(" MeetingNotesTab "),
        }
    }
}

/// The tab that lists the recorded days, with the row it has selected.
#[derive(Debug, Clone, Copy, Default, PartialEq, Eq, Structural)]
pub struct EditHistoryTab {
    row_index: usize,
}

impl EditHistoryTab {
    /// The tab with the first row selected.
    pub fn new() -> (t: EditHistoryTab)
        ensures
            t.row() == 0,
    {
        EditHistoryTab { row_index: 0 }
    }

    /// The selected row.
    pub closed spec fn row(self) -> nat {
        self.row_index as nat
    }

    /// The selected row.
    pub fn row_index(&self) -> (i: usize)
        ensures
            i == self.row(),
    {
        self.row_index
    }

    /// Selects the row above; the first row stays selected.
    pub fn previous(&mut self)
        ensures
            final(self).row() == if old(self).row() > 0 {
                old(self).row() - 1
            } else {
                0
            },
    {
        self.row_index = self.row_index.saturating_sub(1);
    }

    /// Selects the row below, up to the largest index there is.
    pub fn next(&mut self)
        ensures
            final(self).row() == if old(self).row() < usize::MAX {
                old(self).row() + 1
            } else {
                usize::MAX as nat
            },
    {
        self.row_index = self.row_index.saturating_add(1);
    }
}

/// The tab that shows focus time, with the row it has selected.
#[derive(Debug, Clone, Copy, Default, PartialEq, Eq, Structural)]
pub struct FocusTimeTab {
    row_index: usize,
}

impl FocusTimeTab {
    /// The tab with the first row selected.
    pub fn new() -> (t: FocusTimeTab)
        ensures
            t.row() == 0,
    {
        FocusTimeTab { row_index: 0 }
    }

    /// The selected row.
    pub closed spec fn row(self) -> nat {
        self.row_index as nat
    }

    /// The selected row.
    pub fn row_index(&self) -> (i: usize)
        ensures
            i == self.row(),
    {
        self.row_index
    }

    /// Selects the row above; the first row stays selected.
    pub fn previous(&mut self)
        ensures
            final(self).row() == if old(self).row() > 0 {
                old(self).row() - 1
            } else {
                0
            },
    {
        self.row_index = self.row_index.saturating_sub(1);
    }

    /// Selects the row below, up to the largest index there is.
    pub fn next(&mut self)
        ensures
            final(self).row() == if old(self).row() < usize::MAX {
                old(self).row() + 1
            } else {
                usize::MAX as nat
            },
    {
        self.row_index = self.row_index.saturating_add(1);
    }
}

} // verus!
