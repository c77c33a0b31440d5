//! A workday time tracker: clock-time parsing, the day records that are kept
//! in an append-only log, the aggregates drawn from them, and the state of the
//! day that is being tracked.

pub mod app;
pub mod barchart;
pub mod calc_time;
pub mod clock;
pub mod focus_cache;
pub mod history;
pub mod record;
pub mod store;
pub mod tabs;
