//! Keeps a time-bounded "child" role in step with each member's local clock.
//!
//! A member holding the baseline "parent" role receives the child role while
//! their local hour lies in the daily window `[start_hour, end_hour)`, and
//! loses it outside that window. Each reconciliation tick re-derives the
//! desired state from scratch, so a missed correction is retried on the next
//! tick without any bookkeeping.

pub mod window;
pub mod timezone;
pub mod config;
pub mod reconcile;
pub mod settle;
pub mod supervisor;

pub use config::{Configuration, InvalidTimezone, UserData, set_timezone};
pub use reconcile::{Correction, GroupView, RoleChange, decide, plan_tick, MAX_INSTANT};
pub use supervisor::GroupRegistry;
pub use window::in_window;
