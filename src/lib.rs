//! Per-user bedtime reminders: the daily trigger, the reminder loop's
//! decisions, each user's schedule state machine and the registry of users.

pub mod clock;
pub mod nag;
pub mod schedule;
pub mod state;
