//! Decision logic of the Guardian agent for Linux: command routing and
//! argument checks, schedule and allowed-hours conversion, login-session
//! tracking, account listing and self-update planning.

pub mod commands;
pub mod keyed;
pub mod runtime;
pub mod schedule;
pub mod sessions;
pub mod text;
pub mod updater;
pub mod users;
