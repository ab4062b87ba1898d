//! Decision logic of a desktop brightness notifier.
//!
//! The crate decides; it never spawns a process. A caller hands it plain
//! values (parsed flags, the bytes a backlight tool printed, exit statuses)
//! and receives plain values back (the command lines to run, the lines to
//! print, the exit code).
//!
//! - `request`: the flags as given, and the validated request.
//! - `reading`: the brightness that the backlight tool printed.
//! - `adjust`: what to tell the backlight tool for a relative change.
//! - `icon`: the icon that stands for a brightness.
//! - `command`: the command lines for the backlight and notification tools.
//! - `driver`: the run of one request, step by step.
//! - `decimal`: decimal notation, shared by the modules above.

pub mod adjust;
pub mod command;
pub mod decimal;
pub mod driver;
pub mod icon;
pub mod reading;
pub mod request;
