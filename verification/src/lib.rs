//! A bridge between a program and a console that takes one line of text at a
//! time.
//!
//! A [`Console`] is the record of what the console has been handed, oldest line
//! first. [`console_log`] hands it a text as it stands, [`console_log_any`] the
//! `Debug` rendering of a value. Each delivery hands over exactly one line, and
//! the lines stay in the order of the calls. A value whose `Debug` impl reports
//! an error has no rendering: nothing is delivered for it, and the caller is
//! told.

pub mod console;
pub mod order;

pub use console::{console_log, console_log_any, console_log_rendering, Console};
