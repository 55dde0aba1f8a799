//! A small, ergonomic log-line formatter: a fluent builder collects the
//! presentation options, finalization resolves them against the terminal and
//! the environment, and the resulting formatter renders each event into one
//! line of text.

pub mod builder;
pub mod clock;
pub mod colour;
pub mod facility;
pub mod format;
pub mod record;
pub mod selector;
pub mod severity;
pub mod terminal;
pub mod text;

pub use builder::{build, init, LogLogBuilder};
pub use colour::strip_colour;
pub use facility::{Facility, InitError, Logger};
pub use record::Record;
pub use selector::{parse_selector, resolve_selector};
pub use severity::Severity;
