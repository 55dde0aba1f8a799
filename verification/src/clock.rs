//! The local clock.

use vstd::prelude::*;

verus! {

/// Reads the local time with `chrono::Local::now` and writes it out per the
/// pattern with `chrono::DateTime::format` and `DelayedFormat::write_to`.
/// The text depends on the moment and on the machine's time zone, so nothing
/// is claimed of it. `None` stands for the error that `write_to` reports
/// where the pattern holds a specifier that `chrono` does not know; what was
/// written before the error is dropped. `chrono` takes the system clock to
/// show a moment after the start of 1970.
#[verifier::external_body]
pub(crate) fn local_time(pattern: &str) -> (stamp: Option<String>) {
    let mut text = String::new();
    match chrono::Local::now().format(pattern).write_to(&mut text) {
        Ok(()) => Some(text),
        Err(_) => None,
    }
}

} // verus!
