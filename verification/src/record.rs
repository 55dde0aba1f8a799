//! Log events.

use crate::severity::Severity;
use vstd::prelude::*;

verus! {

/// One log event: how severe it is, which component it comes from, and what
/// it says.
#[derive(Debug)]
pub struct Record {
    /// The severity of the event.
    pub level: Severity,
    /// The name of the component that emitted the event, such as the path of
    /// a module.
    pub target: String,
    /// The text of the event. It may hold line breaks.
    pub message: String,
}

impl Record {
    /// An event with the given severity, origin and message.
    pub fn new(level: Severity, target: &str, message: &str) -> (res: Record)
        ensures
            res.level == level,
            res.target@ == target@,
            res.message@ == message@,
    {
        Record { level, target: target.to_owned(), message: message.to_owned() }
    }
}

} // verus!
