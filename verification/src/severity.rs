//! Severity levels and their fixed-width display tags.

use crate::colour::Hue;
use vstd::prelude::*;

verus! {

/// How important an event is. The levels are ordered from the least to the
/// most important: `Trace < Debug < Info < Warn < Error`.
#[derive(Clone, Copy, Debug, PartialEq, Eq, Structural)]
pub enum Severity {
    Trace,
    Debug,
    Info,
    Warn,
    Error,
}

/// The bracketed label of a level, padded so that every label has the same
/// width.
pub open spec fn bare_tag(level: Severity) -> Seq<char> {
    match level {
        Severity::Trace => "[TRACE]"@,
        Severity::Debug => "[DEBUG]"@,
        Severity::Info => "[INFO ]"@,
        Severity::Warn => "[WARN ]"@,
        Severity::Error => "[ERROR]"@,
    }
}

/// The colour of the label of a level.
pub open spec fn level_hue(level: Severity) -> Hue {
    match level {
        Severity::Trace => Hue::Blue,
        Severity::Debug => Hue::Cyan,
        Severity::Info => Hue::Green,
        Severity::Warn => Hue::Yellow,
        Severity::Error => Hue::Red,
    }
}

/// The width, in characters, of every label.
pub const TAG_WIDTH: usize = 7;

impl Severity {
    /// The position of the level in the order of importance, from 0 for
    /// `Trace` to 4 for `Error`.
    pub open spec fn rank(self) -> nat {
        match self {
            Severity::Trace => 0,
            Severity::Debug => 1,
            Severity::Info => 2,
            Severity::Warn => 3,
            Severity::Error => 4,
        }
    }

    /// The position of the level in the order of importance.
    pub fn position(self) -> (res: u8)
        ensures
            res == self.rank(),
    {
        match self {
            Severity::Trace => 0,
            Severity::Debug => 1,
            Severity::Info => 2,
            Severity::Warn => 3,
            Severity::Error => 4,
        }
    }

    /// The colour of the label of the level.
    pub fn hue(self) -> (res: Hue)
        ensures
            res == level_hue(self),
    {
        match self {
            Severity::Trace => Hue::Blue,
            Severity::Debug => Hue::Cyan,
            Severity::Info => Hue::Green,
            Severity::Warn => Hue::Yellow,
            Severity::Error => Hue::Red,
        }
    }

    /// The label of the level, without colour.
    pub fn tag(self) -> (res: &'static str)
        ensures
            res@ == bare_tag(self),
    {
        match self {
            Severity::Trace => "[TRACE]",
            Severity::Debug => "[DEBUG]",
            Severity::Info => "[INFO ]",
            Severity::Warn => "[WARN ]",
            Severity::Error => "[ERROR]",
        }
    }
}

/// Every label is exactly seven characters wide, and no two levels share a
/// label.
pub proof fn lemma_tags_aligned_and_distinct(a: Severity, b: Severity)
    ensures
        bare_tag(a).len() == TAG_WIDTH,
        a != b ==> bare_tag(a) != bare_tag(b),
{
    reveal_strlit("[TRACE]");
    reveal_strlit("[DEBUG]");
    reveal_strlit("[INFO ]");
    reveal_strlit("[WARN ]");
    reveal_strlit("[ERROR]");
    if a != b {
        // Two labels differ at the second or third character.
        assert(bare_tag(a)[1] != bare_tag(b)[1] || bare_tag(a)[2] != bare_tag(b)[2]);
    }
}

} // verus!
