//! Severity selectors: the text that names the least severity to let
//! through, where it comes from and how it is read.

use crate::severity::Severity;
use crate::text::chars_of;
use vstd::prelude::*;

verus! {

/// Whether `text` spells a name, letter by letter, each letter in either
/// case. `lower` and `upper` hold the name in lower and in upper case.
pub open spec fn spells(text: Seq<char>, lower: Seq<char>, upper: Seq<char>) -> bool {
    &&& text.len() == lower.len()
    &&& forall|i: int| 0 <= i < text.len() ==> (text[i] == lower[i] || text[i] == upper[i])
}

/// The severity that a selector names, if it names one: a selector is the
/// name of a severity, in any mix of upper and lower case, and nothing else.
pub open spec fn selector_level(text: Seq<char>) -> Option<Severity> {
    if spells(text, "trace"@, "TRACE"@) {
        Some(Severity::Trace)
    } else if spells(text, "debug"@, "DEBUG"@) {
        Some(Severity::Debug)
    } else if spells(text, "info"@, "INFO"@) {
        Some(Severity::Info)
    } else if spells(text, "warn"@, "WARN"@) {
        Some(Severity::Warn)
    } else if spells(text, "error"@, "ERROR"@) {
        Some(Severity::Error)
    } else {
        None
    }
}

/// The selector used where neither the builder nor the environment gives
/// one.
pub open spec fn default_selector() -> Seq<char> {
    "debug"@
}

/// The selector in force: the one given to the builder, else the one from
/// the environment, else the default.
pub open spec fn resolved_selector(
    explicit: Option<Seq<char>>,
    environment: Option<Seq<char>>,
) -> Seq<char> {
    match explicit {
        Some(selector) => selector,
        None => match environment {
            Some(selector) => selector,
            None => default_selector(),
        },
    }
}

/// Whether the characters spell the name given in lower and in upper case.
fn spells_name(chars: &Vec<char>, lower: &str, upper: &str) -> (res: bool)
    requires
        lower@.len() == upper@.len(),
    ensures
        res == spells(chars@, lower@, upper@),
{
    let low = chars_of(lower);
    let up = chars_of(upper);
    if chars.len() != low.len() {
        return false;
    }
    let mut at: usize = 0;
    while at < chars.len()
        invariant
            at <= chars.len(),
            chars.len() == low.len(),
            low@ == lower@,
            up@ == upper@,
            lower@.len() == upper@.len(),
            forall|i: int| 0 <= i < at ==> (chars@[i] == low@[i] || chars@[i] == up@[i]),
        decreases chars.len() - at,
    {
        if chars[at] != low[at] && chars[at] != up[at] {
            assert(chars@[at as int] != lower@[at as int]);
            return false;
        }
        at += 1;
    }
    true
}

/// Reads a selector: the severity it names, or `None` where it names none.
pub fn parse_selector(text: &str) -> (res: Option<Severity>)
    ensures
        res == selector_level(text@),
{
    proof {
        reveal_strlit("trace");
        reveal_strlit("TRACE");
        reveal_strlit("debug");
        reveal_strlit("DEBUG");
        reveal_strlit("info");
        reveal_strlit("INFO");
        reveal_strlit("warn");
        reveal_strlit("WARN");
        reveal_strlit("error");
        reveal_strlit("ERROR");
    }
    let chars = chars_of(text);
    if spells_name(&chars, "trace", "TRACE") {
        Some(Severity::Trace)
    } else if spells_name(&chars, "debug", "DEBUG") {
        Some(Severity::Debug)
    } else if spells_name(&chars, "info", "INFO") {
        Some(Severity::Info)
    } else if spells_name(&chars, "warn", "WARN") {
        Some(Severity::Warn)
    } else if spells_name(&chars, "error", "ERROR") {
        Some(Severity::Error)
    } else {
        None
    }
}

/// Picks the selector in force: the one given to the builder, else the one
/// from the environment, else the default.
pub fn resolve_selector(explicit: Option<String>, environment: Option<String>) -> (res: String)
    ensures
        res@ == resolved_selector(explicit.deep_view(), environment.deep_view()),
{
    match explicit {
        Some(selector) => selector,
        None => match environment {
            Some(selector) => selector,
            None => "debug".to_owned(),
        },
    }
}

/// A selector given to the builder wins over the environment, the
/// environment wins over the default, and the default names `Debug`.
pub proof fn lemma_selector_precedence(
    explicit: Seq<char>,
    environment: Seq<char>,
    any_environment: Option<Seq<char>>,
)
    ensures
        resolved_selector(Some(explicit), any_environment) == explicit,
        resolved_selector(None, Some(environment)) == environment,
        resolved_selector(None, None) == default_selector(),
        selector_level(default_selector()) == Some(Severity::Debug),
{
    reveal_strlit("trace");
    reveal_strlit("TRACE");
    reveal_strlit("debug");
    reveal_strlit("DEBUG");
    assert(!spells(default_selector(), "trace"@, "TRACE"@)) by {
        assert(default_selector()[0] == 'd');
    }
}

/// The empty text is no selector.
pub proof fn lemma_empty_selector_names_nothing()
    ensures
        selector_level(Seq::<char>::empty()) is None,
{
    reveal_strlit("trace");
    reveal_strlit("debug");
    reveal_strlit("info");
    reveal_strlit("warn");
    reveal_strlit("error");
}

} // verus!
