//! Terminal colours: the escape codes that wrap a painted text, and their
//! removal.

use crate::text::chars_of;
use vstd::prelude::*;

verus! {

/// The colours the formatter paints with. Every one of them is used in bold.
#[derive(Clone, Copy, Debug, PartialEq, Eq, Structural)]
pub enum Hue {
    Red,
    Green,
    Yellow,
    Blue,
    Purple,
    Cyan,
}

/// The character that starts every escape code.
pub const ESCAPE: char = '\x1b';

/// The escape code that switches the terminal to bold text in the given
/// colour.
pub open spec fn bold_code(hue: Hue) -> Seq<char> {
    match hue {
        Hue::Red => "\x1b[1;31m"@,
        Hue::Green => "\x1b[1;32m"@,
        Hue::Yellow => "\x1b[1;33m"@,
        Hue::Blue => "\x1b[1;34m"@,
        Hue::Purple => "\x1b[1;35m"@,
        Hue::Cyan => "\x1b[1;36m"@,
    }
}

/// The escape code that switches the terminal back to its normal style.
pub open spec fn reset_code() -> Seq<char> {
    "\x1b[0m"@
}

/// A text wrapped in the codes that show it in bold and in the given colour.
pub open spec fn painted(hue: Hue, text: Seq<char>) -> Seq<char> {
    bold_code(hue) + text + reset_code()
}

/// Paints a text in bold and in the given colour with
/// `ansi_term::Colour::bold`, `ansi_term::Style::paint` and the `Display` of
/// the `ANSIString` that comes back. For a style with bold and a foreground
/// colour set, `ansi_term` writes the escape character, `[1;`, the two digits
/// of the foreground colour and `m`, then the text unchanged, then the reset
/// code: this is what the contract claims.
#[verifier::external_body]
pub(crate) fn paint(hue: Hue, text: &str) -> (res: String)
    ensures
        res@ == painted(hue, text@),
{
    let colour = match hue {
        Hue::Red => ansi_term::Colour::Red,
        Hue::Green => ansi_term::Colour::Green,
        Hue::Yellow => ansi_term::Colour::Yellow,
        Hue::Blue => ansi_term::Colour::Blue,
        Hue::Purple => ansi_term::Colour::Purple,
        Hue::Cyan => ansi_term::Colour::Cyan,
    };
    colour.bold().paint(text).to_string()
}

/// Whether a character can stand among the parameters of a colour code: a
/// decimal digit or a semicolon.
pub open spec fn is_code_param(c: char) -> bool {
    ('0' <= c && c <= '9') || c == ';'
}

/// How many parameter characters follow one another in `text` from the
/// position `from` on.
pub open spec fn params_run(text: Seq<char>, from: int) -> nat
    decreases text.len() - from,
{
    if 0 <= from < text.len() && is_code_param(text[from]) {
        1 + params_run(text, from + 1)
    } else {
        0
    }
}

/// The length of the colour code that `text` begins with, or 0 if it begins
/// with none. A colour code is the escape character, `[`, any number of
/// parameter characters and `m`.
pub open spec fn code_len(text: Seq<char>) -> nat {
    if text.len() >= 2 && text[0] == ESCAPE && text[1] == '[' {
        let run = params_run(text, 2) as int;
        if 2 + run < text.len() && text[2 + run] == 'm' {
            (3 + run) as nat
        } else {
            0
        }
    } else {
        0
    }
}

/// The text without its colour codes: reading from the left, every colour
/// code is left out and every other character is kept.
pub open spec fn stripped(text: Seq<char>) -> Seq<char>
    decreases text.len(),
{
    if text.len() == 0 {
        text
    } else if code_len(text) > 0 {
        stripped(text.skip(code_len(text) as int))
    } else {
        seq![text[0]] + stripped(text.skip(1))
    }
}

/// Whether a text holds no colour code.
pub open spec fn is_colour_free(text: Seq<char>) -> bool {
    stripped(text) == text
}

/// A run of parameter characters ends where the text ends or where the first
/// other character stands.
pub proof fn lemma_params_run_bounds(text: Seq<char>, from: int)
    requires
        0 <= from <= text.len(),
    ensures
        from + params_run(text, from) <= text.len(),
        forall|i: int| from <= i < from + params_run(text, from) ==> is_code_param(text[i]),
        from + params_run(text, from) < text.len() ==> !is_code_param(
            text[from + params_run(text, from) as int],
        ),
    decreases text.len() - from,
{
    if from < text.len() && is_code_param(text[from]) {
        lemma_params_run_bounds(text, from + 1);
    }
}

/// A run of parameter characters is as long as the stretch of them that
/// starts at `from`.
pub proof fn lemma_params_run_is(text: Seq<char>, from: int, end: int)
    requires
        0 <= from <= end <= text.len(),
        forall|i: int| from <= i < end ==> is_code_param(text[i]),
        end < text.len() ==> !is_code_param(text[end]),
    ensures
        params_run(text, from) == end - from,
    decreases end - from,
{
    if from < end {
        lemma_params_run_is(text, from + 1, end);
    }
}

/// Whether a character, standing right after a text, keeps the end of that
/// text from growing into a colour code: it is none of the characters that a
/// colour code holds after its first.
pub open spec fn closes_text(c: char) -> bool {
    c != '[' && c != 'm' && !is_code_param(c)
}

/// A colour code at the head of a text stays one whatever follows the text.
pub proof fn lemma_code_len_prefix(text: Seq<char>, tail: Seq<char>)
    requires
        code_len(text) > 0,
    ensures
        code_len(text + tail) == code_len(text),
{
    let whole = text + tail;
    let run = params_run(text, 2) as int;
    lemma_params_run_bounds(text, 2);
    assert forall|i: int| 2 <= i < 2 + run implies is_code_param(whole[i]) by {
        assert(whole[i] == text[i]);
    }
    assert(whole[2 + run] == text[2 + run]);
    lemma_params_run_is(whole, 2, 2 + run);
    assert(whole[0] == text[0]);
    assert(whole[1] == text[1]);
}

/// Where a text begins with no colour code, it still begins with none when a
/// tail follows whose first character closes the text.
pub proof fn lemma_code_len_closed(text: Seq<char>, tail: Seq<char>)
    requires
        text.len() > 0,
        code_len(text) == 0,
        tail.len() == 0 || closes_text(tail[0]),
    ensures
        code_len(text + tail) == 0,
{
    let whole = text + tail;
    assert(whole[0] == text[0]);
    if tail.len() == 0 {
        assert(whole == text);
    } else if text[0] == ESCAPE {
        if text.len() == 1 {
            assert(whole[1] == tail[0]);
        } else {
            assert(whole[1] == text[1]);
            if text[1] == '[' {
                let run = params_run(text, 2) as int;
                lemma_params_run_bounds(text, 2);
                assert forall|i: int| 2 <= i < 2 + run implies is_code_param(whole[i]) by {
                    assert(whole[i] == text[i]);
                }
                if 2 + run < text.len() {
                    assert(whole[2 + run] == text[2 + run]);
                } else {
                    assert(whole[2 + run] == tail[0]);
                }
                lemma_params_run_is(whole, 2, 2 + run);
            }
        }
    }
}

/// Stripping goes through a join whose right part is empty or begins with a
/// character that closes the left part.
pub proof fn lemma_strip_split(text: Seq<char>, tail: Seq<char>)
    requires
        tail.len() == 0 || closes_text(tail[0]),
    ensures
        stripped(text + tail) == stripped(text) + stripped(tail),
    decreases text.len(),
{
    let whole = text + tail;
    if text.len() == 0 {
        assert(whole == tail);
        assert(stripped(text) + stripped(tail) == stripped(tail));
    } else if code_len(text) > 0 {
        let n = code_len(text) as int;
        lemma_code_len_prefix(text, tail);
        assert(whole.skip(n) == text.skip(n) + tail);
        lemma_strip_split(text.skip(n), tail);
    } else {
        lemma_code_len_closed(text, tail);
        assert(whole.skip(1) == text.skip(1) + tail);
        lemma_strip_split(text.skip(1), tail);
        assert(whole[0] == text[0]);
        assert(seq![text[0]] + (stripped(text.skip(1)) + stripped(tail)) == (seq![text[0]]
            + stripped(text.skip(1))) + stripped(tail));
    }
}

/// A colour code at the head of a text is all that stripping removes there.
pub proof fn lemma_strip_code_head(code: Seq<char>, rest: Seq<char>)
    requires
        code.len() > 0,
        code_len(code) == code.len(),
    ensures
        stripped(code + rest) == stripped(rest),
{
    lemma_code_len_prefix(code, rest);
    assert((code + rest).skip(code.len() as int) == rest);
}

/// Stripping keeps a head in which the escape character does not occur.
pub proof fn lemma_strip_plain_head(plain: Seq<char>, rest: Seq<char>)
    requires
        forall|i: int| 0 <= i < plain.len() ==> plain[i] != ESCAPE,
    ensures
        stripped(plain + rest) == plain + stripped(rest),
    decreases plain.len(),
{
    let whole = plain + rest;
    if plain.len() == 0 {
        assert(whole == rest);
        assert(plain + stripped(rest) == stripped(rest));
    } else {
        assert(whole[0] == plain[0]);
        assert(whole.skip(1) == plain.skip(1) + rest);
        assert forall|i: int| 0 <= i < plain.skip(1).len() implies plain.skip(1)[i] != ESCAPE by {
            assert(plain.skip(1)[i] == plain[i + 1]);
        }
        lemma_strip_plain_head(plain.skip(1), rest);
        assert(seq![plain[0]] + (plain.skip(1) + stripped(rest)) == plain + stripped(rest));
    }
}

/// The code that begins a painted text and the code that ends it are colour
/// codes from their first character to their last.
pub proof fn lemma_codes_are_codes(hue: Hue)
    ensures
        bold_code(hue).len() == 7,
        code_len(bold_code(hue)) == 7,
        reset_code().len() == 4,
        code_len(reset_code()) == 4,
        reset_code()[0] == ESCAPE,
{
    reveal_strlit("\x1b[1;31m");
    reveal_strlit("\x1b[1;32m");
    reveal_strlit("\x1b[1;33m");
    reveal_strlit("\x1b[1;34m");
    reveal_strlit("\x1b[1;35m");
    reveal_strlit("\x1b[1;36m");
    reveal_strlit("\x1b[0m");
    lemma_params_run_is(bold_code(hue), 2, 6);
    lemma_params_run_is(reset_code(), 2, 3);
}

/// Stripping a painted text leaves the text itself, stripped, whatever
/// follows it.
pub proof fn lemma_strip_painted(hue: Hue, text: Seq<char>, rest: Seq<char>)
    ensures
        stripped(painted(hue, text) + rest) == stripped(text) + stripped(rest),
{
    lemma_codes_are_codes(hue);
    let tail = reset_code() + rest;
    assert(painted(hue, text) + rest == bold_code(hue) + (text + tail));
    lemma_strip_code_head(bold_code(hue), text + tail);
    assert(tail[0] == ESCAPE);
    lemma_strip_split(text, tail);
    lemma_strip_code_head(reset_code(), rest);
}

/// The index just past the colour code that begins at `start`, or `start`
/// itself where none begins there.
fn code_end(chars: &Vec<char>, start: usize) -> (end: usize)
    requires
        start < chars.len(),
    ensures
        end == start + code_len(chars@.skip(start as int)),
        end <= chars.len(),
{
    let ghost rest = chars@.skip(start as int);
    let n = chars.len();
    if chars[start] != ESCAPE || n - start < 2 || chars[start + 1] != '[' {
        return start;
    }
    let mut at: usize = start + 2;
    while at < n && is_param(chars[at])
        invariant
            n == chars.len(),
            start + 2 <= at <= n,
            rest == chars@.skip(start as int),
            forall|i: int| 2 <= i < at - start ==> is_code_param(rest[i]),
        decreases n - at,
    {
        at += 1;
    }
    proof {
        lemma_params_run_is(rest, 2, at - start);
    }
    if at < n && chars[at] == 'm' {
        at + 1
    } else {
        start
    }
}

/// Whether a character can stand among the parameters of a colour code.
fn is_param(c: char) -> (res: bool)
    ensures
        res == is_code_param(c),
{
    ('0' <= c && c <= '9') || c == ';'
}

/// Removes the colour codes from a text.
pub fn strip_colour(text: &str) -> (res: String)
    ensures
        res@ == stripped(text@),
{
    let chars = chars_of(text);
    let n = chars.len();
    let mut out = String::new();
    let mut at: usize = 0;
    assert(chars@.skip(0) == chars@);
    while at < n
        invariant
            n == chars.len(),
            at <= n,
            stripped(chars@) == out@ + stripped(chars@.skip(at as int)),
        decreases n - at,
    {
        let ghost rest = chars@.skip(at as int);
        let end = code_end(&chars, at);
        if end > at {
            assert(rest.skip(end - at) == chars@.skip(end as int));
            at = end;
        } else {
            assert(rest.skip(1) == chars@.skip(at + 1));
            out.push(chars[at]);
            at += 1;
        }
    }
    assert(chars@.skip(n as int).len() == 0);
    out
}

} // verus!
