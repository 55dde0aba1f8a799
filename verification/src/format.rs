//! What a rendered line is: the settings that shape it, its segments, and
//! the laws that hold of it.

use crate::colour::{
    is_colour_free, lemma_strip_painted, lemma_strip_plain_head, lemma_strip_split, painted,
    stripped, Hue, ESCAPE,
};
use crate::severity::{bare_tag, level_hue, Severity};
use vstd::prelude::*;

verus! {

/// The presentation options, as plain values.
#[verifier::ext_equal]
pub struct Settings {
    /// The pattern the time stamp is written with, its trailing space
    /// included.
    pub time_format: Seq<char>,
    /// Whether a line starts with a time stamp.
    pub show_time: bool,
    /// Whether a line names the origin of its event.
    pub show_target: bool,
    /// Whether the segments of a line are painted.
    pub show_colour: bool,
    /// The severity selector given to the builder, if one was given.
    pub selector: Option<Seq<char>>,
    /// Whether lines go to the standard output rather than the standard
    /// error.
    pub use_stdout: bool,
}

/// The options a new builder starts with: time stamps of hours, minutes and
/// seconds, no origin, colours, no selector, output to the standard error.
pub open spec fn default_settings() -> Settings {
    Settings {
        time_format: "%T "@,
        show_time: true,
        show_target: false,
        show_colour: true,
        selector: None,
        use_stdout: false,
    }
}

/// The label of a level in colour.
pub open spec fn colour_tag(level: Severity) -> Seq<char> {
    painted(level_hue(level), bare_tag(level))
}

/// The first segment of a line. `clock` is what the clock gave for the
/// pattern: the time stamp, or `None` where it could not write one. The
/// segment is empty where time stamps are off or the clock gave none; else
/// it is the time stamp, painted purple where colours are on.
pub open spec fn time_segment(settings: Settings, clock: Option<Seq<char>>) -> Seq<char> {
    match clock {
        Some(stamp) if settings.show_time => if settings.show_colour {
            painted(Hue::Purple, stamp)
        } else {
            stamp
        },
        _ => Seq::empty(),
    }
}

/// The second segment of a line: the label of the level, in colour where
/// colours are on.
pub open spec fn level_segment(settings: Settings, level: Severity) -> Seq<char> {
    if settings.show_colour {
        colour_tag(level)
    } else {
        bare_tag(level)
    }
}

/// The origin as a line shows it: after a space, in round brackets.
pub open spec fn origin_text(target: Seq<char>) -> Seq<char> {
    " ("@ + target + ")"@
}

/// The third segment of a line: empty where origins are off; else the origin
/// in its brackets, painted purple where colours are on.
pub open spec fn origin_segment(settings: Settings, target: Seq<char>) -> Seq<char> {
    if !settings.show_target {
        Seq::empty()
    } else if settings.show_colour {
        painted(Hue::Purple, origin_text(target))
    } else {
        origin_text(target)
    }
}

/// All of a line that comes before the message: the three segments and one
/// space.
pub open spec fn line_head(
    settings: Settings,
    clock: Option<Seq<char>>,
    level: Severity,
    target: Seq<char>,
) -> Seq<char> {
    time_segment(settings, clock) + level_segment(settings, level) + origin_segment(
        settings,
        target,
    ) + " "@
}

/// A rendered line: its head, then the message as it is. No line break
/// follows.
pub open spec fn line(
    settings: Settings,
    clock: Option<Seq<char>>,
    level: Severity,
    target: Seq<char>,
    message: Seq<char>,
) -> Seq<char> {
    line_head(settings, clock, level, target) + message
}

/// The settings with colours switched on or off.
pub open spec fn with_colour(settings: Settings, show: bool) -> Settings {
    Settings { show_colour: show, ..settings }
}

/// The message ends the line, character for character, whatever it holds:
/// the line is a head that does not depend on the message, followed by the
/// message.
pub proof fn lemma_message_is_verbatim(
    settings: Settings,
    clock: Option<Seq<char>>,
    level: Severity,
    target: Seq<char>,
    message: Seq<char>,
    other: Seq<char>,
)
    ensures
        line_head(settings, clock, level, target).len() + message.len() == line(
            settings,
            clock,
            level,
            target,
            message,
        ).len(),
        line(settings, clock, level, target, message).skip(
            line_head(settings, clock, level, target).len() as int,
        ) == message,
        line(settings, clock, level, target, message).take(
            line_head(settings, clock, level, target).len() as int,
        ) == line(settings, clock, level, target, other).take(
            line_head(settings, clock, level, target).len() as int,
        ),
        line_head(settings, clock, level, target).last() == ' ',
{
    reveal_strlit(" ");
    let head = line_head(settings, clock, level, target);
    assert(line(settings, clock, level, target, message).take(head.len() as int) == head);
    assert(line(settings, clock, level, target, other).take(head.len() as int) == head);
}

/// With time stamps off a line starts with the label of its level, and with
/// origins off the label is followed at once by the space before the
/// message.
pub proof fn lemma_hidden_segments_are_empty(
    settings: Settings,
    clock: Option<Seq<char>>,
    level: Severity,
    target: Seq<char>,
    message: Seq<char>,
)
    ensures
        !settings.show_time ==> line(settings, clock, level, target, message) == level_segment(
            settings,
            level,
        ) + origin_segment(settings, target) + " "@ + message,
        !settings.show_target ==> line(settings, clock, level, target, message) == time_segment(
            settings,
            clock,
        ) + level_segment(settings, level) + " "@ + message,
        !settings.show_time && !settings.show_target ==> line(
            settings,
            clock,
            level,
            target,
            message,
        ) == level_segment(settings, level) + " "@ + message,
{
    let time = time_segment(settings, clock);
    let label = level_segment(settings, level);
    let origin = origin_segment(settings, target);
    if !settings.show_time {
        assert(time + label == label);
    }
    if !settings.show_target {
        assert(time + label + origin == time + label);
    }
}

/// No label holds the escape character.
proof fn lemma_tag_is_plain(level: Severity)
    ensures
        forall|i: int| 0 <= i < bare_tag(level).len() ==> bare_tag(level)[i] != ESCAPE,
{
    reveal_strlit("[TRACE]");
    reveal_strlit("[DEBUG]");
    reveal_strlit("[INFO ]");
    reveal_strlit("[WARN ]");
    reveal_strlit("[ERROR]");
}

/// Stripping the origin in its brackets strips the origin and keeps the
/// brackets.
proof fn lemma_strip_origin_text(target: Seq<char>)
    ensures
        stripped(origin_text(target)) == origin_text(stripped(target)),
{
    reveal_strlit(" (");
    reveal_strlit(")");
    let close = ")"@;
    assert(origin_text(target) == " ("@ + (target + close));
    lemma_strip_plain_head(" ("@, target + close);
    lemma_strip_split(target, close);
    lemma_strip_plain_head(close, Seq::empty());
    assert(close + Seq::<char>::empty() == close);
    assert(close + stripped(Seq::<char>::empty()) == close);
    assert(" ("@ + (stripped(target) + close) == origin_text(stripped(target)));
}

/// What the clock gave, without its colour codes.
pub open spec fn stripped_clock(clock: Option<Seq<char>>) -> Option<Seq<char>> {
    match clock {
        Some(stamp) => Some(stripped(stamp)),
        None => None,
    }
}

/// Stripping a painted time segment and what follows it leaves the bare
/// segment of the stripped time stamp, and what follows, stripped.
proof fn lemma_strip_time_segment(settings: Settings, clock: Option<Seq<char>>, rest: Seq<char>)
    ensures
        stripped(time_segment(with_colour(settings, true), clock) + rest) == time_segment(
            with_colour(settings, false),
            stripped_clock(clock),
        ) + stripped(rest),
{
    if settings.show_time && clock is Some {
        lemma_strip_painted(Hue::Purple, clock->0, rest);
    } else {
        assert(Seq::<char>::empty() + rest == rest);
        assert(Seq::<char>::empty() + stripped(rest) == stripped(rest));
    }
}

/// Stripping a painted label and what follows it leaves the bare label, and
/// what follows, stripped.
proof fn lemma_strip_level_segment(settings: Settings, level: Severity, rest: Seq<char>)
    ensures
        stripped(level_segment(with_colour(settings, true), level) + rest) == level_segment(
            with_colour(settings, false),
            level,
        ) + stripped(rest),
{
    let tag = bare_tag(level);
    let nothing = Seq::<char>::empty();
    lemma_strip_painted(level_hue(level), tag, rest);
    lemma_tag_is_plain(level);
    lemma_strip_plain_head(tag, nothing);
    assert(tag + nothing == tag);
    assert(tag + stripped(nothing) == tag);
}

/// Stripping a painted origin segment and what follows it leaves the bare
/// segment of the stripped origin, and what follows, stripped.
proof fn lemma_strip_origin_segment(settings: Settings, target: Seq<char>, rest: Seq<char>)
    ensures
        stripped(origin_segment(with_colour(settings, true), target) + rest) == origin_segment(
            with_colour(settings, false),
            stripped(target),
        ) + stripped(rest),
{
    if settings.show_target {
        lemma_strip_painted(Hue::Purple, origin_text(target), rest);
        lemma_strip_origin_text(target);
    } else {
        assert(Seq::<char>::empty() + rest == rest);
        assert(Seq::<char>::empty() + stripped(rest) == stripped(rest));
    }
}

/// A line is its three segments, the space and the message, joined from the
/// right.
proof fn lemma_line_from_the_right(
    settings: Settings,
    clock: Option<Seq<char>>,
    level: Severity,
    target: Seq<char>,
    message: Seq<char>,
)
    ensures
        line(settings, clock, level, target, message) == time_segment(settings, clock) + (
        level_segment(settings, level) + (origin_segment(settings, target) + (" "@ + message))),
{
    let time = time_segment(settings, clock);
    let label = level_segment(settings, level);
    let origin = origin_segment(settings, target);
    let end = " "@ + message;
    assert(time + label + origin + " "@ + message == time + (label + (origin + end)));
}

/// Colour only adds to a line. The line rendered with colours and then
/// stripped of its colour codes is the line rendered without colours from
/// the same texts, stripped. So where the time stamp, the origin and the
/// message that the line shows hold no colour code of their own, stripping
/// the coloured line gives the bare line, character for character.
pub proof fn lemma_colour_is_additive(
    settings: Settings,
    clock: Option<Seq<char>>,
    level: Severity,
    target: Seq<char>,
    message: Seq<char>,
)
    ensures
        stripped(line(with_colour(settings, true), clock, level, target, message)) == line(
            with_colour(settings, false),
            stripped_clock(clock),
            level,
            stripped(target),
            stripped(message),
        ),
        (settings.show_time && clock is Some ==> is_colour_free(clock->0)) && (settings.show_target
            ==> is_colour_free(target)) && is_colour_free(message) ==> stripped(
            line(with_colour(settings, true), clock, level, target, message),
        ) == line(with_colour(settings, false), clock, level, target, message),
{
    reveal_strlit(" ");
    let on = with_colour(settings, true);
    let off = with_colour(settings, false);
    let end = " "@ + message;
    let from_origin = origin_segment(on, target) + end;
    let from_label = level_segment(on, level) + from_origin;

    lemma_strip_plain_head(" "@, message);
    lemma_strip_origin_segment(settings, target, end);
    lemma_strip_level_segment(settings, level, from_origin);
    lemma_strip_time_segment(settings, clock, from_label);
    lemma_line_from_the_right(on, clock, level, target, message);
    lemma_line_from_the_right(off, stripped_clock(clock), level, stripped(target), stripped(message));

    if (settings.show_time && clock is Some ==> is_colour_free(clock->0)) && (settings.show_target
        ==> is_colour_free(target)) && is_colour_free(message) {
        assert(time_segment(off, stripped_clock(clock)) == time_segment(off, clock));
        assert(origin_segment(off, stripped(target)) == origin_segment(off, target));
    }
}

} // verus!
