//! The logging facility of a process and what finalizing a builder does to
//! it.

use crate::builder::LogLogBuilder;
use crate::format::{line, with_colour, Settings};
use crate::selector::{resolved_selector, selector_level};
use crate::severity::Severity;
use vstd::prelude::*;

verus! {

/// Why a builder could not be finalized.
#[derive(Clone, Copy, Debug, PartialEq, Eq, Structural)]
pub enum InitError {
    /// The facility had been started before.
    AlreadyInitialized,
    /// The selector in force names no severity.
    BadSelector,
}

/// What an error says, in words.
pub open spec fn error_text(error: InitError) -> Seq<char> {
    match error {
        InitError::AlreadyInitialized => "the logger has been started before"@,
        InitError::BadSelector => "the selector names no severity"@,
    }
}

impl InitError {
    /// What the error says, in words.
    pub fn message(&self) -> (res: &'static str)
        ensures
            res@ == error_text(*self),
    {
        match self {
            InitError::AlreadyInitialized => "the logger has been started before",
            InitError::BadSelector => "the selector names no severity",
        }
    }
}

/// The logging facility of a process: it is started at most once, and there
/// is no way to stop it again.
#[derive(Debug)]
pub struct Facility {
    started: bool,
}

impl Facility {
    /// Whether the facility has been started.
    pub closed spec fn started(&self) -> bool {
        self.started
    }

    /// A facility that has not been started.
    pub fn new() -> (res: Facility)
        ensures
            !res.started(),
    {
        Facility { started: false }
    }

    /// Whether the facility has been started.
    pub fn is_started(&self) -> (res: bool)
        ensures
            res == self.started(),
    {
        self.started
    }

    /// Marks the facility as started.
    pub(crate) fn start(&mut self)
        ensures
            final(self).started(),
    {
        self.started = true;
    }
}

/// What a logger is made of, as plain values: the settings it renders with
/// and the least severity it lets through.
pub struct Plan {
    /// The settings, resolved against the terminal.
    pub settings: Settings,
    /// The least severity that is let through.
    pub threshold: Severity,
}

/// What finalizing a builder hands out: the formatter with its settings
/// resolved, bound to its destination and to the least severity it lets
/// through. Nothing can change it afterwards.
#[derive(Debug)]
pub struct Logger {
    formatter: LogLogBuilder,
    threshold: Severity,
}

impl View for Logger {
    type V = Plan;

    closed spec fn view(&self) -> Plan {
        Plan { settings: self.formatter@, threshold: self.threshold }
    }
}

impl Logger {
    /// Binds a formatter to a threshold.
    pub(crate) fn new(formatter: LogLogBuilder, threshold: Severity) -> (res: Logger)
        ensures
            res@ == (Plan { settings: formatter@, threshold }),
    {
        Logger { formatter, threshold }
    }

    /// The formatter that renders the lines.
    pub fn formatter(&self) -> (res: &LogLogBuilder)
        ensures
            res@ == self@.settings,
    {
        &self.formatter
    }

    /// The least severity that is let through.
    pub fn threshold(&self) -> (res: Severity)
        ensures
            res == self@.threshold,
    {
        self.threshold
    }

    /// Whether an event of the given severity is let through: whether it is
    /// at least as severe as the threshold.
    pub fn enabled(&self, level: Severity) -> (res: bool)
        ensures
            res == (level.rank() >= self@.threshold.rank()),
    {
        level.position() >= self.threshold.position()
    }
}

/// The settings as finalizing resolves them: colours stay on only where they
/// were on and the destination is a terminal.
pub open spec fn resolved_settings(settings: Settings, interactive: bool) -> Settings {
    with_colour(settings, settings.show_colour && interactive)
}

/// What finalizing comes to. `started` says whether the facility had been
/// started, `interactive` whether the destination is a terminal, and
/// `environment` is the selector that the environment holds, if any. The
/// selector in force is read first: where it names no severity, finalizing
/// fails with `BadSelector`. Then a facility that had been started refuses
/// with `AlreadyInitialized`. Else the outcome is the plan of the logger.
pub open spec fn finalized(
    settings: Settings,
    started: bool,
    interactive: bool,
    environment: Option<Seq<char>>,
) -> Result<Plan, InitError> {
    match selector_level(resolved_selector(settings.selector, environment)) {
        None => Err(InitError::BadSelector),
        Some(threshold) => if started {
            Err(InitError::AlreadyInitialized)
        } else {
            Ok(Plan { settings: resolved_settings(settings, interactive), threshold })
        },
    }
}

/// Whether the facility is started once a builder has been finalized on it:
/// it is if it was, or if finalizing succeeded.
pub open spec fn started_after(
    settings: Settings,
    started: bool,
    interactive: bool,
    environment: Option<Seq<char>>,
) -> bool {
    started || finalized(settings, started, interactive, environment) is Ok
}

/// Whether a result and a facility are what finalizing leaves behind.
pub open spec fn is_finalized(
    settings: Settings,
    started: bool,
    interactive: bool,
    environment: Option<Seq<char>>,
    result: Result<Logger, InitError>,
    started_then: bool,
) -> bool {
    &&& started_then == started_after(settings, started, interactive, environment)
    &&& match finalized(settings, started, interactive, environment) {
        Ok(plan) => result is Ok && result->Ok_0@ == plan,
        Err(error) => result == Err::<Logger, InitError>(error),
    }
}

/// Where the destination is no terminal the logger renders without colours,
/// whatever the builder was told: its settings, and so its lines, are those
/// of the builder with colours off.
pub proof fn lemma_no_terminal_no_colour(
    settings: Settings,
    started: bool,
    environment: Option<Seq<char>>,
    clock: Option<Seq<char>>,
    level: Severity,
    target: Seq<char>,
    message: Seq<char>,
)
    ensures
        finalized(settings, started, false, environment) matches Ok(plan) ==> {
            &&& plan.settings == with_colour(settings, false)
            &&& line(plan.settings, clock, level, target, message) == line(
                with_colour(settings, false),
                clock,
                level,
                target,
                message,
            )
        },
{
}

/// A facility is started at most once: when finalizing has succeeded on it,
/// finalizing on it again fails, whatever the second builder holds. More
/// exactly, the second of two calls fails if and only if the facility had
/// been started before the first, or the first succeeded, or the selector of
/// the second names no severity.
pub proof fn lemma_second_finalize_fails(
    first: Settings,
    second: Settings,
    started: bool,
    first_interactive: bool,
    second_interactive: bool,
    first_environment: Option<Seq<char>>,
    second_environment: Option<Seq<char>>,
)
    ensures
        finalized(first, started, first_interactive, first_environment) is Ok ==> finalized(
            second,
            started_after(first, started, first_interactive, first_environment),
            second_interactive,
            second_environment,
        ) == Err::<Plan, InitError>(
            if selector_level(resolved_selector(second.selector, second_environment)) is None {
                InitError::BadSelector
            } else {
                InitError::AlreadyInitialized
            },
        ),
        finalized(
            second,
            started_after(first, started, first_interactive, first_environment),
            second_interactive,
            second_environment,
        ) is Err <==> (started || finalized(
            first,
            started,
            first_interactive,
            first_environment,
        ) is Ok || selector_level(resolved_selector(second.selector, second_environment)) is None),
{
}

/// A selector that names no severity makes finalizing fail with
/// `BadSelector` and leaves the facility as it was.
pub proof fn lemma_bad_selector_fails(
    settings: Settings,
    started: bool,
    interactive: bool,
    environment: Option<Seq<char>>,
)
    requires
        selector_level(resolved_selector(settings.selector, environment)) is None,
    ensures
        finalized(settings, started, interactive, environment) == Err::<Plan, InitError>(
            InitError::BadSelector,
        ),
        started_after(settings, started, interactive, environment) == started,
{
}

} // verus!
