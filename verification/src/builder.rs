//! The builder: it collects the presentation options, is finalized into a
//! logger, and renders events into lines.

use crate::clock::local_time;
use crate::colour::{paint, Hue};
use crate::facility::{is_finalized, Facility, InitError, Logger};
use crate::format::{
    colour_tag, default_settings, level_segment, line, origin_segment, time_segment, with_colour,
    Settings,
};
use crate::record::Record;
use crate::selector::{parse_selector, resolve_selector};
use crate::severity::Severity;
use crate::terminal::{stderr_is_terminal, stdout_is_terminal};
use vstd::prelude::*;
use vstd::string::StringExecFns;

verus! {

/// The main logger builder.
#[derive(Debug)]
pub struct LogLogBuilder {
    time_format: String,
    show_time: bool,
    show_target: bool,
    show_colour: bool,
    colour_trace: String,
    colour_debug: String,
    colour_info: String,
    colour_warn: String,
    colour_error: String,
    selector: Option<String>,
    use_stdout: bool,
}

impl View for LogLogBuilder {
    type V = Settings;

    closed spec fn view(&self) -> Settings {
        Settings {
            time_format: self.time_format@,
            show_time: self.show_time,
            show_target: self.show_target,
            show_colour: self.show_colour,
            selector: self.selector.deep_view(),
            use_stdout: self.use_stdout,
        }
    }
}

/// The label of a level, painted in the colour of the level.
fn painted_tag(level: Severity) -> (res: String)
    ensures
        res@ == colour_tag(level),
{
    paint(level.hue(), level.tag())
}

/// Create the logger builder with some default values.
pub fn build() -> (res: LogLogBuilder)
    ensures
        res@ == default_settings(),
{
    LogLogBuilder {
        time_format: "%T ".to_owned(),
        show_time: true,
        show_target: false,
        show_colour: true,
        colour_trace: painted_tag(Severity::Trace),
        colour_debug: painted_tag(Severity::Debug),
        colour_info: painted_tag(Severity::Info),
        colour_warn: painted_tag(Severity::Warn),
        colour_error: painted_tag(Severity::Error),
        selector: None,
        use_stdout: false,
    }
}

/// Quickly create the builder and start the logger.
pub fn init(facility: &mut Facility, environment: Option<String>) -> (res: Result<
    Logger,
    InitError,
>)
    ensures
        exists|interactive: bool|
            is_finalized(
                default_settings(),
                old(facility).started(),
                interactive,
                environment.deep_view(),
                res,
                final(facility).started(),
            ),
{
    build().init(facility, environment)
}

impl LogLogBuilder {
    /// The labels in colour are painted once, when the builder is made.
    #[verifier::type_invariant]
    spec fn labels_are_painted(&self) -> bool {
        &&& self.colour_trace@ == colour_tag(Severity::Trace)
        &&& self.colour_debug@ == colour_tag(Severity::Debug)
        &&& self.colour_info@ == colour_tag(Severity::Info)
        &&& self.colour_warn@ == colour_tag(Severity::Warn)
        &&& self.colour_error@ == colour_tag(Severity::Error)
    }

    /// Start the logger with the constructed settings: asks whether the
    /// destination is a terminal and finalizes the builder on the facility.
    /// `environment` is the selector that the environment holds, if any.
    pub fn init(self, facility: &mut Facility, environment: Option<String>) -> (res: Result<
        Logger,
        InitError,
    >)
        ensures
            exists|interactive: bool|
                is_finalized(
                    self@,
                    old(facility).started(),
                    interactive,
                    environment.deep_view(),
                    res,
                    final(facility).started(),
                ),
    {
        let interactive = if self.use_stdout {
            stdout_is_terminal()
        } else {
            stderr_is_terminal()
        };
        self.finalize(facility, interactive, environment)
    }

    /// Finalizes the builder on the facility. `interactive` says whether the
    /// destination is a terminal, and `environment` is the selector that the
    /// environment holds, if any. The selector in force is the one given to
    /// the builder, else the one of the environment, else `debug`. Where it
    /// names no severity the call fails with `BadSelector`; else, where the
    /// facility has been started, with `AlreadyInitialized`; both leave the
    /// facility as it was. Else the facility is started and the logger comes
    /// back: it lets through what the selector names and anything more
    /// severe, and it paints only where the builder was told to and the
    /// destination is a terminal.
    pub fn finalize(
        self,
        facility: &mut Facility,
        interactive: bool,
        environment: Option<String>,
    ) -> (res: Result<Logger, InitError>)
        ensures
            is_finalized(
                self@,
                old(facility).started(),
                interactive,
                environment.deep_view(),
                res,
                final(facility).started(),
            ),
    {
        let show_colour = self.show_colour && interactive;
        let selector = resolve_selector(self.selector.clone(), environment);
        match parse_selector(selector.as_str()) {
            None => Err(InitError::BadSelector),
            Some(threshold) => {
                if facility.is_started() {
                    Err(InitError::AlreadyInitialized)
                } else {
                    facility.start();
                    Ok(Logger::new(self.colour(show_colour), threshold))
                }
            },
        }
    }

    /// Set the timestamp format to be used. If None is given, the timestamp is
    /// disabled.
    ///
    /// By default, the timestamp is displayed, and the format is `%H:%M:%S`.
    pub fn time(self, time_format: Option<&str>) -> (res: Self)
        ensures
            res@ == (match time_format {
                Some(pattern) => Settings {
                    time_format: pattern@ + " "@,
                    show_time: true,
                    ..self@
                },
                None => Settings { show_time: false, ..self@ },
            }),
    {
        proof {
            use_type_invariant(&self);
        }
        match time_format {
            Some(pattern) => {
                let stored = pattern.to_owned().concat(" ");
                LogLogBuilder { time_format: stored, show_time: true, ..self }
            },
            None => LogLogBuilder { show_time: false, ..self },
        }
    }

    /// Enable or disable the output of the "log target". For example, for a
    /// module `zmod` in a crate `zcrate`, this would be `zcrate::zmod`.
    ///
    /// By default, the displaying the target is *not* enabled.
    pub fn target(self, show: bool) -> (res: Self)
        ensures
            res@ == (Settings { show_target: show, ..self@ }),
    {
        proof {
            use_type_invariant(&self);
        }
        LogLogBuilder { show_target: show, ..self }
    }

    /// Enable or disable coloured output. Note that colours are automatically
    /// disabled if the terminal doesn't support them.
    ///
    /// By default, colours are enabled.
    pub fn colour(self, show: bool) -> (res: Self)
        ensures
            res@ == with_colour(self@, show),
    {
        proof {
            use_type_invariant(&self);
        }
        LogLogBuilder { show_colour: show, ..self }
    }

    /// Enable or disable output to `stdout`.
    ///
    /// By default, logs are sent to `stderr`.
    pub fn stdout(self, enable: bool) -> (res: Self)
        ensures
            res@ == (Settings { use_stdout: enable, ..self@ }),
    {
        proof {
            use_type_invariant(&self);
        }
        LogLogBuilder { use_stdout: enable, ..self }
    }

    /// Specify the selector: the name of the least severity to let through.
    ///
    /// By default, this will be taken from the environment, and if the
    /// environment holds none, `debug` will be used.
    pub fn select(self, selector: &str) -> (res: Self)
        ensures
            res@ == (Settings { selector: Some(selector@), ..self@ }),
    {
        proof {
            use_type_invariant(&self);
        }
        LogLogBuilder { selector: Some(selector.to_owned()), ..self }
    }

    /// Whether lines go to the standard output rather than the standard
    /// error.
    pub fn uses_stdout(&self) -> (res: bool)
        ensures
            res == self@.use_stdout,
    {
        self.use_stdout
    }

    /// The first segment of a line, from what the clock gave for the
    /// pattern.
    pub fn time_segment(&self, clock: Option<String>) -> (res: String)
        ensures
            res@ == time_segment(self@, clock.deep_view()),
    {
        match clock {
            Some(stamp) => {
                if !self.show_time {
                    String::new()
                } else if self.show_colour {
                    paint(Hue::Purple, stamp.as_str())
                } else {
                    stamp
                }
            },
            None => String::new(),
        }
    }

    /// The first segment of a line at this moment: empty where time stamps
    /// are off, else the local time written per the pattern.
    pub fn format_time(&self) -> (res: String)
        ensures
            exists|clock: Option<Seq<char>>| res@ == time_segment(self@, clock),
            !self@.show_time ==> res@ == Seq::<char>::empty(),
    {
        if self.show_time {
            let clock = local_time(self.time_format.as_str());
            let segment = self.time_segment(clock);
            assert(segment@ == time_segment(self@, clock.deep_view()));
            segment
        } else {
            let segment = String::new();
            assert(segment@ == time_segment(self@, None));
            segment
        }
    }

    /// The second segment of a line: the label of the level.
    pub fn format_level(&self, level: Severity) -> (res: &str)
        ensures
            res@ == level_segment(self@, level),
    {
        proof {
            use_type_invariant(self);
        }
        if self.show_colour {
            match level {
                Severity::Trace => self.colour_trace.as_str(),
                Severity::Debug => self.colour_debug.as_str(),
                Severity::Info => self.colour_info.as_str(),
                Severity::Warn => self.colour_warn.as_str(),
                Severity::Error => self.colour_error.as_str(),
            }
        } else {
            level.tag()
        }
    }

    /// The third segment of a line: the origin of the event.
    pub fn format_target(&self, target: &str) -> (res: String)
        ensures
            res@ == origin_segment(self@, target@),
    {
        if self.show_target {
            let text = " (".to_owned().concat(target).concat(")");
            if self.show_colour {
                paint(Hue::Purple, text.as_str())
            } else {
                text
            }
        } else {
            String::new()
        }
    }

    /// Puts a line together behind a first segment that is already written.
    fn compose(&self, time: String, record: &Record) -> (res: String)
        ensures
            res@ == time@ + level_segment(self@, record.level) + origin_segment(
                self@,
                record.target@,
            ) + " "@ + record.message@,
    {
        let origin = self.format_target(record.target.as_str());
        time.concat(self.format_level(record.level)).concat(origin.as_str()).concat(" ").concat(
            record.message.as_str(),
        )
    }

    /// Renders an event into a line, from what the clock gave for the
    /// pattern.
    pub fn render(&self, clock: Option<String>, record: &Record) -> (res: String)
        ensures
            res@ == line(self@, clock.deep_view(), record.level, record.target@, record.message@),
    {
        let time = self.time_segment(clock);
        self.compose(time, record)
    }

    /// Renders an event into a line at this moment.
    pub fn formatter(&self, record: &Record) -> (res: String)
        ensures
            exists|clock: Option<Seq<char>>|
                res@ == line(self@, clock, record.level, record.target@, record.message@),
            !self@.show_time ==> res@ == line(
                self@,
                None,
                record.level,
                record.target@,
                record.message@,
            ),
    {
        let time = self.format_time();
        let ghost clock = choose|clock: Option<Seq<char>>| time@ == time_segment(self@, clock);
        let res = self.compose(time, record);
        assert(res@ == line(self@, clock, record.level, record.target@, record.message@));
        res
    }
}

} // verus!
