use loglog::{build, init, Facility, InitError, Record, Severity};

fn env(text: &str) -> Option<String> {
    Some(text.to_string())
}

#[test]
fn new_facility_is_not_started() {
    assert!(!Facility::new().is_started());
}

#[test]
fn finalize_starts_the_facility() {
    let mut facility = Facility::new();
    let logger = build().finalize(&mut facility, true, None).unwrap();
    assert!(facility.is_started());
    assert_eq!(logger.threshold(), Severity::Debug);
    assert!(!logger.formatter().uses_stdout());
}

#[test]
fn no_terminal_switches_colour_off() {
    for told in [true, false] {
        let mut facility = Facility::new();
        let builder = build().time(None).target(true).colour(told);
        let logger = builder.finalize(&mut facility, false, None).unwrap();
        let line = logger.formatter().formatter(&Record::new(Severity::Error, "a", "boom"));
        assert_eq!(line, "[ERROR] (a) boom");
        assert!(!line.contains('\x1b'));
    }
}

#[test]
fn terminal_keeps_the_colour_setting() {
    let record = Record::new(Severity::Error, "a", "boom");
    let mut facility = Facility::new();
    let logger = build().time(None).finalize(&mut facility, true, None).unwrap();
    assert_eq!(logger.formatter().formatter(&record), "\x1b[1;31m[ERROR]\x1b[0m boom");
    let mut facility = Facility::new();
    let logger = build().time(None).colour(false).finalize(&mut facility, true, None).unwrap();
    assert_eq!(logger.formatter().formatter(&record), "[ERROR] boom");
}

#[test]
fn finalize_keeps_the_other_settings() {
    let mut facility = Facility::new();
    let builder = build().stdout(true).target(true).time(None);
    let logger = builder.finalize(&mut facility, false, None).unwrap();
    assert!(logger.formatter().uses_stdout());
    assert_eq!(
        logger.formatter().formatter(&Record::new(Severity::Info, "o", "m")),
        "[INFO ] (o) m"
    );
}

#[test]
fn builder_selector_overrides_environment() {
    let mut facility = Facility::new();
    let logger = build().select("warn").finalize(&mut facility, true, env("error")).unwrap();
    assert_eq!(logger.threshold(), Severity::Warn);
    let mut facility = Facility::new();
    let logger = build().select("TRACE").finalize(&mut facility, true, env("")).unwrap();
    assert_eq!(logger.threshold(), Severity::Trace);
}

#[test]
fn environment_selector_overrides_default() {
    let mut facility = Facility::new();
    let logger = build().finalize(&mut facility, true, env("error")).unwrap();
    assert_eq!(logger.threshold(), Severity::Error);
}

#[test]
fn default_threshold_is_debug() {
    let mut facility = Facility::new();
    let logger = build().finalize(&mut facility, true, None).unwrap();
    assert_eq!(logger.threshold(), Severity::Debug);
    assert!(!logger.enabled(Severity::Trace));
    assert!(logger.enabled(Severity::Debug));
    assert!(logger.enabled(Severity::Error));
}

#[test]
fn threshold_lets_through_what_is_at_least_as_severe() {
    let mut facility = Facility::new();
    let logger = build().select("warn").finalize(&mut facility, true, None).unwrap();
    assert!(!logger.enabled(Severity::Trace));
    assert!(!logger.enabled(Severity::Debug));
    assert!(!logger.enabled(Severity::Info));
    assert!(logger.enabled(Severity::Warn));
    assert!(logger.enabled(Severity::Error));
}

#[test]
fn second_finalize_fails() {
    let mut facility = Facility::new();
    assert!(build().finalize(&mut facility, true, None).is_ok());
    let second = build().select("info").finalize(&mut facility, false, None);
    assert_eq!(second.err(), Some(InitError::AlreadyInitialized));
    assert!(facility.is_started());
    let third = build().finalize(&mut facility, true, env("trace"));
    assert_eq!(third.err(), Some(InitError::AlreadyInitialized));
}

#[test]
fn second_init_fails() {
    let mut facility = Facility::new();
    assert!(init(&mut facility, None).is_ok());
    assert!(facility.is_started());
    assert_eq!(init(&mut facility, None).err(), Some(InitError::AlreadyInitialized));
    assert_eq!(build().init(&mut facility, None).err(), Some(InitError::AlreadyInitialized));
}

#[test]
fn empty_selector_fails_and_starts_nothing() {
    let mut facility = Facility::new();
    let result = build().select("").finalize(&mut facility, true, None);
    assert_eq!(result.err(), Some(InitError::BadSelector));
    assert!(!facility.is_started());
    assert!(build().finalize(&mut facility, true, None).is_ok());
    assert!(facility.is_started());
}

#[test]
fn bad_environment_selector_fails() {
    let mut facility = Facility::new();
    let result = build().finalize(&mut facility, true, env("verbose"));
    assert_eq!(result.err(), Some(InitError::BadSelector));
    assert!(!facility.is_started());
    assert_eq!(init(&mut facility, env("")).err(), Some(InitError::BadSelector));
    assert!(!facility.is_started());
}

#[test]
fn bad_selector_is_reported_on_a_started_facility_too() {
    let mut facility = Facility::new();
    assert!(build().finalize(&mut facility, true, None).is_ok());
    let result = build().select("nope").finalize(&mut facility, true, None);
    assert_eq!(result.err(), Some(InitError::BadSelector));
    assert!(facility.is_started());
}

#[test]
fn init_reads_the_terminal_and_the_environment() {
    let mut facility = Facility::new();
    let logger = build().time(None).colour(false).init(&mut facility, env("info")).unwrap();
    assert_eq!(logger.threshold(), Severity::Info);
    assert_eq!(
        logger.formatter().formatter(&Record::new(Severity::Info, "", "m")),
        "[INFO ] m"
    );
    let mut facility = Facility::new();
    let logger = build().time(None).stdout(true).init(&mut facility, None).unwrap();
    let line = logger.formatter().formatter(&Record::new(Severity::Info, "", "m"));
    assert!(line == "[INFO ] m" || line == "\x1b[1;32m[INFO ]\x1b[0m m");
}

#[test]
fn errors_say_what_went_wrong() {
    assert_eq!(InitError::AlreadyInitialized.message(), "the logger has been started before");
    assert_eq!(InitError::BadSelector.message(), "the selector names no severity");
}
