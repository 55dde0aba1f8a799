use loglog::{parse_selector, resolve_selector, Severity};

#[test]
fn selector_names_a_severity() {
    assert_eq!(parse_selector("trace"), Some(Severity::Trace));
    assert_eq!(parse_selector("debug"), Some(Severity::Debug));
    assert_eq!(parse_selector("info"), Some(Severity::Info));
    assert_eq!(parse_selector("warn"), Some(Severity::Warn));
    assert_eq!(parse_selector("error"), Some(Severity::Error));
}

#[test]
fn selector_in_any_case() {
    assert_eq!(parse_selector("TRACE"), Some(Severity::Trace));
    assert_eq!(parse_selector("Debug"), Some(Severity::Debug));
    assert_eq!(parse_selector("iNfO"), Some(Severity::Info));
    assert_eq!(parse_selector("WARN"), Some(Severity::Warn));
    assert_eq!(parse_selector("ErroR"), Some(Severity::Error));
}

#[test]
fn selector_that_names_nothing() {
    for text in [
        "", " ", "off", "warning", "err", "info ", " info", "infoo", "inf", "debug,info",
        "app=debug", "1", "tracé", "ｉｎｆｏ", "\u{1f980}", "d\u{0}bug", "trace\n",
    ] {
        assert_eq!(parse_selector(text), None, "{:?}", text);
    }
}

#[test]
fn explicit_selector_wins() {
    assert_eq!(resolve_selector(Some("warn".to_string()), Some("error".to_string())), "warn");
    assert_eq!(resolve_selector(Some("warn".to_string()), None), "warn");
    assert_eq!(resolve_selector(Some("".to_string()), Some("error".to_string())), "");
}

#[test]
fn environment_selector_wins_over_default() {
    assert_eq!(resolve_selector(None, Some("error".to_string())), "error");
    assert_eq!(resolve_selector(None, Some("".to_string())), "");
}

#[test]
fn default_selector_is_debug() {
    assert_eq!(resolve_selector(None, None), "debug");
    assert_eq!(parse_selector(&resolve_selector(None, None)), Some(Severity::Debug));
}
