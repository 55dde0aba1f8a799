use loglog::strip_colour;

#[test]
fn strip_keeps_plain_text() {
    assert_eq!(strip_colour(""), "");
    assert_eq!(strip_colour("plain [INFO ] text; 1m"), "plain [INFO ] text; 1m");
    assert_eq!(strip_colour("ünïcödé \u{1f980}"), "ünïcödé \u{1f980}");
}

#[test]
fn strip_removes_whole_codes() {
    assert_eq!(strip_colour("\x1b[1;35mtext\x1b[0m"), "text");
    assert_eq!(strip_colour("a\x1b[0mb\x1b[1;31mc"), "abc");
    assert_eq!(strip_colour("\x1b[m"), "");
    assert_eq!(strip_colour("\x1b[;;;m"), "");
    assert_eq!(strip_colour("\x1b[38;5;134mx"), "x");
    assert_eq!(strip_colour("\x1b[0m\x1b[0m"), "");
}

#[test]
fn strip_keeps_what_is_no_code() {
    assert_eq!(strip_colour("\x1b"), "\x1b");
    assert_eq!(strip_colour("\x1b["), "\x1b[");
    assert_eq!(strip_colour("\x1b[1;31"), "\x1b[1;31");
    assert_eq!(strip_colour("\x1b[1;31x"), "\x1b[1;31x");
    assert_eq!(strip_colour("\x1b1m"), "\x1b1m");
    assert_eq!(strip_colour("\x1b[1 m"), "\x1b[1 m");
    assert_eq!(strip_colour("[1;31m"), "[1;31m");
    assert_eq!(strip_colour("\x1b[2J"), "\x1b[2J");
}

#[test]
fn strip_reads_from_the_left() {
    assert_eq!(strip_colour("\x1b\x1b[0m"), "\x1b");
    assert_eq!(strip_colour("\x1b[1\x1b[0mm"), "\x1b[1m");
    assert_eq!(strip_colour("\x1b[\x1b[0m0m"), "\x1b[0m");
}
