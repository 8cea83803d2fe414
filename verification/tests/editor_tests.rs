use paste::editor::{normalize_line, Editor};

#[test]
fn round_trip_two_lines() {
    let mut e = Editor::new('X');
    e.feed("hello");
    e.feed("world");
    assert!(!e.is_done());
    e.feed("X");
    assert!(e.is_done());
    assert_eq!(e.content(), "hello\nworld\n");
    assert_eq!(e.content_byte_len(), 12);
}

#[test]
fn empty_line_insertion() {
    let mut e = Editor::new('X');
    e.feed("");
    assert!(!e.is_done());
    e.feed("X");
    assert!(e.is_done());
    assert_eq!(e.content(), "\n\n");
    assert_eq!(e.content_byte_len(), 2);
}

#[test]
fn no_terminator_never_done() {
    let mut e = Editor::new('X');
    let lines = ["alpha", "beta", "", "gamma X trick", "delta"];
    for line in lines {
        e.feed(line);
        assert!(!e.is_done());
    }
    assert_eq!(e.line_count(), 5);
}

#[test]
fn terminating_line_is_kept_without_the_break_character() {
    let mut e = Editor::new('q');
    e.feed("stopq");
    assert!(e.is_done());
    assert_eq!(e.content(), "stop");
}

#[test]
fn terminator_alone_appends_an_empty_line() {
    let mut e = Editor::new('X');
    e.feed("one");
    e.feed("X");
    assert_eq!(e.content(), "one\n");
}

#[test]
fn break_character_inside_a_line_does_not_terminate() {
    let mut e = Editor::new('X');
    e.feed("aXb");
    assert!(!e.is_done());
    e.feed("X");
    assert_eq!(e.content(), "aXb\n");
}

#[test]
fn trailing_newlines_are_stripped_before_the_check() {
    let mut e = Editor::new('X');
    e.feed("wX\r\n");
    assert!(e.is_done());
    assert_eq!(e.content(), "w");
}

#[test]
fn normalize_strips_trailing_line_breaks_only() {
    assert_eq!(normalize_line("abc\r\n"), "abc");
    assert_eq!(normalize_line("abc\n\n\r"), "abc");
    assert_eq!(normalize_line("a\rb\nc"), "a\rb\nc");
    assert_eq!(normalize_line(""), "");
    assert_eq!(normalize_line("\r\n"), "");
}

#[test]
fn byte_length_counts_utf8_bytes_not_characters() {
    let mut e = Editor::new('X');
    e.feed("h\u{e9}llo");
    e.feed("X");
    assert!(e.is_done());
    assert_eq!(e.content(), "h\u{e9}llo\n");
    assert_eq!(e.content_byte_len(), 7);
}

#[test]
fn multibyte_break_character() {
    let mut e = Editor::new('\u{e9}');
    e.feed("w\u{e9}");
    assert!(e.is_done());
    assert_eq!(e.content(), "w");
}

#[test]
fn line_count_matches_lines_fed() {
    let mut e = Editor::new('X');
    assert_eq!(e.line_count(), 0);
    e.feed("a");
    assert_eq!(e.line_count(), 1);
    e.feed("");
    assert_eq!(e.line_count(), 2);
    assert_eq!(e.break_char(), 'X');
}

#[test]
fn empty_run_has_empty_content() {
    let e = Editor::new('X');
    assert_eq!(e.content(), "");
    assert_eq!(e.content_byte_len(), 0);
}
