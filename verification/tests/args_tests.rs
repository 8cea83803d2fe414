use paste::args::{Args, UsageError};

const USAGE: &str = "Usage: paste <FILE> <BREAK CHAR>\n\nARGUMENTS\n---------\n    <FILE>         The desired file name you want to write into.\n    <BREAK CHAR>   The character needed at the end of a line to terminate the shell.";

fn argv(parts: &[&str]) -> Vec<String> {
    parts.iter().map(|s| s.to_string()).collect()
}

#[test]
fn help_flag_in_usual_position() {
    let r = Args::parse(&argv(&["paste", "--help"]));
    assert_eq!(r.err().unwrap(), UsageError::Help);
}

#[test]
fn help_flag_anywhere_wins() {
    let r = Args::parse(&argv(&["paste", "file.txt", "X", "--help"]));
    assert_eq!(r.err().unwrap(), UsageError::Help);
}

#[test]
fn help_message_is_the_usage_text() {
    let r = Args::parse(&argv(&["paste", "--help"]));
    assert_eq!(r.err().unwrap().message(), USAGE);
}

#[test]
fn no_positional_arguments() {
    let r = Args::parse(&argv(&["paste"]));
    let e = r.err().unwrap();
    assert_eq!(e, UsageError::MissingArguments);
    assert_eq!(
        e.message(),
        "Please provide a file name and termination character.\n\nUsage: paste <FILE> <BREAK CHAR>\n\nFor more information, try passing `--help`."
    );
}

#[test]
fn one_positional_argument() {
    let r = Args::parse(&argv(&["paste", "file.txt"]));
    let e = r.err().unwrap();
    assert_eq!(e, UsageError::MissingBreakChar);
    assert_eq!(
        e.message(),
        "Please provide a termination character: <BREAK CHAR>.\n\nFor more information, try passing `--help`."
    );
}

#[test]
fn two_positional_arguments() {
    let r = Args::parse(&argv(&["paste", "file.txt", "X"]));
    let a = r.ok().unwrap();
    assert_eq!(a.file, "file.txt");
    assert_eq!(a.break_char, 'X');
}

#[test]
fn extra_positional_arguments_are_ignored() {
    let r = Args::parse(&argv(&["paste", "file.txt", "X", "more", "junk"]));
    let a = r.ok().unwrap();
    assert_eq!(a.file, "file.txt");
    assert_eq!(a.break_char, 'X');
}

#[test]
fn multi_character_break_token_uses_first_character() {
    let long = Args::parse(&argv(&["paste", "file.txt", "XY"])).ok().unwrap();
    let short = Args::parse(&argv(&["paste", "file.txt", "X"])).ok().unwrap();
    assert_eq!(long.break_char, 'X');
    assert_eq!(long.break_char, short.break_char);
    assert_eq!(long.file, short.file);
}

#[test]
fn empty_break_token_is_rejected() {
    let r = Args::parse(&argv(&["paste", "file.txt", ""]));
    let e = r.err().unwrap();
    assert_eq!(e, UsageError::EmptyBreakChar);
    assert_eq!(
        e.message(),
        "Please provide a non-empty termination character: <BREAK CHAR>.\n\nFor more information, try passing `--help`."
    );
}
