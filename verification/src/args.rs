//! Parsing of the invocation arguments.
//!
//! The parser takes the raw process argument list, whose first element
//! is the program's own name, and yields either the target file path
//! together with the break character, or a usage error.  A `--help`
//! flag anywhere in the list wins over everything else; otherwise a
//! list without both positional arguments is rejected with a hint, the
//! first positional argument becomes the file path, and the first
//! character of the second becomes the break character (the rest of
//! that token is ignored; an empty token is rejected).  Printing the
//! error's message and ending the process is left to the caller.

use vstd::prelude::*;
use vstd::string::StrSliceExecFns;
use vstd::string::StringExecFns;

verus! {

/// The usage text shown when `--help` appears among the arguments.
pub open spec fn help_text() -> Seq<char> {
    "Usage: paste <FILE> <BREAK CHAR>\n\nARGUMENTS\n---------\n    <FILE>         The desired file name you want to write into.\n    <BREAK CHAR>   The character needed at the end of a line to terminate the shell."@
}

/// The diagnostic shown when no positional argument is given.
pub open spec fn missing_arguments_text() -> Seq<char> {
    "Please provide a file name and termination character.\n\nUsage: paste <FILE> <BREAK CHAR>\n\nFor more information, try passing `--help`."@
}

/// The diagnostic shown when only the file name is given.
pub open spec fn missing_break_char_text() -> Seq<char> {
    "Please provide a termination character: <BREAK CHAR>.\n\nFor more information, try passing `--help`."@
}

/// The diagnostic shown when the break-character token is empty.
pub open spec fn empty_break_char_text() -> Seq<char> {
    "Please provide a non-empty termination character: <BREAK CHAR>.\n\nFor more information, try passing `--help`."@
}

/// Why an invocation was rejected.
#[derive(Clone, Copy, Debug, PartialEq, Eq, Structural)]
pub enum UsageError {
    /// `--help` appeared among the arguments.
    Help,
    /// Neither a file name nor a break character was given.
    MissingArguments,
    /// A file name was given but no break character.
    MissingBreakChar,
    /// The break-character token was given but holds no character.
    EmptyBreakChar,
}

impl UsageError {
    /// The diagnostic for this error, as it is printed to the error
    /// stream before the process exits with status 1.
    pub fn message(&self) -> (r: &'static str)
        ensures
            self is Help ==> r@ == help_text(),
            self is MissingArguments ==> r@ == missing_arguments_text(),
            self is MissingBreakChar ==> r@ == missing_break_char_text(),
            self is EmptyBreakChar ==> r@ == empty_break_char_text(),
    {
        match self {
            UsageError::Help => "Usage: paste <FILE> <BREAK CHAR>\n\nARGUMENTS\n---------\n    <FILE>         The desired file name you want to write into.\n    <BREAK CHAR>   The character needed at the end of a line to terminate the shell.",
            UsageError::MissingArguments => "Please provide a file name and termination character.\n\nUsage: paste <FILE> <BREAK CHAR>\n\nFor more information, try passing `--help`.",
            UsageError::MissingBreakChar => "Please provide a termination character: <BREAK CHAR>.\n\nFor more information, try passing `--help`.",
            UsageError::EmptyBreakChar => "Please provide a non-empty termination character: <BREAK CHAR>.\n\nFor more information, try passing `--help`.",
        }
    }
}

/// Whether some argument, at any position, is exactly `--help`.
pub open spec fn has_help_flag(args: Seq<String>) -> bool {
    exists|i: int| 0 <= i < args.len() && args[i]@ == "--help"@
}

/// The parsed invocation: the target file path and the break character.
pub struct Args {
    /// The path of the file the joined content is written to.
    pub file: String,
    /// The character whose presence at the end of an input line ends
    /// the collection loop.
    pub break_char: char,
}

impl Args {
    /// Parses the raw process argument list.  `--help` anywhere wins;
    /// otherwise the element after the program name is the file path
    /// and the first character of the next element is the break
    /// character, whatever else that element holds.  Arguments beyond
    /// those two are ignored.
    pub fn parse(args: &Vec<String>) -> (r: Result<Args, UsageError>)
        ensures
            has_help_flag(args@) ==> r == Err::<Args, UsageError>(UsageError::Help),
            !has_help_flag(args@) && args@.len() < 2 ==> r == Err::<Args, UsageError>(
                UsageError::MissingArguments,
            ),
            !has_help_flag(args@) && args@.len() == 2 ==> r == Err::<Args, UsageError>(
                UsageError::MissingBreakChar,
            ),
            !has_help_flag(args@) && args@.len() > 2 && args@[2]@.len() == 0 ==> r == Err::<
                Args,
                UsageError,
            >(UsageError::EmptyBreakChar),
            !has_help_flag(args@) && args@.len() > 2 && args@[2]@.len() > 0 ==> (r matches Ok(a)
                && a.file@ == args@[1]@ && a.break_char == args@[2]@[0]),
    {
        let ghost gargs = args@;
        let help: String = String::from_str("--help");
        let mut i: usize = 0;
        while i < args.len()
            invariant
                i <= gargs.len(),
                args@ == gargs,
                help@ == "--help"@,
                forall|j: int| 0 <= j < i ==> #[trigger] gargs[j]@ != "--help"@,
            decreases gargs.len() - i,
        {
            if args[i].eq(&help) {
                proof {
                    assert(gargs[i as int]@ == "--help"@);
                }
                return Err(UsageError::Help);
            }
            i = i + 1;
        }
        proof {
            assert(!has_help_flag(gargs));
        }
        if args.len() < 2 {
            return Err(UsageError::MissingArguments);
        }
        if args.len() == 2 {
            return Err(UsageError::MissingBreakChar);
        }
        let token = &args[2];
        if token.as_str().is_empty() {
            return Err(UsageError::EmptyBreakChar);
        }
        let break_char = token.as_str().get_char(0);
        Ok(Args { file: args[1].clone(), break_char: break_char })
    }
}

} // verus!
