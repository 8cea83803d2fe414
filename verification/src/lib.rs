//! A minimal interactive line editor, as a verified library.
//!
//! The library has two parts: parsing of the invocation arguments
//! ([`args`]) and the line-collecting state machine together with the
//! joining of the collected lines into the final file content
//! ([`editor`]).  All terminal and file input/output stays outside the
//! library; callers hand in plain strings and take plain strings back.

pub mod args;
pub mod editor;
