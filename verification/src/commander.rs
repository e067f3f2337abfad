//! Where commands come from: lines of text.

use crate::text::{quoted, quoted_text};
use vstd::prelude::*;

pub mod cli_commander;

pub use cli_commander::CliCommander;

verus! {

/// Why a line of text is no command.
#[derive(Debug)]
pub enum ParseError {
    /// The line does not begin with a word.
    NoCommand,
    /// The line begins with the given word, which no command is called.
    InvalidCommand(String),
    /// The line begins with the name of a command, and what follows is not
    /// what that command takes. `expected` shows how the command is used,
    /// `line` is the line.
    Malformed { expected: String, line: String },
}

/// A [`ParseError`] with its texts as characters.
pub enum ParseErrorView {
    NoCommand,
    InvalidCommand(Seq<char>),
    Malformed { expected: Seq<char>, line: Seq<char> },
}

impl View for ParseError {
    type V = ParseErrorView;

    open spec fn view(&self) -> ParseErrorView {
        match self {
            ParseError::NoCommand => ParseErrorView::NoCommand,
            ParseError::InvalidCommand(word) => ParseErrorView::InvalidCommand(word@),
            ParseError::Malformed { expected, line } => ParseErrorView::Malformed {
                expected: expected@,
                line: line@,
            },
        }
    }
}

impl ParseErrorView {
    /// The message of the error. The word, the usage and the line stand in
    /// it as [`quoted_text`] writes them.
    pub open spec fn message(self) -> Seq<char> {
        match self {
            ParseErrorView::NoCommand => "usage: command args ..."@,
            ParseErrorView::InvalidCommand(word) => quoted_text(word) + " is not a valid command."@,
            ParseErrorView::Malformed { expected, line } => "The pattern should be like "@
                + quoted_text(expected) + " but got "@ + quoted_text(line),
        }
    }
}

impl ParseError {
    /// The message of the error, as it is reported.
    pub fn to_string(&self) -> (message: String)
        ensures
            message@ == self@.message(),
    {
        match self {
            ParseError::NoCommand => String::from_str("usage: command args ..."),
            ParseError::InvalidCommand(word) => {
                let mut message = quoted(word.as_str());
                message.append(" is not a valid command.");
                message
            },
            ParseError::Malformed { expected, line } => {
                let mut message = String::from_str("The pattern should be like ");
                let expected_text = quoted(expected.as_str());
                message.append(expected_text.as_str());
                message.append(" but got ");
                let line_text = quoted(line.as_str());
                message.append(line_text.as_str());
                message
            },
        }
    }
}

} // verus!
