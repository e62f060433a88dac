use vstd::prelude::*;

use crate::span::Span;
use crate::strings::{comma_separated, join_sep};

verus! {

/// A parse error as the parser's machinery reports it, over plain values:
/// byte offsets, token texts, and the expected-token names.
#[derive(Debug)]
pub enum RawParseError {
    InvalidToken { location: usize },
    UnrecognizedEof { location: usize, expected: Vec<String> },
    UnrecognizedToken { start: usize, token: String, end: usize, expected: Vec<String> },
    ExtraToken { start: usize, token: String, end: usize },
    User { error: String },
}

/// A parse error ready for reporting: the expected-token lists are joined
/// into one message and token positions become source spans.
#[derive(Debug)]
pub enum ParseError {
    /// The lexer found a token it does not know.
    InvalidToken { location: usize },
    /// The input ended although more was expected.
    UnrecognizedEOF { location: usize, expected: String },
    /// A token appeared where another was expected.
    UnrecognizedToken { token: String, span: Span, expected: String },
    /// A token appeared after the input should have ended.
    ExtraToken { token: String, span: Span },
    /// An error raised by a grammar action.
    User { error: String },
}

/// Mathematical model of a raw parse error.
pub enum RawParseErrorS {
    InvalidToken { location: usize },
    UnrecognizedEof { location: usize, expected: Seq<Seq<char>> },
    UnrecognizedToken { start: usize, token: Seq<char>, end: usize, expected: Seq<Seq<char>> },
    ExtraToken { start: usize, token: Seq<char>, end: usize },
    User { error: Seq<char> },
}

/// Mathematical model of a reportable parse error.
pub enum ParseErrorS {
    InvalidToken { location: usize },
    UnrecognizedEOF { location: usize, expected: Seq<char> },
    UnrecognizedToken { token: Seq<char>, span: Span, expected: Seq<char> },
    ExtraToken { token: Seq<char>, span: Span },
    User { error: Seq<char> },
}

impl View for RawParseError {
    type V = RawParseErrorS;

    open spec fn view(&self) -> RawParseErrorS {
        match self {
            RawParseError::InvalidToken { location } => RawParseErrorS::InvalidToken {
                location: *location,
            },
            RawParseError::UnrecognizedEof { location, expected } => {
                RawParseErrorS::UnrecognizedEof {
                    location: *location,
                    expected: expected.deep_view(),
                }
            },
            RawParseError::UnrecognizedToken { start, token, end, expected } => {
                RawParseErrorS::UnrecognizedToken {
                    start: *start,
                    token: token@,
                    end: *end,
                    expected: expected.deep_view(),
                }
            },
            RawParseError::ExtraToken { start, token, end } => RawParseErrorS::ExtraToken {
                start: *start,
                token: token@,
                end: *end,
            },
            RawParseError::User { error } => RawParseErrorS::User { error: error@ },
        }
    }
}

impl View for ParseError {
    type V = ParseErrorS;

    open spec fn view(&self) -> ParseErrorS {
        match self {
            ParseError::InvalidToken { location } => ParseErrorS::InvalidToken {
                location: *location,
            },
            ParseError::UnrecognizedEOF { location, expected } => ParseErrorS::UnrecognizedEOF {
                location: *location,
                expected: expected@,
            },
            ParseError::UnrecognizedToken { token, span, expected } => {
                ParseErrorS::UnrecognizedToken { token: token@, span: *span, expected: expected@ }
            },
            ParseError::ExtraToken { token, span } => ParseErrorS::ExtraToken {
                token: token@,
                span: *span,
            },
            ParseError::User { error } => ParseErrorS::User { error: error@ },
        }
    }
}

/// The reportable form of a raw parse error: expected-token lists join with
/// `", "`, and a token's offsets become its span.
pub open spec fn parse_error_from_s(e: RawParseErrorS) -> ParseErrorS {
    match e {
        RawParseErrorS::InvalidToken { location } => ParseErrorS::InvalidToken { location },
        RawParseErrorS::UnrecognizedEof { location, expected } => ParseErrorS::UnrecognizedEOF {
            location,
            expected: join_sep(", "@, expected),
        },
        RawParseErrorS::UnrecognizedToken { start, token, end, expected } => {
            ParseErrorS::UnrecognizedToken {
                token,
                span: Span { start, end },
                expected: join_sep(", "@, expected),
            }
        },
        RawParseErrorS::ExtraToken { start, token, end } => ParseErrorS::ExtraToken {
            token,
            span: Span { start, end },
        },
        RawParseErrorS::User { error } => ParseErrorS::User { error },
    }
}

impl ParseError {
    /// Turn a raw parse error into its reportable form.
    pub fn from_raw(err: RawParseError) -> (r: ParseError)
        ensures
            r@ == parse_error_from_s(err@),
    {
        match err {
            RawParseError::InvalidToken { location } => ParseError::InvalidToken { location },
            RawParseError::UnrecognizedEof { location, expected } => ParseError::UnrecognizedEOF {
                location,
                expected: comma_separated(&expected),
            },
            RawParseError::UnrecognizedToken { start, token, end, expected } => {
                ParseError::UnrecognizedToken {
                    token,
                    span: Span { start, end },
                    expected: comma_separated(&expected),
                }
            },
            RawParseError::ExtraToken { start, token, end } => ParseError::ExtraToken {
                token,
                span: Span { start, end },
            },
            RawParseError::User { error } => ParseError::User { error },
        }
    }
}

} // verus!
