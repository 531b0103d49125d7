use vstd::prelude::*;
use crate::ast::ValueType;
use crate::position::Position;
use crate::token::Token;

verus! {

/// What the parser was looking for when it met the wrong token.
#[derive(Debug, PartialEq)]
pub enum Expected {
    /// One concrete token.
    Tok(Token),
    /// An identifier: any word.
    Ident,
    /// A section keyword at the top level.
    Section,
    /// A statement keyword after `[`.
    Keyword,
    /// An operator word after `(`.
    Operator,
    /// A comparator after `<`.
    Comparator,
    /// The start of a value of the given category.
    Value(ValueType),
    /// A trigger of the event vocabulary.
    Trigger,
    /// One of several concrete tokens.
    OneOf,
}

/// The error taxonomy of both stages. Lexing fails on an unterminated string,
/// a malformed number literal, or a character outside the lexical vocabulary;
/// parsing fails on a wrong token, exhausted input, or an unknown leading
/// word.
#[derive(Debug, PartialEq)]
pub enum ErrorKind {
    UnterminatedString,
    InvalidNumberLiteral,
    UnsupportedCharacter(char),
    UnexpectedToken { expected: Expected, got: Token },
    UnexpectedEndOfInput,
    UnknownSectionOrKeyword(String),
}

/// A located failure: what went wrong, the file it came from, and where. An
/// absent span signals the end of the input.
#[derive(Debug, PartialEq)]
pub struct Error {
    pub kind: ErrorKind,
    pub path: String,
    pub pos: Option<Position>,
}

impl Error {
    pub fn new(kind: ErrorKind, path: String, pos: Option<Position>) -> (r: Error)
        ensures
            r == (Error { kind, path, pos }),
    {
        Error { kind, path, pos }
    }

    /// A short human-readable message for the kind of failure.
    pub fn message(&self) -> (r: &'static str)
        ensures
            r@ == spec_message(self.kind),
    {
        match &self.kind {
            ErrorKind::UnterminatedString => "unclosed string",
            ErrorKind::InvalidNumberLiteral => "malformed number literal",
            ErrorKind::UnsupportedCharacter(_) => "unsupported character",
            ErrorKind::UnexpectedToken { expected: _, got: _ } => "unexpected token",
            ErrorKind::UnexpectedEndOfInput => "unexpected end of input",
            ErrorKind::UnknownSectionOrKeyword(_) => "unknown section or keyword",
        }
    }
}

/// The message of each kind of failure.
pub open spec fn spec_message(k: ErrorKind) -> Seq<char> {
    match k {
        ErrorKind::UnterminatedString => "unclosed string"@,
        ErrorKind::InvalidNumberLiteral => "malformed number literal"@,
        ErrorKind::UnsupportedCharacter(_) => "unsupported character"@,
        ErrorKind::UnexpectedToken { expected: _, got: _ } => "unexpected token"@,
        ErrorKind::UnexpectedEndOfInput => "unexpected end of input"@,
        ErrorKind::UnknownSectionOrKeyword(_) => "unknown section or keyword"@,
    }
}

} // verus!
