//! The ways in which parsing fails. Every failure is final for the template
//! that holds it: nothing is produced for a template that does not parse.

use vstd::prelude::*;
use vstd::std_specs::cmp::PartialEqSpecImpl;
use crate::nodes::content_node::{NodeType, SpecNodeType};
use crate::token::{SpecToken, Token};

verus! {

/// A syntax error, with the index of the offending token in the input.
#[derive(Debug)]
pub enum ParseError {
    /// A token that cannot stand inside a simple expression.
    UnexpectedToken { pos: usize, found: Token },
    /// A literal that a simple expression cannot hold: anything but a string,
    /// or an integer that is unsuffixed or suffixed `i32` or `i64`.
    UnsupportedLiteral { pos: usize, found: Token },
    /// The grammar asks for `expected` here.
    Expected { pos: usize, expected: Token, found: Token },
    /// The grammar asks for an identifier here.
    ExpectedIdent { pos: usize, found: Token },
    /// Contents hold a token that starts neither an element nor an expression
    /// and does not close them.
    UnknownContent { pos: usize, found: Token, context: NodeType },
    /// A store arm starts with a word other than `default` or `action`.
    UnsupportedArm { pos: usize, label: String },
    /// The class name of an object expression does not start with an
    /// uppercase letter.
    InvalidClassName { pos: usize, name: String },
    /// A template holds a definition that is neither a `view` nor a `store`.
    UnknownKeyword { pos: usize, keyword: String },
    /// A template holds two views, or two stores, of one name; `pos` is
    /// where the second one is named.
    DuplicateName { pos: usize, name: String },
}

/// The mathematical value of a [`ParseError`].
pub enum SpecParseError {
    UnexpectedToken { pos: int, found: SpecToken },
    UnsupportedLiteral { pos: int, found: SpecToken },
    Expected { pos: int, expected: SpecToken, found: SpecToken },
    ExpectedIdent { pos: int, found: SpecToken },
    UnknownContent { pos: int, found: SpecToken, context: SpecNodeType },
    UnsupportedArm { pos: int, label: Seq<char> },
    InvalidClassName { pos: int, name: Seq<char> },
    UnknownKeyword { pos: int, keyword: Seq<char> },
    DuplicateName { pos: int, name: Seq<char> },
}

impl View for ParseError {
    type V = SpecParseError;

    open spec fn view(&self) -> SpecParseError {
        match self {
            ParseError::UnexpectedToken { pos, found } => SpecParseError::UnexpectedToken {
                pos: *pos as int,
                found: found@,
            },
            ParseError::UnsupportedLiteral { pos, found } => SpecParseError::UnsupportedLiteral {
                pos: *pos as int,
                found: found@,
            },
            ParseError::Expected { pos, expected, found } => SpecParseError::Expected {
                pos: *pos as int,
                expected: expected@,
                found: found@,
            },
            ParseError::ExpectedIdent { pos, found } => SpecParseError::ExpectedIdent {
                pos: *pos as int,
                found: found@,
            },
            ParseError::UnknownContent { pos, found, context } => SpecParseError::UnknownContent {
                pos: *pos as int,
                found: found@,
                context: context@,
            },
            ParseError::UnsupportedArm { pos, label } => SpecParseError::UnsupportedArm {
                pos: *pos as int,
                label: label@,
            },
            ParseError::InvalidClassName { pos, name } => SpecParseError::InvalidClassName {
                pos: *pos as int,
                name: name@,
            },
            ParseError::UnknownKeyword { pos, keyword } => SpecParseError::UnknownKeyword {
                pos: *pos as int,
                keyword: keyword@,
            },
            ParseError::DuplicateName { pos, name } => SpecParseError::DuplicateName {
                pos: *pos as int,
                name: name@,
            },
        }
    }
}

impl ParseError {
    /// The index of the token at which parsing stopped.
    pub fn position(&self) -> (r: usize)
        ensures
            r as int == self@.position(),
    {
        match self {
            ParseError::UnexpectedToken { pos, .. } => *pos,
            ParseError::UnsupportedLiteral { pos, .. } => *pos,
            ParseError::Expected { pos, .. } => *pos,
            ParseError::ExpectedIdent { pos, .. } => *pos,
            ParseError::UnknownContent { pos, .. } => *pos,
            ParseError::UnsupportedArm { pos, .. } => *pos,
            ParseError::InvalidClassName { pos, .. } => *pos,
            ParseError::UnknownKeyword { pos, .. } => *pos,
            ParseError::DuplicateName { pos, .. } => *pos,
        }
    }
}

impl SpecParseError {
    /// The index of the token at which parsing stopped.
    pub open spec fn position(self) -> int {
        match self {
            SpecParseError::UnexpectedToken { pos, .. } => pos,
            SpecParseError::UnsupportedLiteral { pos, .. } => pos,
            SpecParseError::Expected { pos, .. } => pos,
            SpecParseError::ExpectedIdent { pos, .. } => pos,
            SpecParseError::UnknownContent { pos, .. } => pos,
            SpecParseError::UnsupportedArm { pos, .. } => pos,
            SpecParseError::InvalidClassName { pos, .. } => pos,
            SpecParseError::UnknownKeyword { pos, .. } => pos,
            SpecParseError::DuplicateName { pos, .. } => pos,
        }
    }
}

impl Clone for ParseError {
    fn clone(&self) -> (r: ParseError)
        ensures
            r@ == self@,
    {
        match self {
            ParseError::UnexpectedToken { pos, found } => ParseError::UnexpectedToken {
                pos: *pos,
                found: found.clone(),
            },
            ParseError::UnsupportedLiteral { pos, found } => ParseError::UnsupportedLiteral {
                pos: *pos,
                found: found.clone(),
            },
            ParseError::Expected { pos, expected, found } => ParseError::Expected {
                pos: *pos,
                expected: expected.clone(),
                found: found.clone(),
            },
            ParseError::ExpectedIdent { pos, found } => ParseError::ExpectedIdent {
                pos: *pos,
                found: found.clone(),
            },
            ParseError::UnknownContent { pos, found, context } => ParseError::UnknownContent {
                pos: *pos,
                found: found.clone(),
                context: context.clone(),
            },
            ParseError::UnsupportedArm { pos, label } => ParseError::UnsupportedArm {
                pos: *pos,
                label: label.clone(),
            },
            ParseError::InvalidClassName { pos, name } => ParseError::InvalidClassName {
                pos: *pos,
                name: name.clone(),
            },
            ParseError::UnknownKeyword { pos, keyword } => ParseError::UnknownKeyword {
                pos: *pos,
                keyword: keyword.clone(),
            },
            ParseError::DuplicateName { pos, name } => ParseError::DuplicateName {
                pos: *pos,
                name: name.clone(),
            },
        }
    }
}

impl PartialEq for ParseError {
    fn eq(&self, other: &ParseError) -> (r: bool) {
        match self {
            ParseError::UnexpectedToken { pos, found } => match other {
                ParseError::UnexpectedToken { pos: p, found: f } => *pos == *p && *found == *f,
                _ => false,
            },
            ParseError::UnsupportedLiteral { pos, found } => match other {
                ParseError::UnsupportedLiteral { pos: p, found: f } => *pos == *p && *found == *f,
                _ => false,
            },
            ParseError::Expected { pos, expected, found } => match other {
                ParseError::Expected { pos: p, expected: e, found: f } => *pos == *p
                    && *expected == *e && *found == *f,
                _ => false,
            },
            ParseError::ExpectedIdent { pos, found } => match other {
                ParseError::ExpectedIdent { pos: p, found: f } => *pos == *p && *found == *f,
                _ => false,
            },
            ParseError::UnknownContent { pos, found, context } => match other {
                ParseError::UnknownContent { pos: p, found: f, context: c } => *pos == *p
                    && *found == *f && *context == *c,
                _ => false,
            },
            ParseError::UnsupportedArm { pos, label } => match other {
                ParseError::UnsupportedArm { pos: p, label: l } => *pos == *p && *label == *l,
                _ => false,
            },
            ParseError::InvalidClassName { pos, name } => match other {
                ParseError::InvalidClassName { pos: p, name: n } => *pos == *p && *name == *n,
                _ => false,
            },
            ParseError::UnknownKeyword { pos, keyword } => match other {
                ParseError::UnknownKeyword { pos: p, keyword: k } => *pos == *p && *keyword == *k,
                _ => false,
            },
            ParseError::DuplicateName { pos, name } => match other {
                ParseError::DuplicateName { pos: p, name: n } => *pos == *p && *name == *n,
                _ => false,
            },
        }
    }
}

impl PartialEqSpecImpl for ParseError {
    open spec fn obeys_eq_spec() -> bool {
        true
    }

    open spec fn eq_spec(&self, other: &ParseError) -> bool {
        self@ == other@
    }
}

} // verus!
