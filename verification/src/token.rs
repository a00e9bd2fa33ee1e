//! The tokens that the template grammar is written in, and a cursor over them.

use vstd::prelude::*;
use vstd::std_specs::cmp::PartialEqSpecImpl;
use crate::error::{ParseError, SpecParseError};

verus! {

/// The three kinds of bracket.
#[derive(Clone, Copy, Debug, PartialEq, Eq, Structural)]
pub enum Delim {
    Paren,
    Bracket,
    Brace,
}

/// The type suffix written behind an integer literal.
#[derive(Clone, Copy, Debug, PartialEq, Eq, Structural)]
pub enum IntSuffix {
    /// No suffix at all.
    Unsuffixed,
    /// `i32`
    I32,
    /// `i64`
    I64,
    /// Any other integer suffix.
    Other,
}

/// One token of the host language, as the template grammar sees it.
#[derive(Debug)]
pub enum Token {
    /// An identifier or keyword.
    Ident(String),
    /// A string literal, without its quotes.
    LitStr(String),
    /// An integer literal with its suffix.
    LitInt(u64, IntSuffix),
    /// A literal of any other kind (float, char, ...), as written.
    LitOther(String),
    Plus,
    Minus,
    Star,
    Slash,
    Dot,
    Comma,
    Colon,
    Semi,
    FatArrow,
    OpenDelim(Delim),
    CloseDelim(Delim),
    /// Any token that the grammar has no use for, as written.
    Other(String),
    /// The end of the input.
    Eof,
}

/// The mathematical value of a [`Token`].
pub enum SpecToken {
    Ident(Seq<char>),
    LitStr(Seq<char>),
    LitInt(u64, IntSuffix),
    LitOther(Seq<char>),
    Plus,
    Minus,
    Star,
    Slash,
    Dot,
    Comma,
    Colon,
    Semi,
    FatArrow,
    OpenDelim(Delim),
    CloseDelim(Delim),
    Other(Seq<char>),
    Eof,
}

impl View for Token {
    type V = SpecToken;

    open spec fn view(&self) -> SpecToken {
        match self {
            Token::Ident(s) => SpecToken::Ident(s@),
            Token::LitStr(s) => SpecToken::LitStr(s@),
            Token::LitInt(n, suffix) => SpecToken::LitInt(*n, *suffix),
            Token::LitOther(s) => SpecToken::LitOther(s@),
            Token::Plus => SpecToken::Plus,
            Token::Minus => SpecToken::Minus,
            Token::Star => SpecToken::Star,
            Token::Slash => SpecToken::Slash,
            Token::Dot => SpecToken::Dot,
            Token::Comma => SpecToken::Comma,
            Token::Colon => SpecToken::Colon,
            Token::Semi => SpecToken::Semi,
            Token::FatArrow => SpecToken::FatArrow,
            Token::OpenDelim(d) => SpecToken::OpenDelim(*d),
            Token::CloseDelim(d) => SpecToken::CloseDelim(*d),
            Token::Other(s) => SpecToken::Other(s@),
            Token::Eof => SpecToken::Eof,
        }
    }
}

impl Clone for Token {
    fn clone(&self) -> (r: Token)
        ensures
            r@ == self@,
    {
        match self {
            Token::Ident(s) => Token::Ident(s.clone()),
            Token::LitStr(s) => Token::LitStr(s.clone()),
            Token::LitInt(n, suffix) => Token::LitInt(*n, *suffix),
            Token::LitOther(s) => Token::LitOther(s.clone()),
            Token::Plus => Token::Plus,
            Token::Minus => Token::Minus,
            Token::Star => Token::Star,
            Token::Slash => Token::Slash,
            Token::Dot => Token::Dot,
            Token::Comma => Token::Comma,
            Token::Colon => Token::Colon,
            Token::Semi => Token::Semi,
            Token::FatArrow => Token::FatArrow,
            Token::OpenDelim(d) => Token::OpenDelim(*d),
            Token::CloseDelim(d) => Token::CloseDelim(*d),
            Token::Other(s) => Token::Other(s.clone()),
            Token::Eof => Token::Eof,
        }
    }
}

impl PartialEq for Token {
    fn eq(&self, other: &Token) -> (r: bool) {
        match self {
            Token::Ident(a) => match other { Token::Ident(b) => *a == *b, _ => false },
            Token::LitStr(a) => match other { Token::LitStr(b) => *a == *b, _ => false },
            Token::LitInt(n, s) => match other { Token::LitInt(m, t) => *n == *m && *s == *t, _ => false },
            Token::LitOther(a) => match other { Token::LitOther(b) => *a == *b, _ => false },
            Token::Plus => match other { Token::Plus => true, _ => false },
            Token::Minus => match other { Token::Minus => true, _ => false },
            Token::Star => match other { Token::Star => true, _ => false },
            Token::Slash => match other { Token::Slash => true, _ => false },
            Token::Dot => match other { Token::Dot => true, _ => false },
            Token::Comma => match other { Token::Comma => true, _ => false },
            Token::Colon => match other { Token::Colon => true, _ => false },
            Token::Semi => match other { Token::Semi => true, _ => false },
            Token::FatArrow => match other { Token::FatArrow => true, _ => false },
            Token::OpenDelim(d) => match other { Token::OpenDelim(e) => *d == *e, _ => false },
            Token::CloseDelim(d) => match other { Token::CloseDelim(e) => *d == *e, _ => false },
            Token::Other(a) => match other { Token::Other(b) => *a == *b, _ => false },
            Token::Eof => match other { Token::Eof => true, _ => false },
        }
    }
}

impl PartialEqSpecImpl for Token {
    open spec fn obeys_eq_spec() -> bool {
        true
    }

    open spec fn eq_spec(&self, other: &Token) -> bool {
        self@ == other@
    }
}

/// The views of the items of `s`, in order.
pub open spec fn views<T: View>(s: Seq<T>) -> Seq<T::V> {
    Seq::new(s.len(), |i: int| s[i]@)
}

/// The token at `pos`; past the end of the input it is `Eof`.
pub open spec fn token_at(tokens: Seq<SpecToken>, pos: int) -> SpecToken {
    if 0 <= pos < tokens.len() {
        tokens[pos]
    } else {
        SpecToken::Eof
    }
}

/// What a [`TokenCursor`] stands for: the whole input and the index of the
/// current token.
pub struct SpecCursor {
    pub tokens: Seq<SpecToken>,
    pub pos: int,
}

/// A cursor over a token sequence: the current token can be read, and the
/// cursor can be moved forward, never back.
pub struct TokenCursor {
    tokens: Vec<Token>,
    pos: usize,
    eof: Token,
}

impl View for TokenCursor {
    type V = SpecCursor;

    closed spec fn view(&self) -> SpecCursor {
        SpecCursor { tokens: views(self.tokens@), pos: self.pos as int }
    }
}

impl TokenCursor {
    #[verifier::type_invariant]
    spec fn wf(&self) -> bool {
        &&& self.pos <= self.tokens.len()
        &&& self.eof@ == SpecToken::Eof
    }

    /// The current token of a cursor.
    pub open spec fn current(c: SpecCursor) -> SpecToken {
        token_at(c.tokens, c.pos)
    }

    /// A cursor at the first token of `tokens`.
    pub fn new(tokens: Vec<Token>) -> (r: TokenCursor)
        ensures
            r@.tokens == views(tokens@),
            r@.pos == 0,
    {
        TokenCursor { tokens, pos: 0, eof: Token::Eof }
    }

    /// The index of the current token.
    pub fn position(&self) -> (r: usize)
        ensures
            r == self@.pos,
            0 <= self@.pos <= self@.tokens.len(),
    {
        proof {
            use_type_invariant(self);
        }
        self.pos
    }

    /// The current token, `Eof` when the input is used up.
    pub fn peek(&self) -> (r: &Token)
        ensures
            r@ == Self::current(self@),
            0 <= self@.pos <= self@.tokens.len(),
    {
        proof {
            use_type_invariant(self);
        }
        if self.pos < self.tokens.len() {
            &self.tokens[self.pos]
        } else {
            &self.eof
        }
    }

    /// Moves to the next token. At the end of the input the cursor stays.
    pub fn advance(&mut self)
        ensures
            final(self)@.tokens == old(self)@.tokens,
            final(self)@.pos == old(self)@.after_current(),
    {
        proof {
            use_type_invariant(&*self);
        }
        if self.pos < self.tokens.len() {
            self.pos = self.pos + 1;
        }
    }
}

impl SpecCursor {
    /// What [`TokenCursor::expect`] does on this cursor: the position behind
    /// the current token if that token is `expected`, else the error.
    pub open spec fn expect(self, expected: SpecToken) -> Result<int, SpecParseError> {
        let found = token_at(self.tokens, self.pos);
        if found == expected {
            Ok(self.after_current())
        } else {
            Err(SpecParseError::Expected { pos: self.pos, expected, found })
        }
    }

    /// What [`TokenCursor::parse_ident`] does on this cursor: the identifier's
    /// text and the position behind it, or the error.
    pub open spec fn parse_ident(self) -> Result<(Seq<char>, int), SpecParseError> {
        match token_at(self.tokens, self.pos) {
            SpecToken::Ident(name) => Ok((name, self.pos + 1)),
            found => Err(SpecParseError::ExpectedIdent { pos: self.pos, found }),
        }
    }

    /// The position that [`TokenCursor::advance`] moves to.
    pub open spec fn after_current(self) -> int {
        if self.pos < self.tokens.len() {
            self.pos + 1
        } else {
            self.pos
        }
    }
}

impl TokenCursor {
    /// Steps over the current token if it equals `expected`; otherwise the
    /// cursor stays and the error names both tokens.
    pub fn expect(&mut self, expected: &Token) -> (r: Result<(), ParseError>)
        ensures
            final(self)@.tokens == old(self)@.tokens,
            match r {
                Ok(_) => old(self)@.expect(expected@) == Ok::<int, SpecParseError>(final(self)@.pos),
                Err(e) => old(self)@.expect(expected@) == Err::<int, SpecParseError>(e@)
                    && final(self)@.pos == old(self)@.pos,
            },
    {
        let pos = self.position();
        if *self.peek() == *expected {
            self.advance();
            Ok(())
        } else {
            Err(ParseError::Expected { pos, expected: expected.clone(), found: self.peek().clone() })
        }
    }

    /// Steps over the current token if it is an identifier and returns its
    /// text; otherwise the cursor stays and the error names the token.
    pub fn parse_ident(&mut self) -> (r: Result<String, ParseError>)
        ensures
            final(self)@.tokens == old(self)@.tokens,
            match r {
                Ok(name) => old(self)@.parse_ident() == Ok::<(Seq<char>, int), SpecParseError>(
                    (name@, final(self)@.pos),
                ),
                Err(e) => old(self)@.parse_ident() == Err::<(Seq<char>, int), SpecParseError>(e@)
                    && final(self)@.pos == old(self)@.pos,
            },
    {
        let pos = self.position();
        match self.peek() {
            Token::Ident(name) => {
                let name = name.clone();
                self.advance();
                Ok(name)
            },
            found => Err(ParseError::ExpectedIdent { pos, found: found.clone() }),
        }
    }
}

} // verus!
