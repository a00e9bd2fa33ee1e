//! Simple expressions: a flat run of variable references, literals, `+`, `-`
//! and parentheses. The tokens are kept as they were written; nothing is
//! evaluated and no precedence is applied.

use vstd::prelude::*;
use vstd::std_specs::cmp::PartialEqSpecImpl;
use vstd::string::StringExecFns;
use crate::error::{ParseError, SpecParseError};
use crate::token::{token_at, views, Delim, IntSuffix, SpecToken, Token, TokenCursor};

verus! {

/// An integer literal of a simple expression, with the width it was written
/// with.
#[derive(Clone, Copy, Debug, PartialEq, Eq, Structural)]
pub enum SimpleExprNumber {
    Int64(i64),
    Int32(i32),
}

/// One token of a simple expression.
#[derive(Debug)]
pub enum SimpleExprToken {
    /// A variable, or a dotted path such as `a.b.c`.
    VarReference(String),
    LitString(String),
    LitNumber(SimpleExprNumber),
    OpenBrace,
    CloseBrace,
    OpenParen,
    CloseParen,
    BinopPlus,
    BinopMinus,
}

/// The mathematical value of a [`SimpleExprToken`].
pub enum SpecSimpleExprToken {
    VarReference(Seq<char>),
    LitString(Seq<char>),
    LitNumber(SimpleExprNumber),
    OpenBrace,
    CloseBrace,
    OpenParen,
    CloseParen,
    BinopPlus,
    BinopMinus,
}

impl View for SimpleExprToken {
    type V = SpecSimpleExprToken;

    open spec fn view(&self) -> SpecSimpleExprToken {
        match self {
            SimpleExprToken::VarReference(s) => SpecSimpleExprToken::VarReference(s@),
            SimpleExprToken::LitString(s) => SpecSimpleExprToken::LitString(s@),
            SimpleExprToken::LitNumber(n) => SpecSimpleExprToken::LitNumber(*n),
            SimpleExprToken::OpenBrace => SpecSimpleExprToken::OpenBrace,
            SimpleExprToken::CloseBrace => SpecSimpleExprToken::CloseBrace,
            SimpleExprToken::OpenParen => SpecSimpleExprToken::OpenParen,
            SimpleExprToken::CloseParen => SpecSimpleExprToken::CloseParen,
            SimpleExprToken::BinopPlus => SpecSimpleExprToken::BinopPlus,
            SimpleExprToken::BinopMinus => SpecSimpleExprToken::BinopMinus,
        }
    }
}

impl Clone for SimpleExprToken {
    fn clone(&self) -> (r: SimpleExprToken)
        ensures
            r@ == self@,
    {
        match self {
            SimpleExprToken::VarReference(s) => SimpleExprToken::VarReference(s.clone()),
            SimpleExprToken::LitString(s) => SimpleExprToken::LitString(s.clone()),
            SimpleExprToken::LitNumber(n) => SimpleExprToken::LitNumber(*n),
            SimpleExprToken::OpenBrace => SimpleExprToken::OpenBrace,
            SimpleExprToken::CloseBrace => SimpleExprToken::CloseBrace,
            SimpleExprToken::OpenParen => SimpleExprToken::OpenParen,
            SimpleExprToken::CloseParen => SimpleExprToken::CloseParen,
            SimpleExprToken::BinopPlus => SimpleExprToken::BinopPlus,
            SimpleExprToken::BinopMinus => SimpleExprToken::BinopMinus,
        }
    }
}

impl PartialEq for SimpleExprToken {
    fn eq(&self, other: &SimpleExprToken) -> (r: bool) {
        match self {
            SimpleExprToken::VarReference(a) => match other {
                SimpleExprToken::VarReference(b) => *a == *b,
                _ => false,
            },
            SimpleExprToken::LitString(a) => match other {
                SimpleExprToken::LitString(b) => *a == *b,
                _ => false,
            },
            SimpleExprToken::LitNumber(a) => match other {
                SimpleExprToken::LitNumber(b) => *a == *b,
                _ => false,
            },
            SimpleExprToken::OpenBrace => match other {
                SimpleExprToken::OpenBrace => true,
                _ => false,
            },
            SimpleExprToken::CloseBrace => match other {
                SimpleExprToken::CloseBrace => true,
                _ => false,
            },
            SimpleExprToken::OpenParen => match other {
                SimpleExprToken::OpenParen => true,
                _ => false,
            },
            SimpleExprToken::CloseParen => match other {
                SimpleExprToken::CloseParen => true,
                _ => false,
            },
            SimpleExprToken::BinopPlus => match other {
                SimpleExprToken::BinopPlus => true,
                _ => false,
            },
            SimpleExprToken::BinopMinus => match other {
                SimpleExprToken::BinopMinus => true,
                _ => false,
            },
        }
    }
}

impl PartialEqSpecImpl for SimpleExprToken {
    open spec fn obeys_eq_spec() -> bool {
        true
    }

    open spec fn eq_spec(&self, other: &SimpleExprToken) -> bool {
        self@ == other@
    }
}

/// A simple expression: its tokens in source order.
#[derive(Debug)]
pub struct SimpleExpr {
    pub tokens: Vec<SimpleExprToken>,
}

impl View for SimpleExpr {
    type V = Seq<SpecSimpleExprToken>;

    open spec fn view(&self) -> Seq<SpecSimpleExprToken> {
        views(self.tokens@)
    }
}

impl SimpleExpr {
    /// The expression that holds `tokens`.
    pub fn new(tokens: Vec<SimpleExprToken>) -> (r: SimpleExpr)
        ensures
            r@ == views(tokens@),
    {
        SimpleExpr { tokens }
    }

    /// The tokens of the expression, in source order.
    pub fn tokens(&self) -> (r: &[SimpleExprToken])
        ensures
            views(r@) == self@,
    {
        self.tokens.as_slice()
    }
}

impl Clone for SimpleExpr {
    fn clone(&self) -> (r: SimpleExpr)
        ensures
            r@ == self@,
    {
        let mut tokens: Vec<SimpleExprToken> = Vec::new();
        let n = self.tokens.len();
        let mut i: usize = 0;
        while i < n
            invariant
                n == self.tokens.len(),
                0 <= i <= n,
                tokens@.len() == i,
                forall|j: int| 0 <= j < i ==> tokens@[j]@ == self.tokens@[j]@,
            decreases n - i,
        {
            tokens.push(self.tokens[i].clone());
            i = i + 1;
        }
        assert(views(tokens@) =~= views(self.tokens@));
        SimpleExpr { tokens }
    }
}

impl PartialEq for SimpleExpr {
    fn eq(&self, other: &SimpleExpr) -> (r: bool) {
        let n = self.tokens.len();
        if n != other.tokens.len() {
            assert(self@.len() != other@.len());
            return false;
        }
        let mut i: usize = 0;
        while i < n
            invariant
                n == self.tokens.len(),
                n == other.tokens.len(),
                0 <= i <= n,
                forall|j: int| 0 <= j < i ==> self.tokens@[j]@ == other.tokens@[j]@,
            decreases n - i,
        {
            if !(self.tokens[i] == other.tokens[i]) {
                assert(self@[i as int] != other@[i as int]);
                return false;
            }
            i = i + 1;
        }
        assert(self@ =~= other@);
        true
    }
}

impl PartialEqSpecImpl for SimpleExpr {
    open spec fn obeys_eq_spec() -> bool {
        true
    }

    open spec fn eq_spec(&self, other: &SimpleExpr) -> bool {
        self@ == other@
    }
}

/// A sink for the tokens of a simple expression.
pub trait SimpleExprWrite {
    /// The tokens written so far.
    spec fn expr_tokens(&self) -> Seq<SpecSimpleExprToken>;

    fn var_reference(&mut self, var_name: &str)
        ensures
            final(self).expr_tokens() == old(self).expr_tokens().push(
                SpecSimpleExprToken::VarReference(var_name@),
            ),
    ;

    fn string_lit(&mut self, lit: &str)
        ensures
            final(self).expr_tokens() == old(self).expr_tokens().push(
                SpecSimpleExprToken::LitString(lit@),
            ),
    ;

    fn number_lit(&mut self, lit: &SimpleExprNumber)
        ensures
            final(self).expr_tokens() == old(self).expr_tokens().push(
                SpecSimpleExprToken::LitNumber(*lit),
            ),
    ;

    fn open_brace(&mut self)
        ensures
            final(self).expr_tokens() == old(self).expr_tokens().push(
                SpecSimpleExprToken::OpenBrace,
            ),
    ;

    fn close_brace(&mut self)
        ensures
            final(self).expr_tokens() == old(self).expr_tokens().push(
                SpecSimpleExprToken::CloseBrace,
            ),
    ;

    fn open_paren(&mut self)
        ensures
            final(self).expr_tokens() == old(self).expr_tokens().push(
                SpecSimpleExprToken::OpenParen,
            ),
    ;

    fn close_paren(&mut self)
        ensures
            final(self).expr_tokens() == old(self).expr_tokens().push(
                SpecSimpleExprToken::CloseParen,
            ),
    ;

    fn binop_plus(&mut self)
        ensures
            final(self).expr_tokens() == old(self).expr_tokens().push(
                SpecSimpleExprToken::BinopPlus,
            ),
    ;

    fn binop_minus(&mut self)
        ensures
            final(self).expr_tokens() == old(self).expr_tokens().push(
                SpecSimpleExprToken::BinopMinus,
            ),
    ;
}

impl SimpleExprWrite for Vec<SimpleExprToken> {
    open spec fn expr_tokens(&self) -> Seq<SpecSimpleExprToken> {
        views(self@)
    }

    fn var_reference(&mut self, var_name: &str) {
        self.push(SimpleExprToken::VarReference(var_name.to_owned()));
        assert(views(self@) =~= views(old(self)@).push(self@.last()@));
    }

    fn string_lit(&mut self, lit: &str) {
        self.push(SimpleExprToken::LitString(lit.to_owned()));
        assert(views(self@) =~= views(old(self)@).push(self@.last()@));
    }

    fn number_lit(&mut self, lit: &SimpleExprNumber) {
        self.push(SimpleExprToken::LitNumber(*lit));
        assert(views(self@) =~= views(old(self)@).push(self@.last()@));
    }

    fn open_brace(&mut self) {
        self.push(SimpleExprToken::OpenBrace);
        assert(views(self@) =~= views(old(self)@).push(self@.last()@));
    }

    fn close_brace(&mut self) {
        self.push(SimpleExprToken::CloseBrace);
        assert(views(self@) =~= views(old(self)@).push(self@.last()@));
    }

    fn open_paren(&mut self) {
        self.push(SimpleExprToken::OpenParen);
        assert(views(self@) =~= views(old(self)@).push(self@.last()@));
    }

    fn close_paren(&mut self) {
        self.push(SimpleExprToken::CloseParen);
        assert(views(self@) =~= views(old(self)@).push(self@.last()@));
    }

    fn binop_plus(&mut self) {
        self.push(SimpleExprToken::BinopPlus);
        assert(views(self@) =~= views(old(self)@).push(self@.last()@));
    }

    fn binop_minus(&mut self) {
        self.push(SimpleExprToken::BinopMinus);
        assert(views(self@) =~= views(old(self)@).push(self@.last()@));
    }
}

/// Something that can replay itself as the tokens of a simple expression.
pub trait WriteSimpleExpr {
    /// The tokens that `write_simple_expr` writes.
    spec fn simple_expr_tokens(&self) -> Seq<SpecSimpleExprToken>;

    fn write_simple_expr<W: SimpleExprWrite>(&self, w: &mut W)
        ensures
            final(w).expr_tokens() == old(w).expr_tokens() + self.simple_expr_tokens(),
    ;
}

impl WriteSimpleExpr for SimpleExprToken {
    open spec fn simple_expr_tokens(&self) -> Seq<SpecSimpleExprToken> {
        seq![self@]
    }

    fn write_simple_expr<W: SimpleExprWrite>(&self, w: &mut W) {
        match self {
            SimpleExprToken::VarReference(var_name) => w.var_reference(var_name.as_str()),
            SimpleExprToken::LitString(contents) => w.string_lit(contents.as_str()),
            SimpleExprToken::LitNumber(n) => w.number_lit(n),
            SimpleExprToken::OpenBrace => w.open_brace(),
            SimpleExprToken::CloseBrace => w.close_brace(),
            SimpleExprToken::OpenParen => w.open_paren(),
            SimpleExprToken::CloseParen => w.close_paren(),
            SimpleExprToken::BinopPlus => w.binop_plus(),
            SimpleExprToken::BinopMinus => w.binop_minus(),
        }
        assert(w.expr_tokens() =~= old(w).expr_tokens() + seq![self@]);
    }
}

impl WriteSimpleExpr for SimpleExpr {
    open spec fn simple_expr_tokens(&self) -> Seq<SpecSimpleExprToken> {
        self@
    }

    fn write_simple_expr<W: SimpleExprWrite>(&self, w: &mut W) {
        let n = self.tokens.len();
        let mut i: usize = 0;
        assert(w.expr_tokens() =~= old(w).expr_tokens() + self@.take(0));
        while i < n
            invariant
                n == self.tokens.len(),
                0 <= i <= n,
                w.expr_tokens() == old(w).expr_tokens() + self@.take(i as int),
            decreases n - i,
        {
            self.tokens[i].write_simple_expr(w);
            assert(w.expr_tokens() =~= old(w).expr_tokens() + self@.take(i as int + 1));
            i = i + 1;
        }
        assert(self@.take(n as int) =~= self@);
    }
}

/// A type that stands for one simple expression, which is the same for all
/// of its values.
pub trait ToSimpleExprTokens {
    /// The tokens of the expression.
    spec fn fixed_expr_tokens() -> Seq<SpecSimpleExprToken>;

    /// The tokens of the expression, in source order.
    fn to_simple_expr_tokens() -> (r: Vec<SimpleExprToken>)
        ensures
            views(r@) == Self::fixed_expr_tokens(),
    ;
}

/// The position behind the run of identifiers and dots that starts at `pos`.
pub open spec fn var_reference_end(tokens: Seq<SpecToken>, pos: int) -> int
    decreases tokens.len() - pos,
{
    if 0 <= pos < tokens.len() && (tokens[pos] is Ident || tokens[pos] is Dot) {
        var_reference_end(tokens, pos + 1)
    } else {
        pos
    }
}

/// The text of the run of identifiers and dots that starts at `pos`: the
/// identifiers as written, with a `.` for each dot.
pub open spec fn var_reference_text(tokens: Seq<SpecToken>, pos: int) -> Seq<char>
    decreases tokens.len() - pos,
{
    if 0 <= pos < tokens.len() {
        match tokens[pos] {
            SpecToken::Ident(name) => name + var_reference_text(tokens, pos + 1),
            SpecToken::Dot => seq!['.'] + var_reference_text(tokens, pos + 1),
            _ => Seq::empty(),
        }
    } else {
        Seq::empty()
    }
}

/// A run of identifiers and dots never ends before it starts, nor behind the
/// input; one that starts with an identifier or a dot is not empty.
pub proof fn lemma_var_reference_end_bounds(tokens: Seq<SpecToken>, pos: int)
    requires
        0 <= pos <= tokens.len(),
    ensures
        pos <= var_reference_end(tokens, pos) <= tokens.len(),
        pos < tokens.len() && (tokens[pos] is Ident || tokens[pos] is Dot) ==> pos
            < var_reference_end(tokens, pos),
    decreases tokens.len() - pos,
{
    if pos < tokens.len() && (tokens[pos] is Ident || tokens[pos] is Dot) {
        lemma_var_reference_end_bounds(tokens, pos + 1);
    }
}

/// The value that an integer literal takes in a simple expression. The
/// literal's digits are reduced to the width of its suffix in two's
/// complement; an unsuffixed literal is 64 bits wide. A literal with any
/// other suffix has no value there.
pub open spec fn literal_number(n: u64, suffix: IntSuffix) -> Option<SimpleExprNumber> {
    match suffix {
        IntSuffix::Unsuffixed | IntSuffix::I64 => Some(
            SimpleExprNumber::Int64(
                if n <= i64::MAX {
                    n as i64
                } else {
                    (n - 0x1_0000_0000_0000_0000) as i64
                },
            ),
        ),
        IntSuffix::I32 => Some(
            SimpleExprNumber::Int32(
                if n % 0x1_0000_0000 <= i32::MAX {
                    (n % 0x1_0000_0000) as i32
                } else {
                    (n % 0x1_0000_0000 - 0x1_0000_0000) as i32
                },
            ),
        ),
        IntSuffix::Other => None,
    }
}

/// Computes [`literal_number`].
pub fn number_of_literal(n: u64, suffix: IntSuffix) -> (r: Option<SimpleExprNumber>)
    ensures
        r == literal_number(n, suffix),
{
    match suffix {
        IntSuffix::Unsuffixed | IntSuffix::I64 => {
            if n <= 0x7fff_ffff_ffff_ffff {
                Some(SimpleExprNumber::Int64(n as i64))
            } else {
                let low: i64 = (n - 0x8000_0000_0000_0000) as i64;
                Some(SimpleExprNumber::Int64(low + i64::MIN))
            }
        },
        IntSuffix::I32 => {
            let m: u64 = n % 0x1_0000_0000;
            if m <= 0x7fff_ffff {
                Some(SimpleExprNumber::Int32(m as i32))
            } else {
                let low: i32 = (m - 0x8000_0000) as i32;
                Some(SimpleExprNumber::Int32(low + i32::MIN))
            }
        },
        IntSuffix::Other => None,
    }
}

/// The result of parsing expression tokens: the tokens and the position
/// behind them, or the error.
pub type ExprParse = Result<(Seq<SpecSimpleExprToken>, int), SpecParseError>;

/// `rest` with `prefix` put in front of its tokens.
pub open spec fn with_prefix(prefix: Seq<SpecSimpleExprToken>, rest: ExprParse) -> ExprParse {
    match rest {
        Ok((tokens, end)) => Ok((prefix + tokens, end)),
        Err(e) => Err(e),
    }
}

/// How a token that is no identifier enters a simple expression: string and
/// integer literals, `+`, `-` and parentheses do; a literal of another kind
/// is unsupported, and every other token is unexpected.
pub open spec fn expr_token_of(t: SpecToken, pos: int) -> Result<
    SpecSimpleExprToken,
    SpecParseError,
> {
    match t {
        SpecToken::LitStr(s) => Ok(SpecSimpleExprToken::LitString(s)),
        SpecToken::LitInt(n, suffix) => match literal_number(n, suffix) {
            Some(number) => Ok(SpecSimpleExprToken::LitNumber(number)),
            None => Err(SpecParseError::UnsupportedLiteral { pos, found: t }),
        },
        SpecToken::LitOther(_) => Err(SpecParseError::UnsupportedLiteral { pos, found: t }),
        SpecToken::Plus => Ok(SpecSimpleExprToken::BinopPlus),
        SpecToken::Minus => Ok(SpecSimpleExprToken::BinopMinus),
        SpecToken::OpenDelim(Delim::Paren) => Ok(SpecSimpleExprToken::OpenParen),
        SpecToken::CloseDelim(Delim::Paren) => Ok(SpecSimpleExprToken::CloseParen),
        _ => Err(SpecParseError::UnexpectedToken { pos, found: t }),
    }
}

/// The simple expression that starts at `pos` and runs up to the first token
/// that is one of `stops`, which is left unread. A run of identifiers and
/// dots becomes one variable reference.
pub open spec fn spec_parse_expr_contents(
    tokens: Seq<SpecToken>,
    pos: int,
    stops: Seq<SpecToken>,
) -> ExprParse
    decreases tokens.len() - pos,
{
    let t = token_at(tokens, pos);
    if stops.contains(t) {
        Ok((Seq::empty(), pos))
    } else if t is Ident {
        proof {
            lemma_var_reference_end_bounds(tokens, pos);
        }
        with_prefix(
            seq![SpecSimpleExprToken::VarReference(var_reference_text(tokens, pos))],
            spec_parse_expr_contents(tokens, var_reference_end(tokens, pos), stops),
        )
    } else {
        match expr_token_of(t, pos) {
            Ok(token) => with_prefix(
                seq![token],
                spec_parse_expr_contents(tokens, pos + 1, stops),
            ),
            Err(e) => Err(e),
        }
    }
}

/// The tokens of the simple expression that starts at `pos`, as far as they
/// can be read: up to the first token that is one of `stops`, or that no
/// simple expression can hold.
pub open spec fn spec_read_expr_tokens(
    tokens: Seq<SpecToken>,
    pos: int,
    stops: Seq<SpecToken>,
) -> Seq<SpecSimpleExprToken>
    decreases tokens.len() - pos,
{
    let t = token_at(tokens, pos);
    if stops.contains(t) {
        Seq::empty()
    } else if t is Ident {
        proof {
            lemma_var_reference_end_bounds(tokens, pos);
        }
        seq![SpecSimpleExprToken::VarReference(var_reference_text(tokens, pos))]
            + spec_read_expr_tokens(tokens, var_reference_end(tokens, pos), stops)
    } else {
        match expr_token_of(t, pos) {
            Ok(token) => seq![token] + spec_read_expr_tokens(tokens, pos + 1, stops),
            Err(_) => Seq::empty(),
        }
    }
}

/// A simple expression ends at or behind its start, at a token inside the
/// input or at its end.
pub proof fn lemma_expr_contents_bounds(tokens: Seq<SpecToken>, pos: int, stops: Seq<SpecToken>)
    requires
        0 <= pos <= tokens.len(),
    ensures
        spec_parse_expr_contents(tokens, pos, stops) matches Ok((_, end)) ==> pos <= end
            <= tokens.len() && stops.contains(token_at(tokens, end)),
    decreases tokens.len() - pos,
{
    let t = token_at(tokens, pos);
    if stops.contains(t) {
    } else if t is Ident {
        lemma_var_reference_end_bounds(tokens, pos);
        lemma_expr_contents_bounds(tokens, var_reference_end(tokens, pos), stops);
    } else if expr_token_of(t, pos) is Ok {
        lemma_expr_contents_bounds(tokens, pos + 1, stops);
    }
}

/// Reads a run of identifiers and dots as one variable reference. The cursor
/// is left at the first token that is neither.
pub fn parse_var_reference(parser: &mut TokenCursor) -> (r: Result<SimpleExprToken, ParseError>)
    ensures
        final(parser)@.tokens == old(parser)@.tokens,
        final(parser)@.pos == var_reference_end(old(parser)@.tokens, old(parser)@.pos),
        r matches Ok(token) && token@ == SpecSimpleExprToken::VarReference(
            var_reference_text(old(parser)@.tokens, old(parser)@.pos),
        ),
{
    let mut var_name = String::new();
    let ghost tokens = parser@.tokens;
    let start = parser.position();
    proof {
        assert(var_name@ + var_reference_text(tokens, start as int) =~= var_reference_text(
            tokens,
            start as int,
        ));
    }
    loop
        invariant_except_break
            var_name@ + var_reference_text(tokens, parser@.pos) == var_reference_text(
                tokens,
                start as int,
            ),
            var_reference_end(tokens, parser@.pos) == var_reference_end(tokens, start as int),
        invariant
            tokens == old(parser)@.tokens,
            start == old(parser)@.pos,
            parser@.tokens == tokens,
            0 <= parser@.pos <= tokens.len(),
        ensures
            var_name@ == var_reference_text(tokens, start as int),
            parser@.pos == var_reference_end(tokens, start as int),
        decreases tokens.len() - parser@.pos,
    {
        let ghost before = var_name@;
        let ghost pos = parser@.pos;
        match parser.peek() {
            Token::Ident(ident) => {
                var_name.append(ident.as_str());
            },
            Token::Dot => {
                proof {
                    reveal_strlit(".");
                }
                var_name.append(".");
                assert(var_name@ =~= before + seq!['.']);
            },
            _ => {
                assert(var_name@ =~= var_name@ + var_reference_text(tokens, pos));
                break ;
            },
        }
        parser.advance();
        assert(var_name@ + var_reference_text(tokens, pos + 1) =~= before + var_reference_text(
            tokens,
            pos,
        ));
    }
    Ok(SimpleExprToken::VarReference(var_name))
}

/// Whether `t` is one of `stops`.
fn is_stop(t: &Token, stops: &[Token]) -> (r: bool)
    ensures
        r == views(stops@).contains(t@),
{
    let n = stops.len();
    let mut i: usize = 0;
    while i < n
        invariant
            n == stops@.len(),
            0 <= i <= n,
            forall|j: int| 0 <= j < i ==> stops@[j]@ != t@,
        decreases n - i,
    {
        if stops[i] == *t {
            assert(views(stops@)[i as int] == t@);
            return true;
        }
        i = i + 1;
    }
    false
}

/// Parses the tokens of a simple expression into `w`, up to the first token
/// that is one of `stops`; that token is left unread. On an error the cursor
/// is left at the offending token, and `w` has got what was read before it.
pub fn parse_expr_contents_into_until<W: SimpleExprWrite>(
    parser: &mut TokenCursor,
    w: &mut W,
    stops: &[Token],
) -> (r: Result<(), ParseError>)
    ensures
        final(parser)@.tokens == old(parser)@.tokens,
        final(w).expr_tokens() == old(w).expr_tokens() + spec_read_expr_tokens(
            old(parser)@.tokens,
            old(parser)@.pos,
            views(stops@),
        ),
        match r {
            Ok(_) => spec_parse_expr_contents(
                old(parser)@.tokens,
                old(parser)@.pos,
                views(stops@),
            ) == Ok::<(Seq<SpecSimpleExprToken>, int), SpecParseError>(
                (
                    spec_read_expr_tokens(old(parser)@.tokens, old(parser)@.pos, views(stops@)),
                    final(parser)@.pos,
                ),
            ),
            Err(e) => spec_parse_expr_contents(
                old(parser)@.tokens,
                old(parser)@.pos,
                views(stops@),
            ) == Err::<(Seq<SpecSimpleExprToken>, int), SpecParseError>(e@) && final(parser)@.pos
                == e@.position(),
        },
{
    let ghost tokens = parser@.tokens;
    let start = parser.position();
    let ghost whole = spec_parse_expr_contents(tokens, start as int, views(stops@));
    let ghost readable = spec_read_expr_tokens(tokens, start as int, views(stops@));
    let ghost mut read: Seq<SpecSimpleExprToken> = Seq::empty();
    proof {
        assert(w.expr_tokens() =~= old(w).expr_tokens() + read);
        assert(read + readable =~= readable);
        match whole {
            Ok((all, end)) => {
                assert(read + all =~= all);
            },
            Err(_) => {},
        }
    }
    loop
        invariant
            tokens == old(parser)@.tokens,
            start == old(parser)@.pos,
            whole == spec_parse_expr_contents(tokens, start as int, views(stops@)),
            readable == spec_read_expr_tokens(tokens, start as int, views(stops@)),
            readable == read + spec_read_expr_tokens(tokens, parser@.pos, views(stops@)),
            parser@.tokens == tokens,
            0 <= parser@.pos <= tokens.len(),
            w.expr_tokens() == old(w).expr_tokens() + read,
            whole == with_prefix(
                read,
                spec_parse_expr_contents(tokens, parser@.pos, views(stops@)),
            ),
        decreases tokens.len() - parser@.pos,
    {
        let pos = parser.position();
        let ghost rest = spec_parse_expr_contents(tokens, pos as int, views(stops@));
        assert(read + Seq::<SpecSimpleExprToken>::empty() =~= read);
        if is_stop(parser.peek(), stops) {
            return Ok(());
        }
        let is_ident = match parser.peek() {
            Token::Ident(_) => true,
            _ => false,
        };
        let ghost next: Seq<SpecSimpleExprToken>;
        if is_ident {
            proof {
                lemma_var_reference_end_bounds(tokens, pos as int);
            }
            match parse_var_reference(parser) {
                Ok(SimpleExprToken::VarReference(var_name)) => {
                    w.var_reference(var_name.as_str());
                },
                _ => {},
            }
            proof {
                next = seq![SpecSimpleExprToken::VarReference(var_reference_text(tokens, pos as int))];
            }
        } else {
            match parser.peek() {
                Token::LitStr(s) => {
                    w.string_lit(s.as_str());
                },
                Token::LitInt(n, suffix) => {
                    match number_of_literal(*n, *suffix) {
                        Some(number) => {
                            w.number_lit(&number);
                        },
                        None => {
                            return Err(
                                ParseError::UnsupportedLiteral { pos, found: parser.peek().clone() },
                            );
                        },
                    }
                },
                Token::LitOther(_) => {
                    return Err(ParseError::UnsupportedLiteral { pos, found: parser.peek().clone() });
                },
                Token::Plus => {
                    w.binop_plus();
                },
                Token::Minus => {
                    w.binop_minus();
                },
                Token::OpenDelim(Delim::Paren) => {
                    w.open_paren();
                },
                Token::CloseDelim(Delim::Paren) => {
                    w.close_paren();
                },
                found => {
                    return Err(ParseError::UnexpectedToken { pos, found: found.clone() });
                },
            }
            proof {
                next = seq![expr_token_of(token_at(tokens, pos as int), pos as int)->Ok_0];
            }
            parser.advance();
        }
        proof {
            let after = spec_parse_expr_contents(tokens, parser@.pos, views(stops@));
            let more_readable = spec_read_expr_tokens(tokens, parser@.pos, views(stops@));
            assert(rest == with_prefix(next, after));
            assert(w.expr_tokens() =~= old(w).expr_tokens() + (read + next));
            assert((read + next) + more_readable =~= read + (next + more_readable));
            match after {
                Ok((more, end)) => {
                    assert((read + next) + more =~= read + (next + more));
                },
                Err(_) => {},
            }
            read = read + next;
        }
    }
}

/// Parses a simple expression up to the first token that is one of `stops`;
/// that token is left unread.
pub fn parse_simple_expr_until(parser: &mut TokenCursor, stops: &[Token]) -> (r: Result<
    SimpleExpr,
    ParseError,
>)
    ensures
        final(parser)@.tokens == old(parser)@.tokens,
        match r {
            Ok(expr) => spec_parse_expr_contents(
                old(parser)@.tokens,
                old(parser)@.pos,
                views(stops@),
            ) == Ok::<(Seq<SpecSimpleExprToken>, int), SpecParseError>(
                (expr@, final(parser)@.pos),
            ),
            Err(e) => spec_parse_expr_contents(
                old(parser)@.tokens,
                old(parser)@.pos,
                views(stops@),
            ) == Err::<(Seq<SpecSimpleExprToken>, int), SpecParseError>(e@) && final(parser)@.pos
                == e@.position(),
        },
{
    let mut tokens: Vec<SimpleExprToken> = Vec::new();
    match parse_expr_contents_into_until(parser, &mut tokens, stops) {
        Ok(_) => {
            assert(views(tokens@) =~= spec_read_expr_tokens(
                old(parser)@.tokens,
                old(parser)@.pos,
                views(stops@),
            ));
            Ok(SimpleExpr { tokens })
        },
        Err(e) => Err(e),
    }
}

/// Parses a simple expression up to the closing bracket of kind `end_delim`,
/// which is left unread.
pub fn parse_simple_expr(parser: &mut TokenCursor, end_delim: Delim) -> (r: Result<
    SimpleExpr,
    ParseError,
>)
    ensures
        final(parser)@.tokens == old(parser)@.tokens,
        match r {
            Ok(expr) => spec_parse_expr_contents(
                old(parser)@.tokens,
                old(parser)@.pos,
                seq![SpecToken::CloseDelim(end_delim)],
            ) == Ok::<(Seq<SpecSimpleExprToken>, int), SpecParseError>(
                (expr@, final(parser)@.pos),
            ),
            Err(e) => spec_parse_expr_contents(
                old(parser)@.tokens,
                old(parser)@.pos,
                seq![SpecToken::CloseDelim(end_delim)],
            ) == Err::<(Seq<SpecSimpleExprToken>, int), SpecParseError>(e@) && final(parser)@.pos
                == e@.position(),
        },
{
    let stops = [Token::CloseDelim(end_delim)];
    assert(views(stops@) =~= seq![SpecToken::CloseDelim(end_delim)]);
    parse_simple_expr_until(parser, &stops)
}

/// The number of opening parentheses among `tokens`.
pub open spec fn count_open_parens(tokens: Seq<SpecSimpleExprToken>) -> nat
    decreases tokens.len(),
{
    if tokens.len() == 0 {
        0
    } else {
        count_open_parens(tokens.drop_last()) + if tokens.last() is OpenParen {
            1nat
        } else {
            0nat
        }
    }
}

/// A simple expression that stops at a closing parenthesis starts inside
/// the input and ends at a closing parenthesis inside the input.
pub proof fn lemma_expr_to_paren_bounds(tokens: Seq<SpecToken>, pos: int)
    ensures
        spec_parse_expr_contents(
            tokens,
            pos,
            seq![SpecToken::CloseDelim(Delim::Paren)],
        ) matches Ok((_, close)) ==> 0 <= pos <= close < tokens.len() && tokens[close]
            == SpecToken::CloseDelim(Delim::Paren),
{
    let stops = seq![SpecToken::CloseDelim(Delim::Paren)];
    assert(!stops.contains(SpecToken::Eof));
    if 0 <= pos <= tokens.len() {
        lemma_expr_contents_bounds(tokens, pos, stops);
    }
}

/// The simple expression in parentheses that goes on at `pos`, up to the
/// `)` that closes it, which is left unread. `depth` counts the parentheses
/// that the expression has opened before `pos` and not closed yet. The
/// expression is read up to the next `)`: that one closes the expression if
/// no parenthesis of the expression is still open; else it closes the last
/// that is, belongs to the expression, and the expression goes on behind it.
pub open spec fn spec_parse_paren_expr(tokens: Seq<SpecToken>, pos: int, depth: nat) -> ExprParse
    decreases tokens.len() - pos,
{
    match spec_parse_expr_contents(tokens, pos, seq![SpecToken::CloseDelim(Delim::Paren)]) {
        Err(e) => Err(e),
        Ok((expr, close)) => if depth + count_open_parens(expr) == 0 {
            Ok((expr, close))
        } else {
            proof {
                lemma_expr_to_paren_bounds(tokens, pos);
            }
            with_prefix(
                expr.push(SpecSimpleExprToken::CloseParen),
                spec_parse_paren_expr(
                    tokens,
                    close + 1,
                    (depth + count_open_parens(expr) - 1) as nat,
                ),
            )
        },
    }
}

/// A simple expression in parentheses ends at or behind its start, at a
/// closing parenthesis inside the input.
pub proof fn lemma_paren_expr_bounds(tokens: Seq<SpecToken>, pos: int, depth: nat)
    ensures
        spec_parse_paren_expr(tokens, pos, depth) matches Ok((_, end)) ==> 0 <= pos <= end
            < tokens.len() && tokens[end] == SpecToken::CloseDelim(Delim::Paren),
    decreases tokens.len() - pos,
{
    lemma_expr_to_paren_bounds(tokens, pos);
    match spec_parse_expr_contents(tokens, pos, seq![SpecToken::CloseDelim(Delim::Paren)]) {
        Err(_) => {},
        Ok((expr, close)) => {
            if depth + count_open_parens(expr) != 0 {
                lemma_paren_expr_bounds(
                    tokens,
                    close + 1,
                    (depth + count_open_parens(expr) - 1) as nat,
                );
            }
        },
    }
}

/// The number of opening parentheses among the tokens of `tokens` from the
/// index `from` on.
fn count_open_parens_from(tokens: &Vec<SimpleExprToken>, from: usize) -> (r: usize)
    requires
        from <= tokens.len(),
    ensures
        r == count_open_parens(views(tokens@).skip(from as int)),
        r <= tokens.len() - from,
{
    let n = tokens.len();
    let ghost rest = views(tokens@).skip(from as int);
    let mut count: usize = 0;
    let mut i: usize = from;
    assert(rest.take(0) =~= Seq::empty());
    while i < n
        invariant
            n == tokens.len(),
            rest == views(tokens@).skip(from as int),
            from <= i <= n,
            count == count_open_parens(rest.take(i - from)),
            count <= i - from,
        decreases n - i,
    {
        proof {
            let upto = rest.take(i - from + 1);
            assert(upto.drop_last() =~= rest.take(i - from));
            assert(upto.last() == tokens@[i as int]@);
        }
        match &tokens[i] {
            SimpleExprToken::OpenParen => {
                count = count + 1;
            },
            _ => {},
        }
        i = i + 1;
    }
    assert(rest.take(n - from) =~= rest);
    count
}

/// Parses a simple expression in parentheses, from behind its `(` up to the
/// `)` that closes it, which is left unread. Parentheses inside the
/// expression are tokens of it.
pub fn parse_simple_expr_in_parens(parser: &mut TokenCursor) -> (r: Result<SimpleExpr, ParseError>)
    ensures
        final(parser)@.tokens == old(parser)@.tokens,
        match r {
            Ok(expr) => spec_parse_paren_expr(old(parser)@.tokens, old(parser)@.pos, 0) == Ok::<
                (Seq<SpecSimpleExprToken>, int),
                SpecParseError,
            >((expr@, final(parser)@.pos)) && TokenCursor::current(final(parser)@)
                == SpecToken::CloseDelim(Delim::Paren),
            Err(e) => spec_parse_paren_expr(old(parser)@.tokens, old(parser)@.pos, 0) == Err::<
                (Seq<SpecSimpleExprToken>, int),
                SpecParseError,
            >(e@) && final(parser)@.pos == e@.position(),
        },
{
    let stops = [Token::CloseDelim(Delim::Paren)];
    let mut out: Vec<SimpleExprToken> = Vec::new();
    let mut depth: usize = 0;
    let ghost tokens = parser@.tokens;
    let start = parser.position();
    let ghost whole = spec_parse_paren_expr(tokens, start as int, 0);
    proof {
        assert(views(stops@) =~= seq![SpecToken::CloseDelim(Delim::Paren)]);
        match whole {
            Ok((all, _)) => {
                assert(views(out@) + all =~= all);
            },
            Err(_) => {},
        }
    }
    loop
        invariant
            tokens == old(parser)@.tokens,
            start == old(parser)@.pos,
            parser@.tokens == tokens,
            start <= parser@.pos <= tokens.len(),
            views(stops@) == seq![SpecToken::CloseDelim(Delim::Paren)],
            depth <= out.len(),
            whole == spec_parse_paren_expr(tokens, start as int, 0),
            whole == with_prefix(
                views(out@),
                spec_parse_paren_expr(tokens, parser@.pos, depth as nat),
            ),
        decreases tokens.len() - parser@.pos,
    {
        let ghost before = views(out@);
        let ghost pos = parser@.pos;
        let from = out.len();
        match parse_expr_contents_into_until(parser, &mut out, &stops) {
            Err(e) => {
                return Err(e);
            },
            Ok(_) => {},
        }
        let ghost expr = spec_read_expr_tokens(tokens, pos, views(stops@));
        proof {
            lemma_expr_to_paren_bounds(tokens, pos);
            assert(views(out@) =~= before + expr);
            assert(views(out@).skip(from as int) =~= expr);
        }
        let opened = count_open_parens_from(&out, from);
        depth = depth + opened;
        if depth == 0 {
            return Ok(SimpleExpr { tokens: out });
        }
        out.close_paren();
        parser.advance();
        depth = depth - 1;
        proof {
            let after = spec_parse_paren_expr(tokens, parser@.pos, depth as nat);
            let next = expr.push(SpecSimpleExprToken::CloseParen);
            assert(views(out@) =~= before + next);
            match after {
                Ok((more, _)) => {
                    assert((before + next) + more =~= before + (next + more));
                },
                Err(_) => {},
            }
        }
    }
}

} // verus!
