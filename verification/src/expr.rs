//! Action expressions: what a store action computes from the store, as a
//! run of host tokens in parentheses that may name no variable but the
//! store.

use vstd::prelude::*;
use vstd::string::StringExecFns;
use crate::common_write::{decimal_digits, join_text, write_decimal_digits, WriteText};
use crate::error::{ParseError, SpecParseError};
use crate::token::{
    token_at, views, Delim, IntSuffix, SpecCursor, SpecToken, Token, TokenCursor,
};

verus! {

/// The arithmetic operators of an action expression.
#[derive(Clone, Copy, Debug, PartialEq, Eq, Structural)]
pub enum BinOpType {
    Add,
    Subtract,
    Multiply,
    Divide,
}

/// The tokens that a literal was written with.
#[derive(Debug)]
pub struct LiteralData {
    pub val: Vec<Token>,
}

/// A literal of an action expression.
#[derive(Debug)]
pub enum Literal {
    Str(LiteralData),
    Number(LiteralData),
}

/// A node of an action expression.
#[derive(Debug)]
pub enum NodeKind {
    BinOp(BinOpType, Box<NodeKind>, Box<NodeKind>),
    Lit(Literal),
    /// The store, by its name.
    StoreRef(String),
}

/// The expression of a store action: the store that it belongs to and its
/// nodes in source order.
#[derive(Debug)]
pub struct ActionExpr {
    pub store_name: String,
    pub nodes: Vec<Box<NodeKind>>,
}

/// Builds the nodes of action expressions.
#[derive(Clone, Copy, Debug)]
pub struct ExprCtx {

}

impl ExprCtx {
    pub fn new() -> (r: ExprCtx) {
        ExprCtx {  }
    }

    /// The node that applies `op` to `left` and `right`.
    pub fn binop(&self, op: BinOpType, left: Box<NodeKind>, right: Box<NodeKind>) -> (r: Box<
        NodeKind,
    >)
        ensures
            *r == NodeKind::BinOp(op, left, right),
    {
        Box::new(NodeKind::BinOp(op, left, right))
    }

    /// The node that stands for the store named `store_name`.
    pub fn store_ref(&self, store_name: &str) -> (r: Box<NodeKind>)
        ensures
            *r matches NodeKind::StoreRef(name) && name@ == store_name@,
    {
        Box::new(NodeKind::StoreRef(store_name.to_owned()))
    }
}

/// The host tokens that a node is written back as: a reference to the store
/// is its name, and every other node has none.
pub open spec fn node_tokens(node: NodeKind) -> Seq<SpecToken> {
    match node {
        NodeKind::StoreRef(store_name) => seq![SpecToken::Ident(store_name@)],
        _ => Seq::empty(),
    }
}

/// The host tokens that `nodes` are written back as, in order.
pub open spec fn nodes_tokens(nodes: Seq<Box<NodeKind>>) -> Seq<SpecToken>
    decreases nodes.len(),
{
    if nodes.len() == 0 {
        Seq::empty()
    } else {
        nodes_tokens(nodes.drop_last()) + node_tokens(*nodes.last())
    }
}

impl NodeKind {
    /// Writes the node back as host tokens.
    pub fn to_tokens(&self) -> (r: Vec<Token>)
        ensures
            views(r@) == node_tokens(*self),
    {
        let mut res: Vec<Token> = Vec::new();
        match self {
            NodeKind::StoreRef(store_name) => {
                res.push(Token::Ident(store_name.clone()));
                assert(views(res@) =~= seq![SpecToken::Ident(store_name@)]);
            },
            _ => {
                assert(views(res@) =~= Seq::empty());
            },
        }
        res
    }
}

/// Writes `nodes` back as host tokens, in order.
pub fn nodes_to_tts(nodes: &[Box<NodeKind>]) -> (r: Vec<Token>)
    ensures
        views(r@) == nodes_tokens(nodes@),
{
    let mut res: Vec<Token> = Vec::new();
    let n = nodes.len();
    let mut i: usize = 0;
    assert(nodes@.take(0) =~= Seq::empty());
    assert(views(res@) =~= nodes_tokens(nodes@.take(0)));
    while i < n
        invariant
            n == nodes@.len(),
            0 <= i <= n,
            views(res@) == nodes_tokens(nodes@.take(i as int)),
        decreases n - i,
    {
        let ghost before = views(res@);
        let mut tokens = nodes[i].to_tokens();
        let ghost added = views(tokens@);
        res.append(&mut tokens);
        proof {
            let upto = nodes@.take(i as int + 1);
            assert(upto.drop_last() =~= nodes@.take(i as int));
            assert(upto.last() == nodes@[i as int]);
            assert(views(res@) =~= before + added);
        }
        i = i + 1;
    }
    assert(nodes@.take(n as int) =~= nodes@);
    res
}

/// Writes an action expression back as host tokens.
pub fn action_expr_to_tts(expr: ActionExpr) -> (r: Vec<Token>)
    ensures
        views(r@) == nodes_tokens(expr.nodes@),
{
    nodes_to_tts(expr.nodes.as_slice())
}

/// Whether `t` may stand in the expression of an action of the store named
/// `store_name`: `+`, `-`, `*` and `/`, braces, colons and literals may, and
/// an identifier may if it names the store.
pub open spec fn limited_expr_token(t: SpecToken, store_name: Seq<char>) -> bool {
    match t {
        SpecToken::Plus | SpecToken::Minus | SpecToken::Star | SpecToken::Slash => true,
        SpecToken::Ident(name) => name == store_name,
        SpecToken::OpenDelim(Delim::Brace) | SpecToken::CloseDelim(Delim::Brace) => true,
        SpecToken::Colon => true,
        SpecToken::LitStr(_) | SpecToken::LitInt(_, _) | SpecToken::LitOther(_) => true,
        _ => false,
    }
}

/// The result of reading tokens: the tokens and the position behind them.
pub type TokensParse = Result<(Seq<SpecToken>, int), SpecParseError>;

/// `rest` with `first` put in front of its tokens.
pub open spec fn with_first_tokens(first: Seq<SpecToken>, rest: TokensParse) -> TokensParse {
    match rest {
        Ok((tokens, end)) => Ok((first + tokens, end)),
        Err(e) => Err(e),
    }
}

/// The tokens from `pos` up to the first closing parenthesis, with the
/// position behind that parenthesis. Each of them must be one that
/// [`limited_expr_token`] accepts; the first that is not is an error, and so
/// is the end of the input.
pub open spec fn spec_limited_expr_tokens(
    tokens: Seq<SpecToken>,
    pos: int,
    store_name: Seq<char>,
) -> TokensParse
    decreases tokens.len() - pos,
{
    let t = token_at(tokens, pos);
    if t == SpecToken::CloseDelim(Delim::Paren) {
        Ok((Seq::empty(), (SpecCursor { tokens, pos }).after_current()))
    } else if limited_expr_token(t, store_name) {
        with_first_tokens(seq![t], spec_limited_expr_tokens(tokens, pos + 1, store_name))
    } else {
        Err(SpecParseError::UnexpectedToken { pos, found: t })
    }
}

/// The expression of an action of the store named `store_name`, written in
/// parentheses at `pos`.
pub open spec fn spec_parse_limited_expr_block(
    tokens: Seq<SpecToken>,
    pos: int,
    store_name: Seq<char>,
) -> TokensParse {
    match (SpecCursor { tokens, pos }).expect(SpecToken::OpenDelim(Delim::Paren)) {
        Err(e) => Err(e),
        Ok(inner) => spec_limited_expr_tokens(tokens, inner, store_name),
    }
}

/// Whether `t` may stand in the expression of an action of the store named
/// `store_name`.
fn is_limited_expr_token(t: &Token, store_name: &String) -> (r: bool)
    ensures
        r == limited_expr_token(t@, store_name@),
{
    match t {
        Token::Plus | Token::Minus | Token::Star | Token::Slash => true,
        Token::Ident(name) => *name == *store_name,
        Token::OpenDelim(Delim::Brace) | Token::CloseDelim(Delim::Brace) => true,
        Token::Colon => true,
        Token::LitStr(_) | Token::LitInt(_, _) | Token::LitOther(_) => true,
        _ => false,
    }
}

/// Reads the expression of an action of the store named `store_name`: the
/// tokens in parentheses, which may name no variable but the store.
pub fn parse_limited_expr_block(store_name: &str, parser: &mut TokenCursor) -> (r: Result<
    Vec<Token>,
    ParseError,
>)
    ensures
        final(parser)@.tokens == old(parser)@.tokens,
        match r {
            Ok(expr_tokens) => spec_parse_limited_expr_block(
                old(parser)@.tokens,
                old(parser)@.pos,
                store_name@,
            ) == Ok::<(Seq<SpecToken>, int), SpecParseError>(
                (views(expr_tokens@), final(parser)@.pos),
            ),
            Err(e) => spec_parse_limited_expr_block(
                old(parser)@.tokens,
                old(parser)@.pos,
                store_name@,
            ) == Err::<(Seq<SpecToken>, int), SpecParseError>(e@) && final(parser)@.pos
                == e@.position(),
        },
{
    match parser.expect(&Token::OpenDelim(Delim::Paren)) {
        Err(e) => {
            return Err(e);
        },
        Ok(_) => {},
    }
    let store = store_name.to_owned();
    let mut expr_tokens: Vec<Token> = Vec::new();
    let ghost tokens = parser@.tokens;
    let inner = parser.position();
    let ghost whole = spec_limited_expr_tokens(tokens, inner as int, store_name@);
    proof {
        match whole {
            Ok((all, _)) => {
                assert(views(expr_tokens@) + all =~= all);
            },
            Err(_) => {},
        }
    }
    loop
        invariant
            tokens == old(parser)@.tokens,
            parser@.tokens == tokens,
            store@ == store_name@,
            old(parser)@.expect(SpecToken::OpenDelim(Delim::Paren)) == Ok::<int, SpecParseError>(
                inner as int,
            ),
            whole == spec_limited_expr_tokens(tokens, inner as int, store_name@),
            inner <= parser@.pos <= tokens.len(),
            whole == with_first_tokens(
                views(expr_tokens@),
                spec_limited_expr_tokens(tokens, parser@.pos, store_name@),
            ),
        decreases tokens.len() - parser@.pos,
    {
        let pos = parser.position();
        let ghost read = views(expr_tokens@);
        if *parser.peek() == Token::CloseDelim(Delim::Paren) {
            parser.advance();
            assert(read + Seq::<SpecToken>::empty() =~= read);
            return Ok(expr_tokens);
        }
        if !is_limited_expr_token(parser.peek(), &store) {
            return Err(ParseError::UnexpectedToken { pos, found: parser.peek().clone() });
        }
        let token = parser.peek().clone();
        expr_tokens.push(token);
        parser.advance();
        proof {
            let after = spec_limited_expr_tokens(tokens, parser@.pos, store_name@);
            let next = seq![token@];
            assert(views(expr_tokens@) =~= read + next);
            match after {
                Ok((more, _)) => {
                    assert((read + next) + more =~= read + (next + more));
                },
                Err(_) => {},
            }
        }
    }
}

/// The definition of one store action: the sink that its reducer arm is
/// written to, the store, the action's name, and the tokens of the
/// expression that computes the store's next value.
#[derive(Debug)]
pub struct StoreActionDef {
    pub w: String,
    pub store_name: String,
    pub action_name: String,
    pub expr: Vec<Token>,
}

/// The mathematical value of a [`StoreActionDef`].
pub struct SpecStoreActionDef {
    pub w: Seq<char>,
    pub store_name: Seq<char>,
    pub action_name: Seq<char>,
    pub expr: Seq<SpecToken>,
}

impl View for StoreActionDef {
    type V = SpecStoreActionDef;

    open spec fn view(&self) -> SpecStoreActionDef {
        SpecStoreActionDef {
            w: self.w@,
            store_name: self.store_name@,
            action_name: self.action_name@,
            expr: views(self.expr@),
        }
    }
}

/// The definition written as `w, store, action NAME => (expression)` at
/// `pos`. The expression may name no variable but the store.
pub open spec fn spec_parse_define_store_action(tokens: Seq<SpecToken>, pos: int) -> Result<
    (SpecStoreActionDef, int),
    SpecParseError,
> {
    match (SpecCursor { tokens, pos }).parse_ident() {
        Err(e) => Err(e),
        Ok((w, p1)) => match (SpecCursor { tokens, pos: p1 }).expect(SpecToken::Comma) {
            Err(e) => Err(e),
            Ok(p2) => match (SpecCursor { tokens, pos: p2 }).parse_ident() {
                Err(e) => Err(e),
                Ok((store_name, p3)) => match (SpecCursor { tokens, pos: p3 }).expect(
                    SpecToken::Comma,
                ) {
                    Err(e) => Err(e),
                    Ok(p4) => match (SpecCursor { tokens, pos: p4 }).expect(
                        SpecToken::Ident("action"@),
                    ) {
                        Err(e) => Err(e),
                        Ok(p5) => match (SpecCursor { tokens, pos: p5 }).parse_ident() {
                            Err(e) => Err(e),
                            Ok((action_name, p6)) => match (SpecCursor { tokens, pos: p6 }).expect(
                                SpecToken::FatArrow,
                            ) {
                                Err(e) => Err(e),
                                Ok(p7) => match spec_parse_limited_expr_block(
                                    tokens,
                                    p7,
                                    store_name,
                                ) {
                                    Err(e) => Err(e),
                                    Ok((expr, end)) => Ok(
                                        (
                                            SpecStoreActionDef { w, store_name, action_name, expr },
                                            end,
                                        ),
                                    ),
                                },
                            },
                        },
                    },
                },
            },
        },
    }
}

/// Parses `w, store, action NAME => (expression)`.
pub fn parse_define_store_action(parser: &mut TokenCursor) -> (r: Result<
    StoreActionDef,
    ParseError,
>)
    ensures
        final(parser)@.tokens == old(parser)@.tokens,
        match r {
            Ok(def) => spec_parse_define_store_action(old(parser)@.tokens, old(parser)@.pos)
                == Ok::<(SpecStoreActionDef, int), SpecParseError>((def@, final(parser)@.pos)),
            Err(e) => spec_parse_define_store_action(old(parser)@.tokens, old(parser)@.pos)
                == Err::<(SpecStoreActionDef, int), SpecParseError>(e@) && final(parser)@.pos
                == e@.position(),
        },
{
    let w = match parser.parse_ident() {
        Err(e) => {
            return Err(e);
        },
        Ok(w) => w,
    };
    match parser.expect(&Token::Comma) {
        Err(e) => {
            return Err(e);
        },
        Ok(_) => {},
    }
    let store_name = match parser.parse_ident() {
        Err(e) => {
            return Err(e);
        },
        Ok(name) => name,
    };
    match parser.expect(&Token::Comma) {
        Err(e) => {
            return Err(e);
        },
        Ok(_) => {},
    }
    match parser.expect(&Token::Ident(String::from_str("action"))) {
        Err(e) => {
            return Err(e);
        },
        Ok(_) => {},
    }
    let action_name = match parser.parse_ident() {
        Err(e) => {
            return Err(e);
        },
        Ok(name) => name,
    };
    match parser.expect(&Token::FatArrow) {
        Err(e) => {
            return Err(e);
        },
        Ok(_) => {},
    }
    match parse_limited_expr_block(store_name.as_str(), parser) {
        Err(e) => Err(e),
        Ok(expr) => Ok(StoreActionDef { w, store_name, action_name, expr }),
    }
}

/// The source text of a token: an identifier as it is, a string literal in
/// double quotes with its text as it is, an integer in decimal with its
/// suffix where that is `i32` or `i64`, and every other token as written.
/// The end of the input has no text.
pub open spec fn token_source_text(token: SpecToken) -> Seq<char> {
    match token {
        SpecToken::Ident(name) => name,
        SpecToken::LitStr(text) => "\""@ + text + "\""@,
        SpecToken::LitInt(n, IntSuffix::I32) => decimal_digits(n as nat) + "i32"@,
        SpecToken::LitInt(n, IntSuffix::I64) => decimal_digits(n as nat) + "i64"@,
        SpecToken::LitInt(n, _) => decimal_digits(n as nat),
        SpecToken::LitOther(text) => text,
        SpecToken::Other(text) => text,
        SpecToken::Plus => "+"@,
        SpecToken::Minus => "-"@,
        SpecToken::Star => "*"@,
        SpecToken::Slash => "/"@,
        SpecToken::Dot => "."@,
        SpecToken::Comma => ","@,
        SpecToken::Colon => ":"@,
        SpecToken::Semi => ";"@,
        SpecToken::FatArrow => "=>"@,
        SpecToken::OpenDelim(Delim::Paren) => "("@,
        SpecToken::OpenDelim(Delim::Bracket) => "["@,
        SpecToken::OpenDelim(Delim::Brace) => "{"@,
        SpecToken::CloseDelim(Delim::Paren) => ")"@,
        SpecToken::CloseDelim(Delim::Bracket) => "]"@,
        SpecToken::CloseDelim(Delim::Brace) => "}"@,
        SpecToken::Eof => Seq::empty(),
    }
}

/// The source texts of `tokens`, one for each token.
pub open spec fn token_source_texts(tokens: Seq<SpecToken>) -> Seq<Seq<char>> {
    Seq::new(tokens.len(), |i: int| token_source_text(tokens[i]))
}

/// The source text of a run of tokens: the texts of the tokens, with one
/// space between two of them.
pub open spec fn tokens_source_text(tokens: Seq<SpecToken>) -> Seq<char> {
    join_text(token_source_texts(tokens), " "@)
}

/// The arm of a store's reducer that a store action stands for: under the
/// action's name, it returns an object that holds the value of the
/// expression under the store's name.
pub open spec fn store_action_case_text(def: SpecStoreActionDef) -> Seq<char> {
    "\t\tcase '"@ + def.action_name + "': return { "@ + def.store_name + ": ("@
        + tokens_source_text(def.expr) + ") };\n"@
}

/// Writes the source text of a token.
pub fn write_token_source<W: WriteText>(token: &Token, w: &mut W)
    ensures
        final(w).text() == old(w).text() + token_source_text(token@),
{
    match token {
        Token::Ident(name) => {
            w.write_text(name.as_str());
        },
        Token::LitStr(text) => {
            w.write_text("\"");
            w.write_text(text.as_str());
            w.write_text("\"");
            assert(w.text() =~= old(w).text() + ("\""@ + text@ + "\""@));
        },
        Token::LitInt(n, suffix) => {
            write_decimal_digits(w, *n);
            match suffix {
                IntSuffix::I32 => {
                    w.write_text("i32");
                    assert(w.text() =~= old(w).text() + (decimal_digits(*n as nat) + "i32"@));
                },
                IntSuffix::I64 => {
                    w.write_text("i64");
                    assert(w.text() =~= old(w).text() + (decimal_digits(*n as nat) + "i64"@));
                },
                _ => {},
            }
        },
        Token::LitOther(text) => {
            w.write_text(text.as_str());
        },
        Token::Other(text) => {
            w.write_text(text.as_str());
        },
        Token::Plus => {
            w.write_text("+");
        },
        Token::Minus => {
            w.write_text("-");
        },
        Token::Star => {
            w.write_text("*");
        },
        Token::Slash => {
            w.write_text("/");
        },
        Token::Dot => {
            w.write_text(".");
        },
        Token::Comma => {
            w.write_text(",");
        },
        Token::Colon => {
            w.write_text(":");
        },
        Token::Semi => {
            w.write_text(";");
        },
        Token::FatArrow => {
            w.write_text("=>");
        },
        Token::OpenDelim(Delim::Paren) => {
            w.write_text("(");
        },
        Token::OpenDelim(Delim::Bracket) => {
            w.write_text("[");
        },
        Token::OpenDelim(Delim::Brace) => {
            w.write_text("{");
        },
        Token::CloseDelim(Delim::Paren) => {
            w.write_text(")");
        },
        Token::CloseDelim(Delim::Bracket) => {
            w.write_text("]");
        },
        Token::CloseDelim(Delim::Brace) => {
            w.write_text("}");
        },
        Token::Eof => {
            assert(w.text() =~= old(w).text() + Seq::<char>::empty());
        },
    }
}

/// Writes the source text of a run of tokens, with one space between two
/// of them.
pub fn write_tokens_source<W: WriteText>(tokens: &[Token], w: &mut W)
    ensures
        final(w).text() == old(w).text() + tokens_source_text(views(tokens@)),
{
    let n = tokens.len();
    let mut i: usize = 0;
    let ghost texts = token_source_texts(views(tokens@));
    assert(texts.take(0) =~= Seq::empty());
    assert(w.text() =~= old(w).text() + join_text(texts.take(0), " "@));
    while i < n
        invariant
            n == tokens@.len(),
            texts == token_source_texts(views(tokens@)),
            0 <= i <= n,
            w.text() == old(w).text() + join_text(texts.take(i as int), " "@),
        decreases n - i,
    {
        if i > 0 {
            w.write_text(" ");
        }
        write_token_source(&tokens[i], w);
        proof {
            let upto = texts.take(i as int + 1);
            assert(upto.drop_last() =~= texts.take(i as int));
            assert(upto.last() == token_source_text(tokens@[i as int]@));
            assert(w.text() =~= old(w).text() + join_text(upto, " "@));
        }
        i = i + 1;
    }
    assert(texts.take(n as int) =~= texts);
}

impl StoreActionDef {
    /// Writes the arm of the store's reducer that the action stands for.
    pub fn write_action_case<W: WriteText>(&self, w: &mut W)
        ensures
            final(w).text() == old(w).text() + store_action_case_text(self@),
    {
        w.write_text("\t\tcase '");
        w.write_text(self.action_name.as_str());
        w.write_text("': return { ");
        w.write_text(self.store_name.as_str());
        w.write_text(": (");
        write_tokens_source(self.expr.as_slice(), w);
        w.write_text(") };\n");
        assert(w.text() =~= old(w).text() + store_action_case_text(self@));
    }
}

} // verus!
