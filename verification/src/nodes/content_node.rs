//! The contents of views and elements.

use vstd::prelude::*;
use vstd::std_specs::cmp::PartialEqSpecImpl;
use crate::error::{ParseError, SpecParseError};
use crate::nodes::element_node::{parse_element, Element};
use crate::simple_expr::{
    lemma_expr_contents_bounds, parse_simple_expr, spec_parse_expr_contents, SimpleExpr,
    SimpleExprToken, SpecSimpleExprToken,
};
use crate::token::{token_at, views, Delim, SpecCursor, SpecToken, Token, TokenCursor};

verus! {

/// Whose contents are being parsed: those of a view, or those of an element
/// with the given tag. It tells a reader of a diagnostic where the parser was.
#[derive(Debug)]
pub enum NodeType {
    Root,
    Named(String),
}

/// The mathematical value of a [`NodeType`].
pub enum SpecNodeType {
    Root,
    Named(Seq<char>),
}

impl View for NodeType {
    type V = SpecNodeType;

    open spec fn view(&self) -> SpecNodeType {
        match self {
            NodeType::Root => SpecNodeType::Root,
            NodeType::Named(tag) => SpecNodeType::Named(tag@),
        }
    }
}

impl Clone for NodeType {
    fn clone(&self) -> (r: NodeType)
        ensures
            r@ == self@,
    {
        match self {
            NodeType::Root => NodeType::Root,
            NodeType::Named(tag) => NodeType::Named(tag.clone()),
        }
    }
}

impl PartialEq for NodeType {
    fn eq(&self, other: &NodeType) -> (r: bool) {
        match self {
            NodeType::Root => match other { NodeType::Root => true, _ => false },
            NodeType::Named(a) => match other { NodeType::Named(b) => *a == *b, _ => false },
        }
    }
}

impl PartialEqSpecImpl for NodeType {
    open spec fn obeys_eq_spec() -> bool {
        true
    }

    open spec fn eq_spec(&self, other: &NodeType) -> bool {
        self@ == other@
    }
}

/// A literal value: text that is known when the template is compiled.
#[derive(Debug)]
pub enum LitValue {
    LitString(String),
}

/// The mathematical value of a [`LitValue`].
pub enum SpecLitValue {
    LitString(Seq<char>),
}

impl View for LitValue {
    type V = SpecLitValue;

    open spec fn view(&self) -> SpecLitValue {
        match self {
            LitValue::LitString(s) => SpecLitValue::LitString(s@),
        }
    }
}

impl Clone for LitValue {
    fn clone(&self) -> (r: LitValue)
        ensures
            r@ == self@,
    {
        match self {
            LitValue::LitString(s) => LitValue::LitString(s.clone()),
        }
    }
}

impl PartialEq for LitValue {
    fn eq(&self, other: &LitValue) -> (r: bool) {
        match self {
            LitValue::LitString(a) => match other {
                LitValue::LitString(b) => *a == *b,
            },
        }
    }
}

impl PartialEqSpecImpl for LitValue {
    open spec fn obeys_eq_spec() -> bool {
        true
    }

    open spec fn eq_spec(&self, other: &LitValue) -> bool {
        self@ == other@
    }
}

/// One item of the contents of a view or an element.
#[derive(Debug)]
pub enum ContentNode {
    /// A nested element.
    ElementNode(Element),
    /// An expression, whose value is written when the view is rendered.
    ExprNode(SimpleExpr),
    /// Text that is written as it stands.
    LiteralNode(LitValue),
}

/// The mathematical value of a [`ContentNode`].
pub enum SpecContentNode {
    ElementNode(SpecElement),
    ExprNode(Seq<SpecSimpleExprToken>),
    LiteralNode(SpecLitValue),
}

/// The mathematical value of an [`Element`]: its tag and its contents in
/// document order.
pub struct SpecElement {
    pub tag: Seq<char>,
    pub contents: Seq<SpecContentNode>,
}

impl View for ContentNode {
    type V = SpecContentNode;

    open spec fn view(&self) -> SpecContentNode
        decreases self,
    {
        match self {
            ContentNode::ElementNode(e) => SpecContentNode::ElementNode(
                SpecElement {
                    tag: e.tag@,
                    contents: Seq::new(
                        e.contents@.len(),
                        |i: int|
                            if 0 <= i < e.contents@.len() {
                                e.contents@[i].view()
                            } else {
                                SpecContentNode::ExprNode(Seq::empty())
                            },
                    ),
                },
            ),
            ContentNode::ExprNode(expr) => SpecContentNode::ExprNode(expr@),
            ContentNode::LiteralNode(lit) => SpecContentNode::LiteralNode(lit@),
        }
    }
}

/// The value of an element node is the value of its element.
pub proof fn lemma_element_node_view(e: Element)
    ensures
        ContentNode::ElementNode(e)@ == SpecContentNode::ElementNode(e@),
{
    assert(ContentNode::ElementNode(e)@->ElementNode_0.contents =~= views(e.contents@));
}

/// A copy of `nodes`.
pub fn clone_contents(nodes: &Vec<ContentNode>) -> (r: Vec<ContentNode>)
    ensures
        views(r@) == views(nodes@),
    decreases nodes,
{
    let mut copy: Vec<ContentNode> = Vec::new();
    let n = nodes.len();
    let mut i: usize = 0;
    while i < n
        invariant
            n == nodes.len(),
            0 <= i <= n,
            copy@.len() == i,
            forall|j: int| 0 <= j < i ==> copy@[j]@ == nodes@[j]@,
        decreases n - i,
    {
        let node = match &nodes[i] {
            ContentNode::ElementNode(e) => {
                let element = Element { tag: e.tag.clone(), contents: clone_contents(&e.contents) };
                proof {
                    lemma_element_node_view(*e);
                    lemma_element_node_view(element);
                }
                ContentNode::ElementNode(element)
            },
            ContentNode::ExprNode(expr) => ContentNode::ExprNode(expr.clone()),
            ContentNode::LiteralNode(lit) => ContentNode::LiteralNode(lit.clone()),
        };
        copy.push(node);
        i = i + 1;
    }
    assert(views(copy@) =~= views(nodes@));
    copy
}

/// Whether `a` and `b` hold the same nodes in the same order.
pub fn contents_eq(a: &Vec<ContentNode>, b: &Vec<ContentNode>) -> (r: bool)
    ensures
        r == (views(a@) == views(b@)),
    decreases a,
{
    let n = a.len();
    if n != b.len() {
        assert(views(a@).len() != views(b@).len());
        return false;
    }
    let mut i: usize = 0;
    while i < n
        invariant
            n == a.len(),
            n == b.len(),
            0 <= i <= n,
            forall|j: int| 0 <= j < i ==> a@[j]@ == b@[j]@,
        decreases n - i,
    {
        let same = match &a[i] {
            ContentNode::ElementNode(e) => match &b[i] {
                ContentNode::ElementNode(f) => {
                    proof {
                        lemma_element_node_view(*e);
                        lemma_element_node_view(*f);
                    }
                    e.tag == f.tag && contents_eq(&e.contents, &f.contents)
                },
                _ => false,
            },
            ContentNode::ExprNode(x) => match &b[i] {
                ContentNode::ExprNode(y) => *x == *y,
                _ => false,
            },
            ContentNode::LiteralNode(x) => match &b[i] {
                ContentNode::LiteralNode(y) => *x == *y,
                _ => false,
            },
        };
        if !same {
            assert(views(a@)[i as int] != views(b@)[i as int]);
            return false;
        }
        i = i + 1;
    }
    assert(views(a@) =~= views(b@));
    true
}

impl Clone for ContentNode {
    fn clone(&self) -> (r: ContentNode)
        ensures
            r@ == self@,
    {
        match self {
            ContentNode::ElementNode(e) => {
                let element = e.clone();
                proof {
                    lemma_element_node_view(*e);
                    lemma_element_node_view(element);
                }
                ContentNode::ElementNode(element)
            },
            ContentNode::ExprNode(expr) => ContentNode::ExprNode(expr.clone()),
            ContentNode::LiteralNode(lit) => ContentNode::LiteralNode(lit.clone()),
        }
    }
}

impl PartialEq for ContentNode {
    fn eq(&self, other: &ContentNode) -> (r: bool) {
        match self {
            ContentNode::ElementNode(e) => match other {
                ContentNode::ElementNode(f) => {
                    proof {
                        lemma_element_node_view(*e);
                        lemma_element_node_view(*f);
                    }
                    *e == *f
                },
                _ => false,
            },
            ContentNode::ExprNode(x) => match other {
                ContentNode::ExprNode(y) => *x == *y,
                _ => false,
            },
            ContentNode::LiteralNode(x) => match other {
                ContentNode::LiteralNode(y) => *x == *y,
                _ => false,
            },
        }
    }
}

impl PartialEqSpecImpl for ContentNode {
    open spec fn obeys_eq_spec() -> bool {
        true
    }

    open spec fn eq_spec(&self, other: &ContentNode) -> bool {
        self@ == other@
    }
}

/// The text of an expression that holds string literals only: the literals
/// joined in order. An expression with any other token has none.
pub open spec fn spec_lit_string(tokens: Seq<SpecSimpleExprToken>) -> Option<Seq<char>>
    decreases tokens.len(),
{
    if tokens.len() == 0 {
        Some(Seq::empty())
    } else {
        match (spec_lit_string(tokens.drop_last()), tokens.last()) {
            (Some(text), SpecSimpleExprToken::LitString(s)) => Some(text + s),
            _ => None,
        }
    }
}

/// An expression has a literal text exactly when each of its tokens is a
/// string literal.
pub proof fn lemma_lit_string_iff_all_literals(tokens: Seq<SpecSimpleExprToken>)
    ensures
        spec_lit_string(tokens) is Some <==> forall|i: int|
            0 <= i < tokens.len() ==> tokens[i] is LitString,
    decreases tokens.len(),
{
    if tokens.len() > 0 {
        let front = tokens.drop_last();
        lemma_lit_string_iff_all_literals(front);
        if spec_lit_string(tokens) is Some {
            assert forall|i: int| 0 <= i < tokens.len() implies tokens[i] is LitString by {
                if i < front.len() {
                    assert(front[i] == tokens[i]);
                }
            }
        } else {
            if spec_lit_string(front) is Some {
                assert(!(tokens[tokens.len() - 1] is LitString));
            } else {
                let i = choose|i: int| 0 <= i < front.len() && !(front[i] is LitString);
                assert(!(tokens[i] is LitString));
            }
        }
    }
}

/// The node that an expression in braces becomes: a literal if the
/// expression holds string literals only, else the expression itself.
pub open spec fn classify_expr(tokens: Seq<SpecSimpleExprToken>) -> SpecContentNode {
    match spec_lit_string(tokens) {
        Some(text) => SpecContentNode::LiteralNode(SpecLitValue::LitString(text)),
        None => SpecContentNode::ExprNode(tokens),
    }
}

/// The result of parsing one node: the node and the position of the token
/// that closes it.
pub type NodeParse = Result<(SpecContentNode, int), SpecParseError>;

/// The result of parsing an element: the element and the position of its
/// closing bracket.
pub type ElementParse = Result<(SpecElement, int), SpecParseError>;

/// The result of parsing contents: the nodes and the position of the
/// bracket that closes them.
pub type ContentsParse = Result<(Seq<SpecContentNode>, int), SpecParseError>;

/// `rest` with `first` put in front of its nodes.
pub open spec fn with_first_nodes(first: Seq<SpecContentNode>, rest: ContentsParse) -> ContentsParse {
    match rest {
        Ok((nodes, end)) => Ok((first + nodes, end)),
        Err(e) => Err(e),
    }
}

/// The node written as `{ expression }` at `pos`, with the position of its
/// closing brace. An expression ends at no other token, so the brace is
/// there.
pub open spec fn spec_parse_expr_node(tokens: Seq<SpecToken>, pos: int) -> NodeParse {
    match (SpecCursor { tokens, pos }).expect(SpecToken::OpenDelim(Delim::Brace)) {
        Err(e) => Err(e),
        Ok(inner) => match spec_parse_expr_contents(
            tokens,
            inner,
            seq![SpecToken::CloseDelim(Delim::Brace)],
        ) {
            Err(e) => Err(e),
            Ok((expr, close)) => Ok((classify_expr(expr), close)),
        },
    }
}

/// A node in braces ends behind its start, at a closing brace inside the
/// input.
pub proof fn lemma_expr_node_bounds(tokens: Seq<SpecToken>, pos: int)
    requires
        0 <= pos <= tokens.len(),
    ensures
        spec_parse_expr_node(tokens, pos) matches Ok((_, end)) ==> pos < end < tokens.len()
            && tokens[end] == SpecToken::CloseDelim(Delim::Brace),
{
    if pos < tokens.len() {
        lemma_expr_contents_bounds(tokens, pos + 1, seq![SpecToken::CloseDelim(Delim::Brace)]);
    }
}

/// The contents that start at `pos`, up to the bracket that closes them,
/// which is left unread. An identifier starts a nested element and `{` an
/// expression; any other token is an error, which names `context`. A node
/// ends at the token that closes it, and the contents go on behind that
/// token.
///
/// The test on the end of a nested element serves termination only: an
/// element always ends behind its start and inside the input
/// ([`lemma_element_bounds`]).
pub open spec fn spec_parse_contents(
    tokens: Seq<SpecToken>,
    pos: int,
    context: SpecNodeType,
) -> ContentsParse
    decreases tokens.len() - pos, 1nat,
{
    let t = token_at(tokens, pos);
    match t {
        SpecToken::CloseDelim(Delim::Bracket) => Ok((Seq::empty(), pos)),
        SpecToken::Ident(_) => match spec_parse_element(tokens, pos) {
            Err(e) => Err(e),
            Ok((element, close)) => if pos < close < tokens.len() {
                with_first_nodes(
                    seq![SpecContentNode::ElementNode(element)],
                    spec_parse_contents(tokens, close + 1, context),
                )
            } else {
                Err(SpecParseError::UnknownContent { pos, found: t, context })
            },
        },
        SpecToken::OpenDelim(Delim::Brace) => match spec_parse_expr_node(tokens, pos) {
            Err(e) => Err(e),
            Ok((node, close)) => {
                proof {
                    lemma_expr_node_bounds(tokens, pos);
                }
                with_first_nodes(seq![node], spec_parse_contents(tokens, close + 1, context))
            },
        },
        _ => Err(SpecParseError::UnknownContent { pos, found: t, context }),
    }
}

/// The element written as `tag [ contents ]` at `pos`, with the position of
/// its closing bracket. Contents end at no other token, so the bracket is
/// there ([`lemma_contents_bounds`]).
pub open spec fn spec_parse_element(tokens: Seq<SpecToken>, pos: int) -> ElementParse
    decreases tokens.len() - pos, 0nat,
{
    match (SpecCursor { tokens, pos }).parse_ident() {
        Err(e) => Err(e),
        Ok((tag, open)) => match (SpecCursor { tokens, pos: open }).expect(
            SpecToken::OpenDelim(Delim::Bracket),
        ) {
            Err(e) => Err(e),
            Ok(inner) => match spec_parse_contents(tokens, inner, SpecNodeType::Named(tag)) {
                Err(e) => Err(e),
                Ok((contents, close)) => Ok((SpecElement { tag, contents }, close)),
            },
        },
    }
}

/// Contents end at or behind their start, at a closing bracket inside the
/// input.
pub proof fn lemma_contents_bounds(tokens: Seq<SpecToken>, pos: int, context: SpecNodeType)
    requires
        0 <= pos <= tokens.len(),
    ensures
        spec_parse_contents(tokens, pos, context) matches Ok((_, end)) ==> pos <= end
            < tokens.len() && tokens[end] == SpecToken::CloseDelim(Delim::Bracket),
    decreases tokens.len() - pos, 1nat,
{
    let t = token_at(tokens, pos);
    match t {
        SpecToken::Ident(_) => {
            lemma_element_bounds(tokens, pos);
            match spec_parse_element(tokens, pos) {
                Ok((_, close)) => {
                    lemma_contents_bounds(tokens, close + 1, context);
                },
                Err(_) => {},
            }
        },
        SpecToken::OpenDelim(Delim::Brace) => {
            lemma_expr_node_bounds(tokens, pos);
            match spec_parse_expr_node(tokens, pos) {
                Ok((_, close)) => {
                    lemma_contents_bounds(tokens, close + 1, context);
                },
                Err(_) => {},
            }
        },
        _ => {},
    }
}

/// An element ends behind its start, at a closing bracket inside the input.
pub proof fn lemma_element_bounds(tokens: Seq<SpecToken>, pos: int)
    requires
        0 <= pos <= tokens.len(),
    ensures
        spec_parse_element(tokens, pos) matches Ok((_, end)) ==> pos < end < tokens.len()
            && tokens[end] == SpecToken::CloseDelim(Delim::Bracket),
    decreases tokens.len() - pos, 0nat,
{
    if pos + 1 < tokens.len() && tokens[pos] is Ident {
        lemma_contents_bounds(tokens, pos + 2, SpecNodeType::Named(tokens[pos]->Ident_0));
    }
}

/// The text of `tokens` if they are string literals only: the literals
/// joined in order.
pub fn lit_string(tokens: &[SimpleExprToken]) -> (r: Option<String>)
    ensures
        match r {
            Some(text) => spec_lit_string(views(tokens@)) == Some(text@),
            None => spec_lit_string(views(tokens@)) is None,
        },
{
    let mut out = String::new();
    let n = tokens.len();
    let mut i: usize = 0;
    let ghost all = views(tokens@);
    assert(all.take(0) =~= Seq::empty());
    while i < n
        invariant
            n == tokens@.len(),
            all == views(tokens@),
            0 <= i <= n,
            spec_lit_string(all.take(i as int)) == Some(out@),
        decreases n - i,
    {
        assert(all.take(i as int + 1).drop_last() =~= all.take(i as int));
        assert(all.take(i as int + 1).last() == tokens@[i as int]@);
        match &tokens[i] {
            SimpleExprToken::LitString(contents) => {
                out.append(contents.as_str());
            },
            _ => {
                proof {
                    lemma_lit_string_iff_all_literals(all);
                    assert(!(all[i as int] is LitString));
                }
                return None;
            },
        }
        i = i + 1;
    }
    assert(all.take(n as int) =~= all);
    Some(out)
}

/// Parses `{ expression }` and leaves the cursor at the closing brace. An
/// expression of string literals only becomes a literal node that holds
/// their text; any other becomes an expression node.
pub fn parse_simple_expr_or_lit_node(parser: &mut TokenCursor) -> (r: Result<
    ContentNode,
    ParseError,
>)
    ensures
        final(parser)@.tokens == old(parser)@.tokens,
        match r {
            Ok(node) => spec_parse_expr_node(old(parser)@.tokens, old(parser)@.pos) == Ok::<
                (SpecContentNode, int),
                SpecParseError,
            >((node@, final(parser)@.pos)) && old(parser)@.pos < final(parser)@.pos
                && TokenCursor::current(final(parser)@) == SpecToken::CloseDelim(Delim::Brace),
            Err(e) => spec_parse_expr_node(old(parser)@.tokens, old(parser)@.pos) == Err::<
                (SpecContentNode, int),
                SpecParseError,
            >(e@) && final(parser)@.pos == e@.position(),
        },
{
    let start = parser.position();
    match parser.expect(&Token::OpenDelim(Delim::Brace)) {
        Err(e) => {
            return Err(e);
        },
        Ok(_) => {},
    }
    let simple_expr = match parse_simple_expr(parser, Delim::Brace) {
        Err(e) => {
            return Err(e);
        },
        Ok(expr) => expr,
    };
    proof {
        lemma_expr_contents_bounds(
            old(parser)@.tokens,
            start + 1,
            seq![SpecToken::CloseDelim(Delim::Brace)],
        );
    }
    match lit_string(simple_expr.tokens()) {
        Some(contents) => Ok(ContentNode::LiteralNode(LitValue::LitString(contents))),
        None => Ok(ContentNode::ExprNode(simple_expr)),
    }
}

/// Parses contents up to the bracket that closes them, which is left
/// unread; the token that closes a node of the contents is stepped over
/// here. `node_type` says whose contents they are; an error about a token
/// that cannot stand in contents carries it.
pub fn parse_contents(parser: &mut TokenCursor, node_type: &NodeType) -> (r: Result<
    Vec<ContentNode>,
    ParseError,
>)
    ensures
        final(parser)@.tokens == old(parser)@.tokens,
        match r {
            Ok(nodes) => spec_parse_contents(
                old(parser)@.tokens,
                old(parser)@.pos,
                node_type@,
            ) == Ok::<(Seq<SpecContentNode>, int), SpecParseError>(
                (views(nodes@), final(parser)@.pos),
            ),
            Err(e) => spec_parse_contents(old(parser)@.tokens, old(parser)@.pos, node_type@)
                == Err::<(Seq<SpecContentNode>, int), SpecParseError>(e@) && final(parser)@.pos
                == e@.position(),
        },
    decreases old(parser)@.tokens.len() - old(parser)@.pos, 1nat,
{
    let mut nodes: Vec<ContentNode> = Vec::new();
    let ghost tokens = parser@.tokens;
    let start = parser.position();
    let ghost whole = spec_parse_contents(tokens, start as int, node_type@);
    proof {
        match whole {
            Ok((all, _)) => {
                assert(views(nodes@) + all =~= all);
            },
            Err(_) => {},
        }
    }
    loop
        invariant
            tokens == old(parser)@.tokens,
            start == old(parser)@.pos,
            whole == spec_parse_contents(tokens, start as int, node_type@),
            parser@.tokens == tokens,
            start <= parser@.pos <= tokens.len(),
            whole == with_first_nodes(
                views(nodes@),
                spec_parse_contents(tokens, parser@.pos, node_type@),
            ),
        decreases tokens.len() - parser@.pos,
    {
        let pos = parser.position();
        let ghost read = views(nodes@);
        let (at_close, at_ident, at_brace) = match parser.peek() {
            Token::CloseDelim(Delim::Bracket) => (true, false, false),
            Token::Ident(_) => (false, true, false),
            Token::OpenDelim(Delim::Brace) => (false, false, true),
            _ => (false, false, false),
        };
        if at_close {
            assert(read + Seq::<SpecContentNode>::empty() =~= read);
            return Ok(nodes);
        }
        let node = if at_ident {
            match parse_element(parser) {
                Ok(element) => {
                    proof {
                        lemma_element_node_view(element);
                    }
                    ContentNode::ElementNode(element)
                },
                Err(e) => {
                    return Err(e);
                },
            }
        } else if at_brace {
            match parse_simple_expr_or_lit_node(parser) {
                Ok(node) => node,
                Err(e) => {
                    return Err(e);
                },
            }
        } else {
            return Err(
                ParseError::UnknownContent {
                    pos,
                    found: parser.peek().clone(),
                    context: node_type.clone(),
                },
            );
        };
        nodes.push(node);
        proof {
            lemma_element_bounds(tokens, pos as int);
            lemma_expr_node_bounds(tokens, pos as int);
        }
        parser.advance();
        proof {
            let after = spec_parse_contents(tokens, parser@.pos, node_type@);
            let next = seq![node@];
            assert(views(nodes@) =~= read + next);
            assert(spec_parse_contents(tokens, pos as int, node_type@) == with_first_nodes(
                next,
                after,
            ));
            match after {
                Ok((more, _)) => {
                    assert((read + next) + more =~= read + (next + more));
                },
                Err(_) => {},
            }
        }
    }
}

} // verus!
