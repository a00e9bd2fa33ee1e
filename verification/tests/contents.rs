use incrust::error::ParseError;
use incrust::nodes::content_node::{
    lit_string, parse_contents, parse_simple_expr_or_lit_node, ContentNode, LitValue, NodeType,
};
use incrust::nodes::element_node::{parse_element, Element};
use incrust::nodes::view_node::{parse_view, TemplateView};
use incrust::output_actions::{
    IntoOutputActions, OutputAction, OutputActionWrite, WriteOutputActions,
};
use incrust::simple_expr::{SimpleExpr, SimpleExprNumber, SimpleExprToken};
use incrust::token::{Delim, IntSuffix, Token, TokenCursor};

fn ident(s: &str) -> Token {
    Token::Ident(s.to_string())
}

fn lit(s: &str) -> Token {
    Token::LitStr(s.to_string())
}

fn open(d: Delim) -> Token {
    Token::OpenDelim(d)
}

fn close(d: Delim) -> Token {
    Token::CloseDelim(d)
}

fn text(s: &str) -> ContentNode {
    ContentNode::LiteralNode(LitValue::LitString(s.to_string()))
}

fn element(tag: &str, contents: Vec<ContentNode>) -> ContentNode {
    ContentNode::ElementNode(Element { tag: tag.to_string(), contents })
}

fn var_expr(s: &str) -> SimpleExpr {
    SimpleExpr::new(vec![SimpleExprToken::VarReference(s.to_string())])
}

/// `a [ {"x"} b [ {y} ] c [ ] ] {"z"}`, in brackets
fn nested_tokens() -> Vec<Token> {
    vec![
        ident("a"),
        open(Delim::Bracket),
        open(Delim::Brace),
        lit("x"),
        close(Delim::Brace),
        ident("b"),
        open(Delim::Bracket),
        open(Delim::Brace),
        ident("y"),
        close(Delim::Brace),
        close(Delim::Bracket),
        ident("c"),
        open(Delim::Bracket),
        close(Delim::Bracket),
        close(Delim::Bracket),
        open(Delim::Brace),
        lit("z"),
        close(Delim::Brace),
        close(Delim::Bracket),
    ]
}

fn nested_nodes() -> Vec<ContentNode> {
    vec![
        element(
            "a",
            vec![
                text("x"),
                element("b", vec![ContentNode::ExprNode(var_expr("y"))]),
                element("c", vec![]),
            ],
        ),
        text("z"),
    ]
}

fn nested_actions() -> Vec<OutputAction> {
    vec![
        OutputAction::WriteOpen("a".to_string()),
        OutputAction::Write("x".to_string()),
        OutputAction::WriteOpen("b".to_string()),
        OutputAction::WriteResult(var_expr("y")),
        OutputAction::WriteClose("b".to_string()),
        OutputAction::WriteOpen("c".to_string()),
        OutputAction::WriteClose("c".to_string()),
        OutputAction::WriteClose("a".to_string()),
        OutputAction::Write("z".to_string()),
    ]
}

#[test]
fn lit_string_joins_string_literals() {
    assert_eq!(lit_string(&[]), Some(String::new()));
    assert_eq!(
        lit_string(&[
            SimpleExprToken::LitString("ab".to_string()),
            SimpleExprToken::LitString("".to_string()),
            SimpleExprToken::LitString("c".to_string()),
        ]),
        Some("abc".to_string())
    );
}

#[test]
fn lit_string_refuses_any_other_token() {
    let a = SimpleExprToken::LitString("a".to_string());
    for other in [
        SimpleExprToken::VarReference("a".to_string()),
        SimpleExprToken::LitNumber(SimpleExprNumber::Int32(1)),
        SimpleExprToken::OpenBrace,
        SimpleExprToken::CloseBrace,
        SimpleExprToken::OpenParen,
        SimpleExprToken::CloseParen,
        SimpleExprToken::BinopPlus,
        SimpleExprToken::BinopMinus,
    ] {
        assert_eq!(lit_string(&[other.clone()]), None);
        assert_eq!(lit_string(&[a.clone(), other.clone()]), None);
        assert_eq!(lit_string(&[other, a.clone()]), None);
    }
}

#[test]
fn braces_with_string_literals_only_are_a_literal_node() {
    let mut parser = TokenCursor::new(vec![
        open(Delim::Brace),
        lit("Counter"),
        lit(": "),
        close(Delim::Brace),
        ident("next"),
    ]);
    assert_eq!(parse_simple_expr_or_lit_node(&mut parser), Ok(text("Counter: ")));
    assert_eq!(parser.position(), 3);
    assert_eq!(*parser.peek(), close(Delim::Brace));
}

#[test]
fn node_in_braces_leaves_the_cursor_at_the_closing_brace() {
    let mut parser =
        TokenCursor::new(vec![open(Delim::Brace), lit("a"), close(Delim::Brace)]);
    let node = parse_simple_expr_or_lit_node(&mut parser).unwrap();
    assert_eq!(node, text("a"));
    assert_eq!(node.into_output_actions(), vec![OutputAction::Write("a".to_string())]);
    assert_eq!(parser.position(), 2);
    assert_eq!(*parser.peek(), close(Delim::Brace));
}

#[test]
fn element_leaves_the_cursor_at_its_closing_bracket() {
    // h1 [ ] p [ ]
    let mut parser = TokenCursor::new(vec![
        ident("h1"),
        open(Delim::Bracket),
        close(Delim::Bracket),
        ident("p"),
        open(Delim::Bracket),
        close(Delim::Bracket),
    ]);
    assert_eq!(
        parse_element(&mut parser),
        Ok(Element { tag: "h1".to_string(), contents: vec![] })
    );
    assert_eq!(parser.position(), 2);
    assert_eq!(*parser.peek(), close(Delim::Bracket));
    parser.advance();
    assert_eq!(
        parse_element(&mut parser),
        Ok(Element { tag: "p".to_string(), contents: vec![] })
    );
    assert_eq!(parser.position(), 5);
}

#[test]
fn contents_step_over_the_token_that_closes_each_node() {
    // h1 [ ] { "a" } p [ ] ]
    let mut parser = TokenCursor::new(vec![
        ident("h1"),
        open(Delim::Bracket),
        close(Delim::Bracket),
        open(Delim::Brace),
        lit("a"),
        close(Delim::Brace),
        ident("p"),
        open(Delim::Bracket),
        close(Delim::Bracket),
        close(Delim::Bracket),
    ]);
    assert_eq!(
        parse_contents(&mut parser, &NodeType::Root),
        Ok(vec![element("h1", vec![]), text("a"), element("p", vec![])])
    );
    assert_eq!(parser.position(), 9);
}

#[test]
fn joined_literal_is_classified_as_the_same_node_again() {
    let mut split = TokenCursor::new(vec![
        open(Delim::Brace),
        lit("a"),
        lit(""),
        lit("b c"),
        close(Delim::Brace),
    ]);
    let mut joined = TokenCursor::new(vec![open(Delim::Brace), lit("ab c"), close(Delim::Brace)]);
    let node = parse_simple_expr_or_lit_node(&mut split).unwrap();
    assert_eq!(node, text("ab c"));
    assert_eq!(parse_simple_expr_or_lit_node(&mut joined), Ok(node));
}

#[test]
fn empty_braces_are_an_empty_literal_node() {
    let mut parser = TokenCursor::new(vec![open(Delim::Brace), close(Delim::Brace)]);
    assert_eq!(parse_simple_expr_or_lit_node(&mut parser), Ok(text("")));
    assert_eq!(parser.position(), 1);
}

#[test]
fn braces_with_anything_else_are_an_expression_node() {
    let mut parser = TokenCursor::new(vec![
        open(Delim::Brace),
        lit("n = "),
        Token::Plus,
        Token::LitInt(2, IntSuffix::Unsuffixed),
        close(Delim::Brace),
    ]);
    assert_eq!(
        parse_simple_expr_or_lit_node(&mut parser),
        Ok(ContentNode::ExprNode(SimpleExpr::new(vec![
            SimpleExprToken::LitString("n = ".to_string()),
            SimpleExprToken::BinopPlus,
            SimpleExprToken::LitNumber(SimpleExprNumber::Int64(2)),
        ])))
    );
    assert_eq!(parser.position(), 4);
}

#[test]
fn expression_node_needs_its_braces() {
    let mut parser = TokenCursor::new(vec![ident("a"), close(Delim::Brace)]);
    assert_eq!(
        parse_simple_expr_or_lit_node(&mut parser),
        Err(ParseError::Expected { pos: 0, expected: open(Delim::Brace), found: ident("a") })
    );
    let mut parser = TokenCursor::new(vec![open(Delim::Brace), ident("a")]);
    assert_eq!(
        parse_simple_expr_or_lit_node(&mut parser),
        Err(ParseError::UnexpectedToken { pos: 2, found: Token::Eof })
    );
    let mut parser = TokenCursor::new(vec![open(Delim::Brace), ident("a"), Token::Comma]);
    assert_eq!(
        parse_simple_expr_or_lit_node(&mut parser),
        Err(ParseError::UnexpectedToken { pos: 2, found: Token::Comma })
    );
    assert_eq!(parser.position(), 2);
}

#[test]
fn contents_stop_at_the_closing_bracket() {
    let mut parser = TokenCursor::new(nested_tokens());
    assert_eq!(parse_contents(&mut parser, &NodeType::Root), Ok(nested_nodes()));
    assert_eq!(parser.position(), 18);
    assert_eq!(*parser.peek(), close(Delim::Bracket));
}

#[test]
fn contents_may_be_empty() {
    let mut parser = TokenCursor::new(vec![close(Delim::Bracket)]);
    assert_eq!(parse_contents(&mut parser, &NodeType::Root), Ok(vec![]));
    assert_eq!(parser.position(), 0);
}

#[test]
fn unknown_token_in_a_view_names_the_root() {
    let mut parser = TokenCursor::new(vec![
        open(Delim::Brace),
        close(Delim::Brace),
        Token::Comma,
        close(Delim::Bracket),
    ]);
    assert_eq!(
        parse_contents(&mut parser, &NodeType::Root),
        Err(ParseError::UnknownContent { pos: 2, found: Token::Comma, context: NodeType::Root })
    );
    assert_eq!(parser.position(), 2);
}

#[test]
fn unknown_token_in_an_element_names_the_element() {
    let mut parser = TokenCursor::new(vec![
        ident("outer"),
        open(Delim::Bracket),
        ident("inner"),
        open(Delim::Bracket),
        lit("bare"),
        close(Delim::Bracket),
        close(Delim::Bracket),
        close(Delim::Bracket),
    ]);
    assert_eq!(
        parse_contents(&mut parser, &NodeType::Root),
        Err(ParseError::UnknownContent {
            pos: 4,
            found: lit("bare"),
            context: NodeType::Named("inner".to_string()),
        })
    );
    assert_eq!(parser.position(), 4);
}

#[test]
fn contents_without_closing_bracket_end_in_an_error() {
    let mut parser = TokenCursor::new(vec![ident("a"), open(Delim::Bracket)]);
    assert_eq!(
        parse_contents(&mut parser, &NodeType::Root),
        Err(ParseError::UnknownContent {
            pos: 2,
            found: Token::Eof,
            context: NodeType::Named("a".to_string()),
        })
    );
    let mut parser = TokenCursor::new(vec![]);
    assert_eq!(
        parse_contents(&mut parser, &NodeType::Named("p".to_string())),
        Err(ParseError::UnknownContent {
            pos: 0,
            found: Token::Eof,
            context: NodeType::Named("p".to_string()),
        })
    );
}

#[test]
fn element_reads_up_to_its_closing_bracket() {
    let mut parser = TokenCursor::new(vec![
        ident("p"),
        open(Delim::Bracket),
        open(Delim::Brace),
        lit("t"),
        close(Delim::Brace),
        close(Delim::Bracket),
        ident("q"),
    ]);
    assert_eq!(
        parse_element(&mut parser),
        Ok(Element { tag: "p".to_string(), contents: vec![text("t")] })
    );
    assert_eq!(parser.position(), 5);
    assert_eq!(*parser.peek(), close(Delim::Bracket));
}

#[test]
fn element_needs_a_tag_and_a_bracket() {
    let mut parser = TokenCursor::new(vec![open(Delim::Bracket), close(Delim::Bracket)]);
    assert_eq!(
        parse_element(&mut parser),
        Err(ParseError::ExpectedIdent { pos: 0, found: open(Delim::Bracket) })
    );
    let mut parser = TokenCursor::new(vec![ident("p"), open(Delim::Brace)]);
    assert_eq!(
        parse_element(&mut parser),
        Err(ParseError::Expected { pos: 1, expected: open(Delim::Bracket), found: open(Delim::Brace) })
    );
    assert_eq!(parser.position(), 1);
}

#[test]
fn view_reads_name_and_contents() {
    let mut tokens = vec![ident("main"), open(Delim::Bracket)];
    tokens.extend(nested_tokens());
    tokens.push(ident("rest"));
    let mut parser = TokenCursor::new(tokens);
    let view = parse_view(&mut parser).unwrap();
    assert_eq!(view, TemplateView { name: "main".to_string(), contents: nested_nodes() });
    assert_eq!(view.name(), "main");
    assert_eq!(parser.position(), 20);
    assert_eq!(*parser.peek(), close(Delim::Bracket));
    parser.advance();
    assert_eq!(*parser.peek(), ident("rest"));
}

#[test]
fn view_needs_a_name_and_a_bracket() {
    let mut parser = TokenCursor::new(vec![]);
    assert_eq!(
        parse_view(&mut parser),
        Err(ParseError::ExpectedIdent { pos: 0, found: Token::Eof })
    );
    let mut parser = TokenCursor::new(vec![ident("v")]);
    assert_eq!(
        parse_view(&mut parser),
        Err(ParseError::Expected { pos: 1, expected: open(Delim::Bracket), found: Token::Eof })
    );
}

#[test]
fn lowering_walks_the_tree_in_document_order() {
    let view = TemplateView { name: "v".to_string(), contents: nested_nodes() };
    assert_eq!(view.into_output_actions(), nested_actions());
    let mut sink = vec![OutputAction::WriteVoid("br".to_string())];
    view.write_output_actions(&mut sink);
    let mut expected = vec![OutputAction::WriteVoid("br".to_string())];
    expected.extend(nested_actions());
    assert_eq!(sink, expected);
}

#[test]
fn lowering_of_top_level_nodes_is_the_lowering_of_each_in_order() {
    let nodes = nested_nodes();
    let mut each: Vec<OutputAction> = Vec::new();
    for node in &nodes {
        each.extend(node.into_output_actions());
    }
    let view = TemplateView { name: "v".to_string(), contents: nodes };
    assert_eq!(view.into_output_actions(), each);
}

#[test]
fn lowered_writes_are_the_leaves_in_document_order() {
    let writes: Vec<OutputAction> = nested_actions()
        .into_iter()
        .filter(|a| matches!(a, OutputAction::Write(_) | OutputAction::WriteResult(_)))
        .collect();
    assert_eq!(
        writes,
        vec![
            OutputAction::Write("x".to_string()),
            OutputAction::WriteResult(var_expr("y")),
            OutputAction::Write("z".to_string()),
        ]
    );
}

#[test]
fn lowered_elements_are_well_nested() {
    let view = TemplateView { name: "v".to_string(), contents: nested_nodes() };
    let mut stack: Vec<String> = Vec::new();
    let mut opens = 0;
    let mut closes = 0;
    for action in view.into_output_actions() {
        match action {
            OutputAction::WriteOpen(tag) => {
                opens += 1;
                stack.push(tag);
            }
            OutputAction::WriteClose(tag) => {
                closes += 1;
                assert_eq!(stack.pop(), Some(tag));
            }
            _ => {}
        }
    }
    assert!(stack.is_empty());
    assert_eq!(opens, 3);
    assert_eq!(closes, 3);
}

#[test]
fn each_kind_of_node_lowers_by_itself() {
    assert_eq!(
        LitValue::LitString("t".to_string()).into_output_actions(),
        vec![OutputAction::Write("t".to_string())]
    );
    assert_eq!(text("t").into_output_actions(), vec![OutputAction::Write("t".to_string())]);
    assert_eq!(
        ContentNode::ExprNode(var_expr("e")).into_output_actions(),
        vec![OutputAction::WriteResult(var_expr("e"))]
    );
    let e = Element { tag: "p".to_string(), contents: vec![text("t")] };
    assert_eq!(
        e.into_output_actions(),
        vec![
            OutputAction::WriteOpen("p".to_string()),
            OutputAction::Write("t".to_string()),
            OutputAction::WriteClose("p".to_string()),
        ]
    );
    assert_eq!(
        Element { tag: "br".to_string(), contents: vec![] }.into_output_actions(),
        vec![OutputAction::WriteOpen("br".to_string()), OutputAction::WriteClose("br".to_string())]
    );
}

#[test]
fn action_sink_appends_copies() {
    let mut sink: Vec<OutputAction> = Vec::new();
    let action = OutputAction::WriteResult(var_expr("x"));
    sink.write_output_action(&action);
    sink.write_output_action(&OutputAction::WriteVoid("hr".to_string()));
    assert_eq!(sink, vec![action, OutputAction::WriteVoid("hr".to_string())]);
}

#[test]
fn trees_copy_and_compare_by_value() {
    let view = TemplateView { name: "v".to_string(), contents: nested_nodes() };
    assert_eq!(view.clone(), view);
    assert_ne!(view, TemplateView { name: "w".to_string(), contents: nested_nodes() });
    assert_ne!(view, TemplateView { name: "v".to_string(), contents: vec![] });
    let mut other = nested_nodes();
    other[0] = element(
        "a",
        vec![text("x"), element("b", vec![ContentNode::ExprNode(var_expr("y"))]), element("d", vec![])],
    );
    assert_ne!(view, TemplateView { name: "v".to_string(), contents: other });
    assert_ne!(text("a"), ContentNode::ExprNode(var_expr("a")));
    assert_ne!(text("a"), element("a", vec![]));
    assert_ne!(element("a", vec![]), element("a", vec![text("")]));
    assert_eq!(nested_nodes()[0].clone(), nested_nodes()[0]);
    assert_ne!(
        OutputAction::WriteOpen("a".to_string()),
        OutputAction::WriteClose("a".to_string())
    );
    assert_ne!(OutputAction::Write("a".to_string()), OutputAction::WriteVoid("a".to_string()));
    assert_eq!(NodeType::Named("a".to_string()).clone(), NodeType::Named("a".to_string()));
    assert_ne!(NodeType::Named("a".to_string()), NodeType::Root);
}
