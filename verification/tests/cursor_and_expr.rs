use incrust::error::ParseError;
use incrust::simple_expr::{
    number_of_literal, parse_expr_contents_into_until, parse_simple_expr, parse_simple_expr_until,
    parse_var_reference, SimpleExpr, SimpleExprNumber, SimpleExprToken, SimpleExprWrite,
    WriteSimpleExpr,
};
use incrust::token::{Delim, IntSuffix, Token, TokenCursor};

fn ident(s: &str) -> Token {
    Token::Ident(s.to_string())
}

fn var(s: &str) -> SimpleExprToken {
    SimpleExprToken::VarReference(s.to_string())
}

fn int64(n: i64) -> SimpleExprToken {
    SimpleExprToken::LitNumber(SimpleExprNumber::Int64(n))
}

fn int32(n: i32) -> SimpleExprToken {
    SimpleExprToken::LitNumber(SimpleExprNumber::Int32(n))
}

fn close_brace() -> Token {
    Token::CloseDelim(Delim::Brace)
}

#[test]
fn cursor_peeks_and_advances() {
    let mut parser = TokenCursor::new(vec![ident("a"), Token::Comma]);
    assert_eq!(parser.position(), 0);
    assert_eq!(*parser.peek(), ident("a"));
    parser.advance();
    assert_eq!(parser.position(), 1);
    assert_eq!(*parser.peek(), Token::Comma);
    parser.advance();
    assert_eq!(parser.position(), 2);
    assert_eq!(*parser.peek(), Token::Eof);
    parser.advance();
    assert_eq!(parser.position(), 2);
    assert_eq!(*parser.peek(), Token::Eof);
}

#[test]
fn cursor_over_no_tokens_is_at_the_end() {
    let parser = TokenCursor::new(vec![]);
    assert_eq!(parser.position(), 0);
    assert_eq!(*parser.peek(), Token::Eof);
}

#[test]
fn expect_steps_over_the_expected_token_only() {
    let mut parser = TokenCursor::new(vec![Token::FatArrow, Token::Semi]);
    assert_eq!(parser.expect(&Token::FatArrow), Ok(()));
    assert_eq!(parser.position(), 1);
    assert_eq!(
        parser.expect(&Token::Comma),
        Err(ParseError::Expected { pos: 1, expected: Token::Comma, found: Token::Semi })
    );
    assert_eq!(parser.position(), 1);
}

#[test]
fn expect_at_the_end_finds_eof() {
    let mut parser = TokenCursor::new(vec![]);
    assert_eq!(
        parser.expect(&Token::Semi),
        Err(ParseError::Expected { pos: 0, expected: Token::Semi, found: Token::Eof })
    );
    assert_eq!(parser.expect(&Token::Eof), Ok(()));
    assert_eq!(parser.position(), 0);
}

#[test]
fn parse_ident_reads_identifiers_only() {
    let mut parser = TokenCursor::new(vec![ident("name"), Token::LitStr("name".to_string())]);
    assert_eq!(parser.parse_ident(), Ok("name".to_string()));
    assert_eq!(
        parser.parse_ident(),
        Err(ParseError::ExpectedIdent { pos: 1, found: Token::LitStr("name".to_string()) })
    );
    assert_eq!(parser.position(), 1);
}

#[test]
fn tokens_compare_by_value() {
    assert_eq!(ident("a"), ident("a"));
    assert_ne!(ident("a"), ident("b"));
    assert_ne!(ident("a"), Token::LitStr("a".to_string()));
    assert_ne!(Token::LitOther("a".to_string()), Token::Other("a".to_string()));
    assert_eq!(Token::LitInt(3, IntSuffix::I32), Token::LitInt(3, IntSuffix::I32));
    assert_ne!(Token::LitInt(3, IntSuffix::I32), Token::LitInt(3, IntSuffix::I64));
    assert_ne!(Token::OpenDelim(Delim::Paren), Token::CloseDelim(Delim::Paren));
    assert_ne!(Token::OpenDelim(Delim::Paren), Token::OpenDelim(Delim::Brace));
    assert_eq!(Token::Eof.clone(), Token::Eof);
    assert_eq!(Token::Other("@".to_string()).clone(), Token::Other("@".to_string()));
}

#[test]
fn var_reference_joins_identifiers_and_dots() {
    let mut parser = TokenCursor::new(vec![
        ident("a"),
        Token::Dot,
        ident("b"),
        Token::Dot,
        ident("c"),
        Token::Plus,
        ident("d"),
    ]);
    assert_eq!(parse_var_reference(&mut parser), Ok(var("a.b.c")));
    assert_eq!(parser.position(), 5);
}

#[test]
fn var_reference_is_greedy_over_adjacent_identifiers() {
    let mut parser = TokenCursor::new(vec![ident("a"), ident("b"), Token::Dot]);
    assert_eq!(parse_var_reference(&mut parser), Ok(var("ab.")));
    assert_eq!(parser.position(), 3);
}

#[test]
fn var_reference_at_another_token_is_empty() {
    let mut parser = TokenCursor::new(vec![Token::Plus]);
    assert_eq!(parse_var_reference(&mut parser), Ok(var("")));
    assert_eq!(parser.position(), 0);
}

#[test]
fn integer_literals_keep_their_width() {
    assert_eq!(number_of_literal(7, IntSuffix::I32), Some(SimpleExprNumber::Int32(7)));
    assert_eq!(number_of_literal(7, IntSuffix::I64), Some(SimpleExprNumber::Int64(7)));
    assert_eq!(number_of_literal(7, IntSuffix::Unsuffixed), Some(SimpleExprNumber::Int64(7)));
    assert_eq!(number_of_literal(7, IntSuffix::Other), None);
}

#[test]
fn integer_literals_wrap_to_their_width() {
    assert_eq!(
        number_of_literal(0x7fff_ffff, IntSuffix::I32),
        Some(SimpleExprNumber::Int32(i32::MAX))
    );
    assert_eq!(
        number_of_literal(0x8000_0000, IntSuffix::I32),
        Some(SimpleExprNumber::Int32(i32::MIN))
    );
    assert_eq!(number_of_literal(0xffff_ffff, IntSuffix::I32), Some(SimpleExprNumber::Int32(-1)));
    assert_eq!(
        number_of_literal(0x1_0000_0001, IntSuffix::I32),
        Some(SimpleExprNumber::Int32(1))
    );
    assert_eq!(
        number_of_literal(u64::MAX, IntSuffix::I32),
        Some(SimpleExprNumber::Int32(u64::MAX as i32))
    );
    assert_eq!(
        number_of_literal(0x7fff_ffff_ffff_ffff, IntSuffix::I64),
        Some(SimpleExprNumber::Int64(i64::MAX))
    );
    assert_eq!(
        number_of_literal(0x8000_0000_0000_0000, IntSuffix::I64),
        Some(SimpleExprNumber::Int64(i64::MIN))
    );
    assert_eq!(number_of_literal(u64::MAX, IntSuffix::Unsuffixed), Some(SimpleExprNumber::Int64(-1)));
    assert_eq!(
        number_of_literal(12345678901234567890, IntSuffix::I64),
        Some(SimpleExprNumber::Int64(12345678901234567890u64 as i64))
    );
}

#[test]
fn expression_holds_every_kind_of_token() {
    let mut parser = TokenCursor::new(vec![
        Token::OpenDelim(Delim::Paren),
        ident("user"),
        Token::Dot,
        ident("age"),
        Token::Plus,
        Token::LitInt(1, IntSuffix::I32),
        Token::CloseDelim(Delim::Paren),
        Token::Minus,
        Token::LitInt(2, IntSuffix::I64),
        Token::Plus,
        Token::LitInt(3, IntSuffix::Unsuffixed),
        Token::LitStr("s".to_string()),
        close_brace(),
        ident("after"),
    ]);
    let expr = parse_simple_expr(&mut parser, Delim::Brace).unwrap();
    assert_eq!(
        expr,
        SimpleExpr::new(vec![
            SimpleExprToken::OpenParen,
            var("user.age"),
            SimpleExprToken::BinopPlus,
            int32(1),
            SimpleExprToken::CloseParen,
            SimpleExprToken::BinopMinus,
            int64(2),
            SimpleExprToken::BinopPlus,
            int64(3),
            SimpleExprToken::LitString("s".to_string()),
        ])
    );
    assert_eq!(parser.position(), 12);
    assert_eq!(*parser.peek(), close_brace());
}

#[test]
fn expression_may_be_empty() {
    let mut parser = TokenCursor::new(vec![close_brace()]);
    let expr = parse_simple_expr(&mut parser, Delim::Brace).unwrap();
    assert_eq!(expr, SimpleExpr::new(vec![]));
    assert_eq!(expr.tokens().len(), 0);
    assert_eq!(parser.position(), 0);
}

#[test]
fn expression_stops_at_the_first_of_the_stop_tokens() {
    let stops = [Token::Semi, close_brace()];
    let mut parser = TokenCursor::new(vec![ident("a"), Token::Semi, ident("b"), close_brace()]);
    assert_eq!(parse_simple_expr_until(&mut parser, &stops), Ok(SimpleExpr::new(vec![var("a")])));
    assert_eq!(parser.position(), 1);
    parser.advance();
    assert_eq!(parse_simple_expr_until(&mut parser, &stops), Ok(SimpleExpr::new(vec![var("b")])));
    assert_eq!(parser.position(), 3);
}

#[test]
fn expression_may_stop_at_the_end_of_input() {
    let mut parser = TokenCursor::new(vec![ident("a"), Token::Plus, ident("b")]);
    let expr = parse_simple_expr_until(&mut parser, &[Token::Eof]).unwrap();
    assert_eq!(expr, SimpleExpr::new(vec![var("a"), SimpleExprToken::BinopPlus, var("b")]));
    assert_eq!(parser.position(), 3);
}

#[test]
fn expression_stop_tokens_win_over_expression_tokens() {
    let mut parser = TokenCursor::new(vec![ident("a"), Token::Plus, ident("b")]);
    let expr = parse_simple_expr_until(&mut parser, &[Token::Plus]).unwrap();
    assert_eq!(expr, SimpleExpr::new(vec![var("a")]));
    assert_eq!(parser.position(), 1);
}

#[test]
fn closing_parenthesis_ends_an_expression_that_stops_there() {
    let mut parser = TokenCursor::new(vec![
        ident("a"),
        Token::OpenDelim(Delim::Paren),
        ident("b"),
        Token::CloseDelim(Delim::Paren),
        Token::CloseDelim(Delim::Paren),
    ]);
    let expr = parse_simple_expr(&mut parser, Delim::Paren).unwrap();
    assert_eq!(expr, SimpleExpr::new(vec![var("a"), SimpleExprToken::OpenParen, var("b")]));
    assert_eq!(parser.position(), 3);
}

#[test]
fn end_of_input_inside_an_expression_is_unexpected() {
    let mut parser = TokenCursor::new(vec![ident("a"), Token::Plus]);
    assert_eq!(
        parse_simple_expr(&mut parser, Delim::Brace),
        Err(ParseError::UnexpectedToken { pos: 2, found: Token::Eof })
    );
    assert_eq!(parser.position(), 2);
}

#[test]
fn other_tokens_inside_an_expression_are_unexpected() {
    for found in [
        Token::Star,
        Token::Slash,
        Token::Comma,
        Token::Colon,
        Token::Semi,
        Token::FatArrow,
        Token::OpenDelim(Delim::Brace),
        Token::OpenDelim(Delim::Bracket),
        Token::CloseDelim(Delim::Bracket),
        Token::Other("@".to_string()),
    ] {
        let mut parser = TokenCursor::new(vec![ident("a"), found.clone(), close_brace()]);
        assert_eq!(
            parse_simple_expr(&mut parser, Delim::Brace),
            Err(ParseError::UnexpectedToken { pos: 1, found })
        );
        assert_eq!(parser.position(), 1);
    }
}

#[test]
fn dot_without_an_identifier_before_it_is_unexpected() {
    let mut parser = TokenCursor::new(vec![Token::Plus, Token::Dot, ident("a"), close_brace()]);
    assert_eq!(
        parse_simple_expr(&mut parser, Delim::Brace),
        Err(ParseError::UnexpectedToken { pos: 1, found: Token::Dot })
    );
}

#[test]
fn dot_behind_an_identifier_belongs_to_the_variable_reference() {
    let mut parser = TokenCursor::new(vec![ident("a"), Token::Dot, close_brace()]);
    assert_eq!(parse_simple_expr(&mut parser, Delim::Brace), Ok(SimpleExpr::new(vec![var("a.")])));
}

#[test]
fn unsupported_literals_are_errors() {
    for found in [
        Token::LitOther("1.5".to_string()),
        Token::LitOther("'c'".to_string()),
        Token::LitInt(1, IntSuffix::Other),
    ] {
        let mut parser = TokenCursor::new(vec![Token::Plus, found.clone(), close_brace()]);
        assert_eq!(
            parse_simple_expr(&mut parser, Delim::Brace),
            Err(ParseError::UnsupportedLiteral { pos: 1, found })
        );
        assert_eq!(parser.position(), 1);
    }
}

#[test]
fn sink_keeps_what_was_read_before_an_error() {
    let mut parser = TokenCursor::new(vec![ident("a"), Token::Plus, Token::Star]);
    let mut sink = vec![SimpleExprToken::OpenBrace];
    let r = parse_expr_contents_into_until(&mut parser, &mut sink, &[close_brace()]);
    assert_eq!(r, Err(ParseError::UnexpectedToken { pos: 2, found: Token::Star }));
    assert_eq!(sink, vec![SimpleExprToken::OpenBrace, var("a"), SimpleExprToken::BinopPlus]);
}

#[test]
fn sink_is_appended_to() {
    let mut parser = TokenCursor::new(vec![ident("a"), close_brace()]);
    let mut sink = vec![SimpleExprToken::CloseBrace];
    let r = parse_expr_contents_into_until(&mut parser, &mut sink, &[close_brace()]);
    assert_eq!(r, Ok(()));
    assert_eq!(sink, vec![SimpleExprToken::CloseBrace, var("a")]);
}

#[test]
fn token_sink_takes_each_kind_of_token() {
    let mut sink: Vec<SimpleExprToken> = Vec::new();
    sink.var_reference("v");
    sink.string_lit("s");
    sink.number_lit(&SimpleExprNumber::Int32(-1));
    sink.open_brace();
    sink.close_brace();
    sink.open_paren();
    sink.close_paren();
    sink.binop_plus();
    sink.binop_minus();
    assert_eq!(
        sink,
        vec![
            var("v"),
            SimpleExprToken::LitString("s".to_string()),
            int32(-1),
            SimpleExprToken::OpenBrace,
            SimpleExprToken::CloseBrace,
            SimpleExprToken::OpenParen,
            SimpleExprToken::CloseParen,
            SimpleExprToken::BinopPlus,
            SimpleExprToken::BinopMinus,
        ]
    );
}

#[test]
fn expression_replays_its_tokens() {
    let tokens = vec![
        var("v"),
        SimpleExprToken::LitString("s".to_string()),
        int64(5),
        SimpleExprToken::OpenBrace,
        SimpleExprToken::CloseBrace,
        SimpleExprToken::OpenParen,
        SimpleExprToken::CloseParen,
        SimpleExprToken::BinopPlus,
        SimpleExprToken::BinopMinus,
    ];
    let expr = SimpleExpr::new(tokens.clone());
    let mut sink = vec![var("first")];
    expr.write_simple_expr(&mut sink);
    let mut expected = vec![var("first")];
    expected.extend(tokens.clone());
    assert_eq!(sink, expected);
    assert_eq!(expr.tokens(), tokens.as_slice());
    assert_eq!(expr.clone(), expr);
}

#[test]
fn expressions_compare_by_their_tokens() {
    assert_eq!(SimpleExpr::new(vec![]), SimpleExpr::new(vec![]));
    assert_ne!(SimpleExpr::new(vec![var("a")]), SimpleExpr::new(vec![]));
    assert_ne!(SimpleExpr::new(vec![var("a")]), SimpleExpr::new(vec![var("b")]));
    assert_ne!(
        SimpleExpr::new(vec![var("a")]),
        SimpleExpr::new(vec![SimpleExprToken::LitString("a".to_string())])
    );
    assert_ne!(SimpleExpr::new(vec![int64(1)]), SimpleExpr::new(vec![int32(1)]));
    assert_ne!(
        SimpleExpr::new(vec![var("a"), var("b")]),
        SimpleExpr::new(vec![var("a"), var("c")])
    );
}
