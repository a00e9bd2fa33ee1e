use incrust::error::ParseError;
use incrust::js_write::{WriteJsFunctions, WriteJsSwitchBody};
use incrust::nodes::store_node::{
    parse_action_arm, parse_action_str, parse_arm_value, parse_store, parse_store_arm,
    parse_store_arm_keyword, Store, StoreArmType, StoreNode,
};
use incrust::nodes::template_node::{parse_template, Template, TemplateNode};
use incrust::nodes::view_node::TemplateView;
use incrust::object_expr::{
    parse_object_expr, parse_object_expr_assignment, parse_object_expr_body, ObjectExpr,
    ObjectExprAssignment,
};
use incrust::output_actions::{IntoOutputActions, OutputAction};
use incrust::simple_expr::{
    parse_simple_expr_in_parens, SimpleExpr, SimpleExprNumber, SimpleExprToken,
};
use incrust::token::{Delim, IntSuffix, Token, TokenCursor};
use incrust::unicode::starts_uppercase;
use incrust::nodes::content_node::{ContentNode, LitValue};
use incrust::value::{parse_value, Value, WriteAs};

fn ident(s: &str) -> Token {
    Token::Ident(s.to_string())
}

fn open(d: Delim) -> Token {
    Token::OpenDelim(d)
}

fn close(d: Delim) -> Token {
    Token::CloseDelim(d)
}

fn num(n: u64) -> Token {
    Token::LitInt(n, IntSuffix::Unsuffixed)
}

fn int_value(n: i64) -> Value {
    Value::SimpleExprValue(SimpleExpr::new(vec![SimpleExprToken::LitNumber(
        SimpleExprNumber::Int64(n),
    )]))
}

fn var_expr(s: &str) -> SimpleExpr {
    SimpleExpr::new(vec![SimpleExprToken::VarReference(s.to_string())])
}

/// `Point { x: (a), y: (b + 1) }`
fn point_tokens() -> Vec<Token> {
    vec![
        ident("Point"),
        open(Delim::Brace),
        ident("x"),
        Token::Colon,
        open(Delim::Paren),
        ident("a"),
        close(Delim::Paren),
        Token::Comma,
        ident("y"),
        Token::Colon,
        open(Delim::Paren),
        ident("b"),
        Token::Plus,
        num(1),
        close(Delim::Paren),
        close(Delim::Brace),
    ]
}

fn point() -> ObjectExpr {
    ObjectExpr {
        class_name: "Point".to_string(),
        assignments: vec![
            ObjectExprAssignment::UpdateSimpleExprValue("x".to_string(), var_expr("a")),
            ObjectExprAssignment::UpdateSimpleExprValue(
                "y".to_string(),
                SimpleExpr::new(vec![
                    SimpleExprToken::VarReference("b".to_string()),
                    SimpleExprToken::BinopPlus,
                    SimpleExprToken::LitNumber(SimpleExprNumber::Int64(1)),
                ]),
            ),
        ],
    }
}

#[test]
fn value_in_parentheses_is_a_simple_expression() {
    let mut parser = TokenCursor::new(vec![
        open(Delim::Paren),
        ident("n"),
        Token::Minus,
        num(1),
        close(Delim::Paren),
        Token::Semi,
    ]);
    assert_eq!(
        parse_value(&mut parser),
        Ok(Value::SimpleExprValue(SimpleExpr::new(vec![
            SimpleExprToken::VarReference("n".to_string()),
            SimpleExprToken::BinopMinus,
            SimpleExprToken::LitNumber(SimpleExprNumber::Int64(1)),
        ])))
    );
    assert_eq!(parser.position(), 5);
}

#[test]
fn value_in_parentheses_ends_at_the_matching_parenthesis() {
    let mut parser = TokenCursor::new(vec![
        open(Delim::Paren),
        open(Delim::Paren),
        ident("n"),
        close(Delim::Paren),
        close(Delim::Paren),
        close(Delim::Paren),
    ]);
    assert_eq!(
        parse_value(&mut parser),
        Ok(Value::SimpleExprValue(SimpleExpr::new(vec![
            SimpleExprToken::OpenParen,
            SimpleExprToken::VarReference("n".to_string()),
            SimpleExprToken::CloseParen,
        ])))
    );
    assert_eq!(parser.position(), 5);
}

#[test]
fn value_may_hold_nested_parentheses() {
    // (a - (b + 1)) ;
    let mut parser = TokenCursor::new(vec![
        open(Delim::Paren),
        ident("a"),
        Token::Minus,
        open(Delim::Paren),
        ident("b"),
        Token::Plus,
        num(1),
        close(Delim::Paren),
        close(Delim::Paren),
        Token::Semi,
    ]);
    let value = parse_value(&mut parser).unwrap();
    assert_eq!(
        value,
        Value::SimpleExprValue(SimpleExpr::new(vec![
            SimpleExprToken::VarReference("a".to_string()),
            SimpleExprToken::BinopMinus,
            SimpleExprToken::OpenParen,
            SimpleExprToken::VarReference("b".to_string()),
            SimpleExprToken::BinopPlus,
            SimpleExprToken::LitNumber(SimpleExprNumber::Int64(1)),
            SimpleExprToken::CloseParen,
        ]))
    );
    assert_eq!(parser.position(), 9);
    let mut js = String::new();
    value.write_to(&mut js);
    assert_eq!(js, "a - (b + 1)");
}

#[test]
fn expression_in_parentheses_counts_what_it_opens() {
    // ( ( ) ( ( x ) ) ) y )
    let tokens = vec![
        open(Delim::Paren),
        close(Delim::Paren),
        open(Delim::Paren),
        open(Delim::Paren),
        ident("x"),
        close(Delim::Paren),
        close(Delim::Paren),
        close(Delim::Paren),
        ident("y"),
        close(Delim::Paren),
    ];
    let mut parser = TokenCursor::new(tokens.clone());
    let expr = parse_simple_expr_in_parens(&mut parser).unwrap();
    assert_eq!(
        expr,
        SimpleExpr::new(vec![
            SimpleExprToken::OpenParen,
            SimpleExprToken::CloseParen,
            SimpleExprToken::OpenParen,
            SimpleExprToken::OpenParen,
            SimpleExprToken::VarReference("x".to_string()),
            SimpleExprToken::CloseParen,
            SimpleExprToken::CloseParen,
        ])
    );
    assert_eq!(parser.position(), 7);
    let mut parser = TokenCursor::new(vec![close(Delim::Paren)]);
    assert_eq!(parse_simple_expr_in_parens(&mut parser), Ok(SimpleExpr::new(vec![])));
    assert_eq!(parser.position(), 0);
}

#[test]
fn expression_in_parentheses_must_be_closed() {
    let mut parser = TokenCursor::new(vec![
        open(Delim::Paren),
        ident("x"),
        close(Delim::Paren),
        Token::Semi,
    ]);
    assert_eq!(
        parse_simple_expr_in_parens(&mut parser),
        Err(ParseError::UnexpectedToken { pos: 3, found: Token::Semi })
    );
    assert_eq!(parser.position(), 3);
    let mut parser = TokenCursor::new(vec![open(Delim::Paren), ident("x"), close(Delim::Paren)]);
    assert_eq!(
        parse_simple_expr_in_parens(&mut parser),
        Err(ParseError::UnexpectedToken { pos: 3, found: Token::Eof })
    );
    let mut parser = TokenCursor::new(vec![ident("x"), Token::Star, close(Delim::Paren)]);
    assert_eq!(
        parse_simple_expr_in_parens(&mut parser),
        Err(ParseError::UnexpectedToken { pos: 1, found: Token::Star })
    );
}

#[test]
fn assignment_may_hold_nested_parentheses() {
    // x: ((a) + 1),
    let mut parser = TokenCursor::new(vec![
        ident("x"),
        Token::Colon,
        open(Delim::Paren),
        open(Delim::Paren),
        ident("a"),
        close(Delim::Paren),
        Token::Plus,
        num(1),
        close(Delim::Paren),
        Token::Comma,
    ]);
    assert_eq!(
        parse_object_expr_assignment(&mut parser),
        Ok(ObjectExprAssignment::UpdateSimpleExprValue(
            "x".to_string(),
            SimpleExpr::new(vec![
                SimpleExprToken::OpenParen,
                SimpleExprToken::VarReference("a".to_string()),
                SimpleExprToken::CloseParen,
                SimpleExprToken::BinopPlus,
                SimpleExprToken::LitNumber(SimpleExprNumber::Int64(1)),
            ])
        ))
    );
    assert_eq!(parser.position(), 9);
}

#[test]
fn value_without_parenthesis_is_an_object_expression() {
    let mut parser = TokenCursor::new(point_tokens());
    assert_eq!(parse_value(&mut parser), Ok(Value::ObjectExprValue(point())));
    assert_eq!(parser.position(), 16);
}

#[test]
fn value_needs_its_closing_parenthesis() {
    let mut parser = TokenCursor::new(vec![open(Delim::Paren), ident("n"), Token::Semi]);
    assert_eq!(
        parse_value(&mut parser),
        Err(ParseError::UnexpectedToken { pos: 2, found: Token::Semi })
    );
    let mut parser = TokenCursor::new(vec![num(1)]);
    assert_eq!(parse_value(&mut parser), Err(ParseError::ExpectedIdent { pos: 0, found: num(1) }));
}

#[test]
fn object_expression_reads_class_and_assignments() {
    let mut parser = TokenCursor::new(point_tokens());
    let object_expr = parse_object_expr(&mut parser).unwrap();
    assert_eq!(object_expr, point());
    assert_eq!(object_expr.cls_name(), "Point");
    assert_eq!(object_expr.assignments().len(), 2);
    assert_eq!(object_expr.assignments(), point().assignments.as_slice());
    assert_eq!(object_expr.clone(), object_expr);
}

#[test]
fn object_expression_may_end_in_a_comma_or_hold_nothing() {
    let mut parser = TokenCursor::new(vec![
        ident("P"),
        open(Delim::Brace),
        ident("x"),
        Token::Colon,
        open(Delim::Paren),
        close(Delim::Paren),
        Token::Comma,
        close(Delim::Brace),
    ]);
    assert_eq!(
        parse_object_expr(&mut parser),
        Ok(ObjectExpr {
            class_name: "P".to_string(),
            assignments: vec![ObjectExprAssignment::UpdateSimpleExprValue(
                "x".to_string(),
                SimpleExpr::new(vec![]),
            )],
        })
    );
    assert_eq!(parser.position(), 8);
    let mut parser = TokenCursor::new(vec![ident("P"), open(Delim::Brace), close(Delim::Brace)]);
    assert_eq!(
        parse_object_expr(&mut parser),
        Ok(ObjectExpr { class_name: "P".to_string(), assignments: vec![] })
    );
}

#[test]
fn class_name_must_start_with_an_uppercase_letter() {
    for name in ["point", "_Point", "1", "élan"] {
        let mut tokens = point_tokens();
        tokens[0] = ident(name);
        let mut parser = TokenCursor::new(tokens);
        assert_eq!(
            parse_object_expr(&mut parser),
            Err(ParseError::InvalidClassName { pos: 0, name: name.to_string() })
        );
        assert_eq!(parser.position(), 0);
    }
    let mut tokens = point_tokens();
    tokens[0] = ident("Élan");
    let mut parser = TokenCursor::new(tokens);
    assert_eq!(parse_object_expr(&mut parser).unwrap().cls_name(), "Élan");
}

#[test]
fn empty_class_name_does_not_start_with_an_uppercase_letter() {
    assert!(!starts_uppercase(""));
    assert!(starts_uppercase("A"));
    assert!(!starts_uppercase("aA"));
    let mut parser = TokenCursor::new(vec![ident(""), open(Delim::Brace), close(Delim::Brace)]);
    assert_eq!(
        parse_object_expr(&mut parser),
        Err(ParseError::InvalidClassName { pos: 0, name: String::new() })
    );
}

#[test]
fn object_expression_body_goes_by_the_flag_it_is_given() {
    let mut tokens = point_tokens();
    tokens[0] = ident("point");
    let mut parser = TokenCursor::new(tokens);
    let object_expr = parse_object_expr_body(&mut parser, true).unwrap();
    assert_eq!(object_expr.cls_name(), "point");
    let mut parser = TokenCursor::new(point_tokens());
    assert_eq!(
        parse_object_expr_body(&mut parser, false),
        Err(ParseError::InvalidClassName { pos: 0, name: "Point".to_string() })
    );
    let mut parser = TokenCursor::new(vec![num(1)]);
    assert_eq!(
        parse_object_expr_body(&mut parser, true),
        Err(ParseError::ExpectedIdent { pos: 0, found: num(1) })
    );
}

#[test]
fn object_expression_errors_name_the_missing_token() {
    let mut parser = TokenCursor::new(vec![ident("P"), open(Delim::Paren)]);
    assert_eq!(
        parse_object_expr(&mut parser),
        Err(ParseError::Expected { pos: 1, expected: open(Delim::Brace), found: open(Delim::Paren) })
    );
    let mut tokens = point_tokens();
    tokens[7] = Token::Semi;
    let mut parser = TokenCursor::new(tokens);
    assert_eq!(
        parse_object_expr(&mut parser),
        Err(ParseError::Expected { pos: 7, expected: Token::Comma, found: Token::Semi })
    );
    let mut tokens = point_tokens();
    tokens[3] = Token::FatArrow;
    let mut parser = TokenCursor::new(tokens);
    assert_eq!(
        parse_object_expr(&mut parser),
        Err(ParseError::Expected { pos: 3, expected: Token::Colon, found: Token::FatArrow })
    );
    let mut tokens = point_tokens();
    tokens[4] = open(Delim::Brace);
    let mut parser = TokenCursor::new(tokens);
    assert_eq!(
        parse_object_expr(&mut parser),
        Err(ParseError::Expected { pos: 4, expected: open(Delim::Paren), found: open(Delim::Brace) })
    );
    let mut parser = TokenCursor::new(vec![ident("P"), open(Delim::Brace), Token::Comma]);
    assert_eq!(
        parse_object_expr(&mut parser),
        Err(ParseError::ExpectedIdent { pos: 2, found: Token::Comma })
    );
}

#[test]
fn assignment_reads_field_and_expression() {
    let mut parser = TokenCursor::new(vec![
        ident("x"),
        Token::Colon,
        open(Delim::Paren),
        ident("a"),
        close(Delim::Paren),
        Token::Comma,
    ]);
    assert_eq!(
        parse_object_expr_assignment(&mut parser),
        Ok(ObjectExprAssignment::UpdateSimpleExprValue("x".to_string(), var_expr("a")))
    );
    assert_eq!(parser.position(), 5);
}

#[test]
fn arm_keyword_is_default_or_action() {
    let mut parser = TokenCursor::new(vec![ident("default"), ident("action"), ident("other")]);
    assert_eq!(parse_store_arm_keyword(&mut parser), Ok(StoreArmType::DefaultArm));
    assert_eq!(parse_store_arm_keyword(&mut parser), Ok(StoreArmType::ActionArm));
    assert_eq!(
        parse_store_arm_keyword(&mut parser),
        Err(ParseError::UnsupportedArm { pos: 2, label: "other".to_string() })
    );
    assert_eq!(parser.position(), 2);
    parser.advance();
    assert_eq!(
        parse_store_arm_keyword(&mut parser),
        Err(ParseError::ExpectedIdent { pos: 3, found: Token::Eof })
    );
}

#[test]
fn action_names_are_put_in_upper_case() {
    let mut parser = TokenCursor::new(vec![ident("increment"), ident("Reset_all2"), num(1)]);
    assert_eq!(parse_action_str(&mut parser), Ok("INCREMENT".to_string()));
    assert_eq!(parse_action_str(&mut parser), Ok("RESET_ALL2".to_string()));
    assert_eq!(parse_action_str(&mut parser), Err(ParseError::ExpectedIdent { pos: 2, found: num(1) }));
}

#[test]
fn arm_of_an_action_holds_the_upper_case_name() {
    let mut parser = TokenCursor::new(vec![
        ident("action"),
        ident("reset"),
        Token::FatArrow,
        open(Delim::Paren),
        num(0),
        close(Delim::Paren),
    ]);
    assert_eq!(
        parse_store_arm(&mut parser),
        Ok(StoreNode::ActionExpr("RESET".to_string(), int_value(0)))
    );
    assert_eq!(parser.position(), 6);
}

#[test]
fn action_arm_takes_the_name_it_is_given() {
    let mut parser =
        TokenCursor::new(vec![Token::FatArrow, open(Delim::Paren), num(5), close(Delim::Paren)]);
    assert_eq!(
        parse_action_arm(&mut parser, "as given".to_string()),
        Ok(StoreNode::ActionExpr("as given".to_string(), int_value(5)))
    );
    let mut parser = TokenCursor::new(vec![open(Delim::Paren)]);
    assert_eq!(
        parse_action_arm(&mut parser, "A".to_string()),
        Err(ParseError::Expected { pos: 0, expected: Token::FatArrow, found: open(Delim::Paren) })
    );
}

#[test]
fn arm_value_follows_a_fat_arrow() {
    let mut parser = TokenCursor::new({
        let mut t = vec![Token::FatArrow];
        t.extend(point_tokens());
        t
    });
    assert_eq!(parse_arm_value(&mut parser), Ok(Value::ObjectExprValue(point())));
    let mut parser = TokenCursor::new(vec![Token::Colon]);
    assert_eq!(
        parse_arm_value(&mut parser),
        Err(ParseError::Expected { pos: 0, expected: Token::FatArrow, found: Token::Colon })
    );
}

#[test]
fn default_arm_holds_its_value() {
    let mut parser = TokenCursor::new({
        let mut t = vec![ident("default"), Token::FatArrow];
        t.extend(point_tokens());
        t
    });
    assert_eq!(
        parse_store_arm(&mut parser),
        Ok(StoreNode::DefaultExpr(Value::ObjectExprValue(point())))
    );
}

#[test]
fn store_may_be_empty_or_end_in_a_semicolon() {
    let mut parser = TokenCursor::new(vec![ident("s"), open(Delim::Brace), close(Delim::Brace)]);
    let store = parse_store(&mut parser).unwrap();
    assert_eq!(store, Store::empty("s"));
    assert_eq!(store.name(), "s");
    assert_eq!(parser.position(), 3);
    let mut parser = TokenCursor::new(vec![
        ident("s"),
        open(Delim::Brace),
        ident("default"),
        Token::FatArrow,
        open(Delim::Paren),
        num(1),
        close(Delim::Paren),
        Token::Semi,
        close(Delim::Brace),
    ]);
    assert_eq!(
        parse_store(&mut parser),
        Ok(Store::with_nodes("s", vec![StoreNode::DefaultExpr(int_value(1))]))
    );
    assert_eq!(parser.position(), 9);
}

#[test]
fn store_accepts_several_default_arms() {
    let mut parser = TokenCursor::new(vec![
        ident("s"),
        open(Delim::Brace),
        ident("default"),
        Token::FatArrow,
        open(Delim::Paren),
        num(1),
        close(Delim::Paren),
        Token::Semi,
        ident("default"),
        Token::FatArrow,
        open(Delim::Paren),
        num(2),
        close(Delim::Paren),
        close(Delim::Brace),
    ]);
    let store = parse_store(&mut parser).unwrap();
    assert_eq!(
        store,
        Store::with_nodes(
            "s",
            vec![StoreNode::DefaultExpr(int_value(1)), StoreNode::DefaultExpr(int_value(2))]
        )
    );
    let mut js = String::new();
    store.write_js_functions(&mut js);
    assert_eq!(
        js,
        "function store_handler_s(state, action) { switch(action.type) { default: return { store: (1) }; } }"
    );
}

#[test]
fn store_errors_name_the_offending_token() {
    let mut parser = TokenCursor::new(vec![ident("s"), open(Delim::Bracket)]);
    assert_eq!(
        parse_store(&mut parser),
        Err(ParseError::Expected { pos: 1, expected: open(Delim::Brace), found: open(Delim::Bracket) })
    );
    let mut parser = TokenCursor::new(vec![open(Delim::Brace)]);
    assert_eq!(
        parse_store(&mut parser),
        Err(ParseError::ExpectedIdent { pos: 0, found: open(Delim::Brace) })
    );
    let mut parser = TokenCursor::new(vec![ident("s"), open(Delim::Brace), ident("when")]);
    assert_eq!(
        parse_store(&mut parser),
        Err(ParseError::UnsupportedArm { pos: 2, label: "when".to_string() })
    );
    let mut parser = TokenCursor::new(vec![ident("s"), open(Delim::Brace), Token::Semi]);
    assert_eq!(
        parse_store(&mut parser),
        Err(ParseError::ExpectedIdent { pos: 2, found: Token::Semi })
    );
    let two_arms_without_semicolon = vec![
        ident("s"),
        open(Delim::Brace),
        ident("default"),
        Token::FatArrow,
        open(Delim::Paren),
        close(Delim::Paren),
        ident("default"),
    ];
    let mut parser = TokenCursor::new(two_arms_without_semicolon);
    assert_eq!(
        parse_store(&mut parser),
        Err(ParseError::Expected { pos: 6, expected: Token::Semi, found: ident("default") })
    );
    let unclosed = vec![
        ident("s"),
        open(Delim::Brace),
        ident("default"),
        Token::FatArrow,
        open(Delim::Paren),
        close(Delim::Paren),
    ];
    let mut parser = TokenCursor::new(unclosed);
    assert_eq!(
        parse_store(&mut parser),
        Err(ParseError::Expected { pos: 6, expected: Token::Semi, found: Token::Eof })
    );
}

#[test]
fn store_without_default_keeps_its_state_by_default() {
    let store = Store::with_nodes(
        "s",
        vec![StoreNode::ActionExpr("A".to_string(), Value::ObjectExprValue(point()))],
    );
    let mut js = String::from("// ");
    store.write_js_functions(&mut js);
    assert_eq!(
        js,
        "// function store_handler_s(state, action) { switch(action.type) { \
         case 'A': return { store: ({ x: (a), y: (b + 1) }) }; default: return state; } }"
    );
    let mut js = String::new();
    Store::empty("e").write_js_functions(&mut js);
    assert_eq!(
        js,
        "function store_handler_e(state, action) { switch(action.type) { default: return state; } }"
    );
}

#[test]
fn reducer_has_the_first_default_behind_the_cases() {
    let store = Store::with_nodes(
        "s",
        vec![
            StoreNode::ActionExpr("A".to_string(), int_value(1)),
            StoreNode::DefaultExpr(int_value(2)),
            StoreNode::ActionExpr("B".to_string(), int_value(3)),
            StoreNode::DefaultExpr(int_value(4)),
        ],
    );
    let mut js = String::new();
    store.write_js_functions(&mut js);
    assert_eq!(
        js,
        "function store_handler_s(state, action) { switch(action.type) { \
         case 'A': return { store: (1) }; case 'B': return { store: (3) }; \
         default: return { store: (2) }; } }"
    );
}

#[test]
fn default_value_is_that_of_the_first_default_arm() {
    let store = Store::with_nodes(
        "s",
        vec![
            StoreNode::ActionExpr("A".to_string(), int_value(1)),
            StoreNode::DefaultExpr(int_value(2)),
            StoreNode::DefaultExpr(int_value(4)),
        ],
    );
    assert_eq!(store.default_value(), Some(&int_value(2)));
    assert_eq!(Store::empty("s").default_value(), None);
    let only_actions =
        Store::with_nodes("s", vec![StoreNode::ActionExpr("A".to_string(), int_value(1))]);
    assert_eq!(only_actions.default_value(), None);
}

#[test]
fn each_arm_writes_its_own_switch_arm() {
    let mut js = String::new();
    StoreNode::ActionExpr("GO".to_string(), int_value(-3)).write_js_switch_body(&mut js);
    StoreNode::DefaultExpr(int_value(0)).write_js_switch_body(&mut js);
    assert_eq!(js, "case 'GO': return { store: (-3) }; default: return { store: (0) }; ");
}

#[test]
fn values_write_themselves_as_javascript() {
    let mut js = String::new();
    int_value(42).write_to(&mut js);
    js.push('|');
    Value::ObjectExprValue(point()).write_to(&mut js);
    js.push('|');
    Value::ObjectExprValue(ObjectExpr { class_name: "E".to_string(), assignments: vec![] })
        .write_to(&mut js);
    js.push('|');
    Value::ObjectExprValue(ObjectExpr {
        class_name: "N".to_string(),
        assignments: vec![ObjectExprAssignment::NewSimpleExprValue(
            "f".to_string(),
            SimpleExpr::new(vec![SimpleExprToken::LitString("s".to_string())]),
        )],
    })
    .write_to(&mut js);
    assert_eq!(js, "42|{ x: (a), y: (b + 1) }|{  }|{ f: ('s') }");
}

#[test]
fn stores_render_no_output_actions() {
    let store = Store::with_nodes("s", vec![StoreNode::DefaultExpr(int_value(1))]);
    assert_eq!(store.into_output_actions(), Vec::<OutputAction>::new());
}

#[test]
fn stores_copy_and_compare_by_value() {
    let store = Store::with_nodes(
        "s",
        vec![
            StoreNode::DefaultExpr(Value::ObjectExprValue(point())),
            StoreNode::ActionExpr("A".to_string(), int_value(1)),
        ],
    );
    assert_eq!(store.clone(), store);
    assert_ne!(store, Store::empty("s"));
    assert_ne!(Store::empty("s"), Store::empty("t"));
    assert_ne!(
        StoreNode::DefaultExpr(int_value(1)),
        StoreNode::ActionExpr("A".to_string(), int_value(1))
    );
    assert_ne!(
        StoreNode::ActionExpr("B".to_string(), int_value(1)),
        StoreNode::ActionExpr("A".to_string(), int_value(1))
    );
    assert_ne!(int_value(1), Value::ObjectExprValue(point()));
    let mut other = point();
    other.class_name = "Other".to_string();
    assert_ne!(other, point());
    let mut other = point();
    other.assignments.pop();
    assert_ne!(other, point());
    assert_ne!(
        ObjectExprAssignment::NewSimpleExprValue("x".to_string(), var_expr("a")),
        ObjectExprAssignment::UpdateSimpleExprValue("x".to_string(), var_expr("a"))
    );
}

fn view_tokens(name: &str) -> Vec<Token> {
    vec![
        ident("view"),
        ident(name),
        open(Delim::Bracket),
        open(Delim::Brace),
        Token::LitStr("hi".to_string()),
        close(Delim::Brace),
        close(Delim::Bracket),
    ]
}

fn store_tokens(name: &str) -> Vec<Token> {
    vec![
        ident("store"),
        ident(name),
        open(Delim::Brace),
        ident("default"),
        Token::FatArrow,
        open(Delim::Paren),
        num(0),
        close(Delim::Paren),
        close(Delim::Brace),
    ]
}

fn hi_view(name: &str) -> TemplateView {
    TemplateView {
        name: name.to_string(),
        contents: vec![ContentNode::LiteralNode(LitValue::LitString("hi".to_string()))],
    }
}

fn zero_store(name: &str) -> Store {
    Store::with_nodes(name, vec![StoreNode::DefaultExpr(int_value(0))])
}

#[test]
fn template_holds_views_and_stores_in_source_order() {
    let mut tokens = store_tokens("counter");
    tokens.extend(view_tokens("root"));
    tokens.extend(view_tokens("side"));
    let mut parser = TokenCursor::new(tokens);
    let template = parse_template(&mut parser, "main").unwrap();
    assert_eq!(
        template,
        Template {
            name: "main".to_string(),
            nodes: vec![
                TemplateNode::StoreNode("counter".to_string(), zero_store("counter")),
                TemplateNode::ViewNode("root".to_string(), hi_view("root")),
                TemplateNode::ViewNode("side".to_string(), hi_view("side")),
            ],
        }
    );
    assert_eq!(template.name(), "main");
    assert_eq!(template.nodes().len(), 3);
    assert_eq!(template.clone(), template);
    assert_eq!(
        template.into_output_actions(),
        vec![OutputAction::Write("hi".to_string()), OutputAction::Write("hi".to_string())]
    );
    let mut js = String::new();
    template.write_js_functions(&mut js);
    assert_eq!(
        js,
        "function store_handler_counter(state, action) { switch(action.type) { \
         default: return { store: (0) }; } } \
         function render_view_root(data) { IncrementalDOM.text('hi'); } \
         function render_view_side(data) { IncrementalDOM.text('hi'); }"
    );
}

#[test]
fn template_may_be_empty() {
    let mut parser = TokenCursor::new(vec![]);
    let template = parse_template(&mut parser, "none").unwrap();
    assert_eq!(template, Template { name: "none".to_string(), nodes: vec![] });
    let mut js = String::new();
    template.write_js_functions(&mut js);
    assert_eq!(js, "");
}

#[test]
fn template_ends_at_an_end_of_input_token() {
    let mut tokens = view_tokens("root");
    tokens.push(Token::Eof);
    tokens.extend(view_tokens("side"));
    let mut parser = TokenCursor::new(tokens);
    let template = parse_template(&mut parser, "main").unwrap();
    assert_eq!(template.nodes().len(), 1);
}

#[test]
fn template_refuses_other_keywords_and_tokens() {
    let mut tokens = view_tokens("root");
    tokens.push(ident("style"));
    let mut parser = TokenCursor::new(tokens);
    assert_eq!(
        parse_template(&mut parser, "main"),
        Err(ParseError::UnknownKeyword { pos: 7, keyword: "style".to_string() })
    );
    let mut tokens = view_tokens("root");
    tokens.push(close(Delim::Bracket));
    let mut parser = TokenCursor::new(tokens);
    assert_eq!(
        parse_template(&mut parser, "main"),
        Err(ParseError::UnexpectedToken { pos: 7, found: close(Delim::Bracket) })
    );
}

#[test]
fn template_refuses_a_second_definition_of_one_name() {
    let mut tokens = view_tokens("root");
    tokens.extend(store_tokens("root"));
    tokens.extend(view_tokens("root"));
    let mut parser = TokenCursor::new(tokens);
    assert_eq!(
        parse_template(&mut parser, "main"),
        Err(ParseError::DuplicateName { pos: 17, name: "root".to_string() })
    );
    let mut tokens = store_tokens("s");
    tokens.extend(store_tokens("s"));
    let mut parser = TokenCursor::new(tokens);
    assert_eq!(
        parse_template(&mut parser, "main"),
        Err(ParseError::DuplicateName { pos: 10, name: "s".to_string() })
    );
}

#[test]
fn template_refuses_a_second_definition_before_it_reads_it() {
    let mut tokens = view_tokens("root");
    tokens.extend(vec![ident("view"), ident("root"), Token::Comma]);
    let mut parser = TokenCursor::new(tokens);
    assert_eq!(
        parse_template(&mut parser, "main"),
        Err(ParseError::DuplicateName { pos: 8, name: "root".to_string() })
    );
    assert_eq!(parser.position(), 8);
}

#[test]
fn template_leaves_the_cursor_at_the_end_or_at_the_error() {
    let mut parser = TokenCursor::new(view_tokens("root"));
    assert!(parse_template(&mut parser, "main").is_ok());
    assert_eq!(parser.position(), 7);
    let mut tokens = view_tokens("root");
    tokens.push(Token::Eof);
    tokens.push(ident("junk"));
    let mut parser = TokenCursor::new(tokens);
    assert!(parse_template(&mut parser, "main").is_ok());
    assert_eq!(parser.position(), 7);
    let mut tokens = view_tokens("root");
    tokens.push(ident("junk"));
    let mut parser = TokenCursor::new(tokens);
    assert!(parse_template(&mut parser, "main").is_err());
    assert_eq!(parser.position(), 7);
}

#[test]
fn template_passes_on_the_errors_of_its_definitions() {
    let mut tokens = view_tokens("root");
    tokens[6] = Token::Comma;
    let mut parser = TokenCursor::new(tokens);
    let err = parse_template(&mut parser, "main").unwrap_err();
    assert_eq!(err.position(), 6);
    assert_eq!(err.clone(), err);
    let mut tokens = store_tokens("s");
    tokens[3] = ident("case");
    let mut parser = TokenCursor::new(tokens);
    assert_eq!(
        parse_template(&mut parser, "main"),
        Err(ParseError::UnsupportedArm { pos: 3, label: "case".to_string() })
    );
}
