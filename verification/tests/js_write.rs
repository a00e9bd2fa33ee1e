use incrust::js_write::{JsWrite, JsWriteFunctions, JsWriteSimpleExpr, JsWriteSwitchBody};

#[test]
#[allow(non_snake_case)]
fn test_jsWrite_from_Write() {
    let mut js = String::new();
    js.call_method("IncrementalDOM.text", "'a'");
    assert_eq!(js, "IncrementalDOM.text('a');");
}

#[test]
fn numbers_render_in_decimal() {
    let mut js = String::new();
    js.int64_lit(i64::MIN);
    js.binop_plus();
    js.int64_lit(i64::MAX);
    js.binop_minus();
    js.int32_lit(-7);
    js.open_paren();
    js.int32_lit(0);
    js.close_paren();
    js.int64_lit(1000);
    assert_eq!(js, "-9223372036854775808 + 9223372036854775807 - -7(0)1000");
}

#[test]
fn function_joins_parameters_with_commas() {
    let mut js = String::new();
    JsWriteFunctions::function(&mut js, "f", vec!["a", "b", "c"], "return;");
    assert_eq!(js, "function f(a, b, c) { return; }");
    let mut js = String::new();
    JsWriteFunctions::function(&mut js, "g", vec![], "");
    assert_eq!(js, "function g() {  }");
    let mut js = String::new();
    JsWrite::function(&mut js, "h", "x();");
    assert_eq!(js, "function h() { x(); }");
}

#[test]
fn switch_arms_return_the_next_state() {
    let mut arms = String::new();
    arms.case_str("ADD", "n + 1");
    arms.default_case("0");
    let mut js = String::new();
    js.switch_expr_simple("action.type", &arms);
    assert_eq!(
        js,
        "switch(action.type) { case 'ADD': return { store: (n + 1) }; default: return { store: (0) }; }"
    );
}
