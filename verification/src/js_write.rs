//! The JavaScript backend: output actions become calls against an
//! incremental-DOM API, and simple expressions become JavaScript expressions.

use vstd::prelude::*;
use crate::common_write::{decimal_text, join_text, write_decimal, WriteText};
use crate::output_actions::{OutputAction, SpecOutputAction, WriteOutputActions};
use crate::simple_expr::{SimpleExpr, SimpleExprNumber, SimpleExprToken, SpecSimpleExprToken};
use crate::token::views;

verus! {

/// The JavaScript text of one token of a simple expression. A string
/// literal stands in single quotes, with its text as it is; `+` and `-`
/// stand between single spaces.
pub open spec fn js_token_text(token: SpecSimpleExprToken) -> Seq<char> {
    match token {
        SpecSimpleExprToken::VarReference(name) => name,
        SpecSimpleExprToken::LitString(s) => "'"@ + s + "'"@,
        SpecSimpleExprToken::LitNumber(SimpleExprNumber::Int64(n)) => decimal_text(n as int),
        SpecSimpleExprToken::LitNumber(SimpleExprNumber::Int32(n)) => decimal_text(n as int),
        SpecSimpleExprToken::OpenBrace => "{"@,
        SpecSimpleExprToken::CloseBrace => "}"@,
        SpecSimpleExprToken::OpenParen => "("@,
        SpecSimpleExprToken::CloseParen => ")"@,
        SpecSimpleExprToken::BinopPlus => " + "@,
        SpecSimpleExprToken::BinopMinus => " - "@,
    }
}

/// The JavaScript text of a simple expression: the texts of its tokens, one
/// behind the other.
pub open spec fn js_expr_text(tokens: Seq<SpecSimpleExprToken>) -> Seq<char>
    decreases tokens.len(),
{
    if tokens.len() == 0 {
        Seq::empty()
    } else {
        js_expr_text(tokens.drop_last()) + js_token_text(tokens.last())
    }
}

/// The statement that calls `method` with `params`.
pub open spec fn js_call_text(method: Seq<char>, params: Seq<char>) -> Seq<char> {
    method + "("@ + params + ");"@
}

/// The JavaScript statement of one output action.
pub open spec fn js_action_text(action: SpecOutputAction) -> Seq<char> {
    match action {
        SpecOutputAction::Write(s) => js_call_text(
            "IncrementalDOM.text"@,
            js_token_text(SpecSimpleExprToken::LitString(s)),
        ),
        SpecOutputAction::WriteResult(expr) => js_call_text(
            "IncrementalDOM.text"@,
            js_expr_text(expr),
        ),
        SpecOutputAction::WriteOpen(tag) => js_call_text(
            "IncrementalDOM.elementOpen"@,
            js_token_text(SpecSimpleExprToken::LitString(tag)),
        ),
        SpecOutputAction::WriteClose(tag) => js_call_text(
            "IncrementalDOM.elementClose"@,
            js_token_text(SpecSimpleExprToken::LitString(tag)),
        ),
        SpecOutputAction::WriteVoid(tag) => js_call_text(
            "IncrementalDOM.elementVoid"@,
            js_token_text(SpecSimpleExprToken::LitString(tag)),
        ),
    }
}

/// The JavaScript statements of a sequence of output actions, in order, with
/// one space between two statements.
pub open spec fn js_actions_text(actions: Seq<SpecOutputAction>) -> Seq<char>
    decreases actions.len(),
{
    if actions.len() == 0 {
        Seq::empty()
    } else if actions.len() == 1 {
        js_action_text(actions[0])
    } else {
        js_actions_text(actions.drop_last()) + " "@ + js_action_text(actions.last())
    }
}

/// The definition of the function `func_name` with parameters `args` and
/// body `body`.
pub open spec fn js_function_text(
    func_name: Seq<char>,
    args: Seq<Seq<char>>,
    body: Seq<char>,
) -> Seq<char> {
    "function "@ + func_name + "("@ + join_text(args, ", "@) + ") { "@ + body + " }"@
}

/// The `switch` over `var_name` with the arms `body`.
pub open spec fn js_switch_text(var_name: Seq<char>, body: Seq<char>) -> Seq<char> {
    "switch("@ + var_name + ") { "@ + body + "}"@
}

/// The arm of a reducer's `switch` that returns `expr` as the next state,
/// behind the label `label`.
pub open spec fn js_arm_text(label: Seq<char>, expr: Seq<char>) -> Seq<char> {
    label + ": return { store: ("@ + expr + ") }; "@
}

/// The arm for the action named `case_str`.
pub open spec fn js_case_text(case_str: Seq<char>, expr: Seq<char>) -> Seq<char> {
    js_arm_text("case '"@ + case_str + "'"@, expr)
}

/// The arm for every other action.
pub open spec fn js_default_text(expr: Seq<char>) -> Seq<char> {
    js_arm_text("default"@, expr)
}

/// Writes the tokens of a JavaScript expression.
pub trait JsWriteSimpleExpr: WriteText {
    fn var_reference(&mut self, var_name: &str)
        ensures
            final(self).text() == old(self).text() + js_token_text(
                SpecSimpleExprToken::VarReference(var_name@),
            ),
    ;

    fn string_lit(&mut self, lit: &str)
        ensures
            final(self).text() == old(self).text() + js_token_text(
                SpecSimpleExprToken::LitString(lit@),
            ),
    ;

    fn int64_lit(&mut self, n: i64)
        ensures
            final(self).text() == old(self).text() + js_token_text(
                SpecSimpleExprToken::LitNumber(SimpleExprNumber::Int64(n)),
            ),
    ;

    fn int32_lit(&mut self, n: i32)
        ensures
            final(self).text() == old(self).text() + js_token_text(
                SpecSimpleExprToken::LitNumber(SimpleExprNumber::Int32(n)),
            ),
    ;

    fn open_brace(&mut self)
        ensures
            final(self).text() == old(self).text() + js_token_text(SpecSimpleExprToken::OpenBrace),
    ;

    fn close_brace(&mut self)
        ensures
            final(self).text() == old(self).text() + js_token_text(SpecSimpleExprToken::CloseBrace),
    ;

    fn open_paren(&mut self)
        ensures
            final(self).text() == old(self).text() + js_token_text(SpecSimpleExprToken::OpenParen),
    ;

    fn close_paren(&mut self)
        ensures
            final(self).text() == old(self).text() + js_token_text(SpecSimpleExprToken::CloseParen),
    ;

    fn binop_plus(&mut self)
        ensures
            final(self).text() == old(self).text() + js_token_text(SpecSimpleExprToken::BinopPlus),
    ;

    fn binop_minus(&mut self)
        ensures
            final(self).text() == old(self).text() + js_token_text(SpecSimpleExprToken::BinopMinus),
    ;
}

impl<T: WriteText> JsWriteSimpleExpr for T {
    fn var_reference(&mut self, var_name: &str) {
        self.write_text(var_name);
    }

    fn string_lit(&mut self, lit: &str) {
        self.write_text("'");
        self.write_text(lit);
        self.write_text("'");
        assert(self.text() =~= old(self).text() + ("'"@ + lit@ + "'"@));
    }

    fn int64_lit(&mut self, n: i64) {
        write_decimal(self, n);
    }

    fn int32_lit(&mut self, n: i32) {
        write_decimal(self, n as i64);
    }

    fn open_brace(&mut self) {
        self.write_text("{");
    }

    fn close_brace(&mut self) {
        self.write_text("}");
    }

    fn open_paren(&mut self) {
        self.write_text("(");
    }

    fn close_paren(&mut self) {
        self.write_text(")");
    }

    fn binop_plus(&mut self) {
        self.write_text(" + ");
    }

    fn binop_minus(&mut self) {
        self.write_text(" - ");
    }
}

/// Writes the parameters of a call, each as an expression.
pub trait JsWriteParamList: WriteText {
    /// Writes the parameter whose expression is `expr`.
    fn param(&mut self, expr: &str)
        ensures
            final(self).text() == old(self).text() + expr@,
    ;
}

impl<T: WriteText> JsWriteParamList for T {
    fn param(&mut self, expr: &str) {
        self.write_text(expr);
    }
}

/// Writes the parameters of a function definition, each as a name.
pub trait JsWriteFuncParamList: WriteText {
    /// Writes the parameter named `var_name`.
    fn param(&mut self, var_name: &str)
        ensures
            final(self).text() == old(self).text() + var_name@,
    ;
}

impl<T: WriteText> JsWriteFuncParamList for T {
    fn param(&mut self, var_name: &str) {
        self.write_text(var_name);
    }
}

/// Writes the arms of a reducer's `switch`.
pub trait JsWriteSwitchBody: WriteText {
    /// Writes the arm for the action named `case_str`, which returns `expr`.
    fn case_str(&mut self, case_str: &str, expr: &str)
        ensures
            final(self).text() == old(self).text() + js_case_text(case_str@, expr@),
    ;

    /// Writes the arm for every other action, which returns `expr`.
    fn default_case(&mut self, expr: &str)
        ensures
            final(self).text() == old(self).text() + js_default_text(expr@),
    ;
}

impl<T: WriteText> JsWriteSwitchBody for T {
    fn case_str(&mut self, case_str: &str, expr: &str) {
        self.write_text("case '");
        self.write_text(case_str);
        self.write_text("'");
        self.write_text(": return { store: (");
        self.write_text(expr);
        self.write_text(") }; ");
        assert(self.text() =~= old(self).text() + js_case_text(case_str@, expr@));
    }

    fn default_case(&mut self, expr: &str) {
        self.write_text("default");
        self.write_text(": return { store: (");
        self.write_text(expr);
        self.write_text(") }; ");
        assert(self.text() =~= old(self).text() + js_default_text(expr@));
    }
}

/// Writes JavaScript statements.
pub trait JsWrite: WriteText {
    /// Writes the definition of the function `func_name`, which takes no
    /// parameters and has the body `body`.
    fn function(&mut self, func_name: &str, body: &str)
        ensures
            final(self).text() == old(self).text() + js_function_text(
                func_name@,
                Seq::empty(),
                body@,
            ),
    ;

    /// Binds the variable `var_name` to the expression `expr`. The functions
    /// that this backend writes read their data by name and hold no
    /// bindings, so the binding leaves no text: the sink stays as it is.
    fn let_statement(&mut self, var_name: &str, expr: &str)
        ensures
            final(self).text() == old(self).text(),
    ;

    /// Writes the statement that calls `method_name` with `params`.
    fn call_method(&mut self, method_name: &str, params: &str)
        ensures
            final(self).text() == old(self).text() + js_call_text(method_name@, params@),
    ;

    /// Writes a `switch` over the variable `var_name` with the arms `body`.
    fn switch_expr_simple(&mut self, var_name: &str, body: &str)
        ensures
            final(self).text() == old(self).text() + js_switch_text(var_name@, body@),
    ;
}

impl<T: WriteText> JsWrite for T {
    fn function(&mut self, func_name: &str, body: &str) {
        self.write_text("function ");
        self.write_text(func_name);
        self.write_text("(");
        self.write_text(") { ");
        self.write_text(body);
        self.write_text(" }");
        assert(self.text() =~= old(self).text() + js_function_text(
            func_name@,
            Seq::empty(),
            body@,
        ));
    }

    fn let_statement(&mut self, var_name: &str, expr: &str) {
    }

    fn call_method(&mut self, method_name: &str, params: &str) {
        self.write_text(method_name);
        self.write_text("(");
        self.write_text(params);
        self.write_text(");");
        assert(self.text() =~= old(self).text() + js_call_text(method_name@, params@));
    }

    fn switch_expr_simple(&mut self, var_name: &str, body: &str) {
        self.write_text("switch(");
        self.write_text(var_name);
        self.write_text(") { ");
        self.write_text(body);
        self.write_text("}");
        assert(self.text() =~= old(self).text() + js_switch_text(var_name@, body@));
    }
}

/// The names in `args`.
pub open spec fn arg_texts(args: Seq<&str>) -> Seq<Seq<char>> {
    Seq::new(args.len(), |i: int| args[i]@)
}

/// Writes JavaScript function definitions.
pub trait JsWriteFunctions: WriteText {
    /// Writes the definition of the function `func_name` with the parameters
    /// `args` and the body `body`.
    fn function(&mut self, func_name: &str, args: Vec<&str>, body: &str)
        ensures
            final(self).text() == old(self).text() + js_function_text(
                func_name@,
                arg_texts(args@),
                body@,
            ),
    ;
}

impl<T: WriteText> JsWriteFunctions for T {
    fn function(&mut self, func_name: &str, args: Vec<&str>, body: &str) {
        self.write_text("function ");
        self.write_text(func_name);
        self.write_text("(");
        let ghost before = self.text();
        let ghost names = arg_texts(args@);
        let n = args.len();
        let mut i: usize = 0;
        assert(names.take(0) =~= Seq::empty());
        assert(self.text() =~= before + join_text(names.take(0), ", "@));
        while i < n
            invariant
                n == args.len(),
                names == arg_texts(args@),
                0 <= i <= n,
                self.text() == before + join_text(names.take(i as int), ", "@),
            decreases n - i,
        {
            if i > 0 {
                self.write_text(", ");
            }
            self.write_text(args[i]);
            proof {
                let upto = names.take(i as int + 1);
                assert(upto.drop_last() =~= names.take(i as int));
                assert(upto.last() == args@[i as int]@);
                assert(self.text() =~= before + join_text(upto, ", "@));
            }
            i = i + 1;
        }
        assert(names.take(n as int) =~= names);
        self.write_text(") { ");
        self.write_text(body);
        self.write_text(" }");
        assert(self.text() =~= old(self).text() + js_function_text(func_name@, names, body@));
    }
}

/// Something that renders as a JavaScript expression.
pub trait WriteJsSimpleExpr {
    /// The expression's JavaScript text.
    spec fn js_simple_expr_text(&self) -> Seq<char>;

    fn write_js_simple_expr<W: JsWriteSimpleExpr>(&self, js: &mut W)
        ensures
            final(js).text() == old(js).text() + self.js_simple_expr_text(),
    ;
}

impl WriteJsSimpleExpr for SimpleExpr {
    open spec fn js_simple_expr_text(&self) -> Seq<char> {
        js_expr_text(self@)
    }

    fn write_js_simple_expr<W: JsWriteSimpleExpr>(&self, js: &mut W) {
        let n = self.tokens.len();
        let mut i: usize = 0;
        assert(self@.take(0) =~= Seq::empty());
        assert(js.text() =~= old(js).text() + js_expr_text(self@.take(0)));
        while i < n
            invariant
                n == self.tokens.len(),
                0 <= i <= n,
                js.text() == old(js).text() + js_expr_text(self@.take(i as int)),
            decreases n - i,
        {
            match &self.tokens[i] {
                SimpleExprToken::VarReference(var_name) => {
                    js.var_reference(var_name.as_str());
                },
                SimpleExprToken::LitString(contents) => {
                    js.string_lit(contents.as_str());
                },
                SimpleExprToken::LitNumber(contents) => {
                    match contents {
                        SimpleExprNumber::Int64(n) => {
                            js.int64_lit(*n);
                        },
                        SimpleExprNumber::Int32(n) => {
                            js.int32_lit(*n);
                        },
                    }
                },
                SimpleExprToken::OpenBrace => {
                    js.open_brace();
                },
                SimpleExprToken::CloseBrace => {
                    js.close_brace();
                },
                SimpleExprToken::OpenParen => {
                    js.open_paren();
                },
                SimpleExprToken::CloseParen => {
                    js.close_paren();
                },
                SimpleExprToken::BinopPlus => {
                    js.binop_plus();
                },
                SimpleExprToken::BinopMinus => {
                    js.binop_minus();
                },
            }
            proof {
                let upto = self@.take(i as int + 1);
                assert(upto.drop_last() =~= self@.take(i as int));
                assert(upto.last() == self.tokens@[i as int]@);
                assert(js.text() =~= old(js).text() + js_expr_text(upto));
            }
            i = i + 1;
        }
        assert(self@.take(n as int) =~= self@);
    }
}

/// Something that renders as JavaScript statements.
pub trait WriteJs {
    /// The statements' text.
    spec fn js_text(&self) -> Seq<char>;

    fn write_js<W: JsWrite>(&self, js: &mut W)
        ensures
            final(js).text() == old(js).text() + self.js_text(),
    ;
}

impl WriteJs for OutputAction {
    open spec fn js_text(&self) -> Seq<char> {
        js_action_text(self@)
    }

    fn write_js<W: JsWrite>(&self, js: &mut W) {
        let mut ex = String::new();
        let mut pl = String::new();
        match self {
            OutputAction::Write(contents) => {
                ex.string_lit(contents.as_str());
                JsWriteParamList::param(&mut pl, ex.as_str());
                js.call_method("IncrementalDOM.text", pl.as_str());
            },
            OutputAction::WriteResult(template_expr) => {
                template_expr.write_js_simple_expr(&mut ex);
                JsWriteParamList::param(&mut pl, ex.as_str());
                js.call_method("IncrementalDOM.text", pl.as_str());
            },
            OutputAction::WriteOpen(element_type) => {
                ex.string_lit(element_type.as_str());
                JsWriteParamList::param(&mut pl, ex.as_str());
                js.call_method("IncrementalDOM.elementOpen", pl.as_str());
            },
            OutputAction::WriteClose(element_type) => {
                ex.string_lit(element_type.as_str());
                JsWriteParamList::param(&mut pl, ex.as_str());
                js.call_method("IncrementalDOM.elementClose", pl.as_str());
            },
            OutputAction::WriteVoid(element_type) => {
                ex.string_lit(element_type.as_str());
                JsWriteParamList::param(&mut pl, ex.as_str());
                js.call_method("IncrementalDOM.elementVoid", pl.as_str());
            },
        }
        assert(pl@ =~= ex@);
    }
}

impl WriteJs for Vec<OutputAction> {
    open spec fn js_text(&self) -> Seq<char> {
        js_actions_text(views(self@))
    }

    fn write_js<W: JsWrite>(&self, js: &mut W) {
        let n = self.len();
        let mut i: usize = 0;
        let ghost all = views(self@);
        assert(all.take(0) =~= Seq::empty());
        assert(js.text() =~= old(js).text() + js_actions_text(all.take(0)));
        while i < n
            invariant
                n == self.len(),
                all == views(self@),
                0 <= i <= n,
                js.text() == old(js).text() + js_actions_text(all.take(i as int)),
            decreases n - i,
        {
            if i > 0 {
                js.write_text(" ");
            }
            self[i].write_js(js);
            proof {
                let upto = all.take(i as int + 1);
                assert(upto.drop_last() =~= all.take(i as int));
                assert(upto.last() == self@[i as int]@);
                assert(js.text() =~= old(js).text() + js_actions_text(upto));
            }
            i = i + 1;
        }
        assert(all.take(n as int) =~= all);
    }
}

impl<S: WriteOutputActions> WriteJs for S {
    open spec fn js_text(&self) -> Seq<char> {
        js_actions_text(self.output_actions())
    }

    fn write_js<W: JsWrite>(&self, js: &mut W) {
        let mut output_actions: Vec<OutputAction> = Vec::new();
        self.write_output_actions(&mut output_actions);
        assert(views(output_actions@) =~= self.output_actions());
        output_actions.write_js(js);
    }
}

/// Something that renders as JavaScript function definitions.
pub trait WriteJsFunctions {
    /// The definitions' text.
    spec fn js_functions_text(&self) -> Seq<char>;

    fn write_js_functions<W: JsWriteFunctions>(&self, js: &mut W)
        ensures
            final(js).text() == old(js).text() + self.js_functions_text(),
    ;
}

/// The function definitions of each of `items`.
pub open spec fn js_functions_texts<T: WriteJsFunctions>(items: Seq<T>) -> Seq<Seq<char>> {
    Seq::new(items.len(), |i: int| items[i].js_functions_text())
}

impl<T: WriteJsFunctions> WriteJsFunctions for Vec<T> {
    /// The definitions of each item in order, with one space between the
    /// definitions of two items.
    open spec fn js_functions_text(&self) -> Seq<char> {
        join_text(js_functions_texts(self@), " "@)
    }

    fn write_js_functions<W: JsWriteFunctions>(&self, js: &mut W) {
        let n = self.len();
        let mut i: usize = 0;
        let ghost texts = js_functions_texts(self@);
        assert(texts.take(0) =~= Seq::empty());
        assert(js.text() =~= old(js).text() + join_text(texts.take(0), " "@));
        while i < n
            invariant
                n == self.len(),
                texts == js_functions_texts(self@),
                0 <= i <= n,
                js.text() == old(js).text() + join_text(texts.take(i as int), " "@),
            decreases n - i,
        {
            if i > 0 {
                js.write_text(" ");
            }
            self[i].write_js_functions(js);
            proof {
                let upto = texts.take(i as int + 1);
                assert(upto.drop_last() =~= texts.take(i as int));
                assert(upto.last() == self@[i as int].js_functions_text());
                assert(js.text() =~= old(js).text() + join_text(upto, " "@));
            }
            i = i + 1;
        }
        assert(texts.take(n as int) =~= texts);
    }
}

/// Something that renders as the arms of a `switch`.
pub trait WriteJsSwitchBody {
    /// The arms' text.
    spec fn js_switch_body_text(&self) -> Seq<char>;

    fn write_js_switch_body<W: JsWriteSwitchBody>(&self, switch: &mut W)
        ensures
            final(switch).text() == old(switch).text() + self.js_switch_body_text(),
    ;
}

} // verus!
