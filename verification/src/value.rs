//! Values: what a store arm computes.

use vstd::prelude::*;
use vstd::std_specs::cmp::PartialEqSpecImpl;
use crate::common_write::{join_text, WriteText};
use crate::error::{ParseError, SpecParseError};
use crate::js_write::{js_expr_text, JsWriteSimpleExpr, WriteJsSimpleExpr};
use crate::object_expr::{
    lemma_object_expr_bounds, parse_object_expr, spec_parse_object_expr, ObjectExpr,
    ObjectExprAssignment, SpecObjectExpr, SpecObjectExprAssignment,
};
use crate::simple_expr::{
    lemma_paren_expr_bounds, parse_simple_expr_in_parens, spec_parse_paren_expr, SimpleExpr,
    SpecSimpleExprToken,
};
use crate::token::{token_at, Delim, SpecCursor, SpecToken, Token, TokenCursor};

verus! {

/// The value of a store arm.
#[derive(Debug)]
pub enum Value {
    SimpleExprValue(SimpleExpr),
    ObjectExprValue(ObjectExpr),
}

/// The mathematical value of a [`Value`].
pub enum SpecValue {
    SimpleExprValue(Seq<SpecSimpleExprToken>),
    ObjectExprValue(SpecObjectExpr),
}

impl View for Value {
    type V = SpecValue;

    open spec fn view(&self) -> SpecValue {
        match self {
            Value::SimpleExprValue(expr) => SpecValue::SimpleExprValue(expr@),
            Value::ObjectExprValue(object_expr) => SpecValue::ObjectExprValue(object_expr@),
        }
    }
}

impl Clone for Value {
    fn clone(&self) -> (r: Value)
        ensures
            r@ == self@,
    {
        match self {
            Value::SimpleExprValue(expr) => Value::SimpleExprValue(expr.clone()),
            Value::ObjectExprValue(object_expr) => Value::ObjectExprValue(object_expr.clone()),
        }
    }
}

impl PartialEq for Value {
    fn eq(&self, other: &Value) -> (r: bool) {
        match self {
            Value::SimpleExprValue(a) => match other {
                Value::SimpleExprValue(b) => *a == *b,
                _ => false,
            },
            Value::ObjectExprValue(a) => match other {
                Value::ObjectExprValue(b) => *a == *b,
                _ => false,
            },
        }
    }
}

impl PartialEqSpecImpl for Value {
    open spec fn obeys_eq_spec() -> bool {
        true
    }

    open spec fn eq_spec(&self, other: &Value) -> bool {
        self@ == other@
    }
}

/// The result of parsing a value.
pub type ValueParse = Result<(SpecValue, int), SpecParseError>;

/// The value at `pos`: a simple expression in parentheses, which ends at
/// the `)` that matches the first one, or else an object expression.
pub open spec fn spec_parse_value(tokens: Seq<SpecToken>, pos: int) -> ValueParse {
    if token_at(tokens, pos) == SpecToken::OpenDelim(Delim::Paren) {
        match spec_parse_paren_expr(tokens, pos + 1, 0) {
            Err(e) => Err(e),
            Ok((expr, close)) => match (SpecCursor { tokens, pos: close }).expect(
                SpecToken::CloseDelim(Delim::Paren),
            ) {
                Err(e) => Err(e),
                Ok(end) => Ok((SpecValue::SimpleExprValue(expr), end)),
            },
        }
    } else {
        match spec_parse_object_expr(tokens, pos) {
            Err(e) => Err(e),
            Ok((object_expr, end)) => Ok((SpecValue::ObjectExprValue(object_expr), end)),
        }
    }
}

/// A value ends behind its start and within the input.
pub proof fn lemma_value_bounds(tokens: Seq<SpecToken>, pos: int)
    requires
        0 <= pos <= tokens.len(),
    ensures
        spec_parse_value(tokens, pos) matches Ok((_, end)) ==> pos < end <= tokens.len(),
{
    if token_at(tokens, pos) == SpecToken::OpenDelim(Delim::Paren) {
        lemma_paren_expr_bounds(tokens, pos + 1, 0);
    } else {
        lemma_object_expr_bounds(tokens, pos);
    }
}

/// Parses a value: `(expression)`, or an object expression.
pub fn parse_value(parser: &mut TokenCursor) -> (r: Result<Value, ParseError>)
    ensures
        final(parser)@.tokens == old(parser)@.tokens,
        match r {
            Ok(value) => spec_parse_value(old(parser)@.tokens, old(parser)@.pos) == Ok::<
                (SpecValue, int),
                SpecParseError,
            >((value@, final(parser)@.pos)),
            Err(e) => spec_parse_value(old(parser)@.tokens, old(parser)@.pos) == Err::<
                (SpecValue, int),
                SpecParseError,
            >(e@) && final(parser)@.pos == e@.position(),
        },
{
    let at_paren = match parser.peek() {
        Token::OpenDelim(Delim::Paren) => true,
        _ => false,
    };
    if at_paren {
        parser.advance();
        let simple_expr = match parse_simple_expr_in_parens(parser) {
            Err(e) => {
                return Err(e);
            },
            Ok(expr) => expr,
        };
        match parser.expect(&Token::CloseDelim(Delim::Paren)) {
            Err(e) => {
                return Err(e);
            },
            Ok(_) => {},
        }
        Ok(Value::SimpleExprValue(simple_expr))
    } else {
        match parse_object_expr(parser) {
            Err(e) => Err(e),
            Ok(object_expr) => Ok(Value::ObjectExprValue(object_expr)),
        }
    }
}

/// The JavaScript text of one assignment of an object expression: the
/// field, a colon, and the expression in parentheses.
pub open spec fn js_assignment_text(assignment: SpecObjectExprAssignment) -> Seq<char> {
    match assignment {
        SpecObjectExprAssignment::NewSimpleExprValue(field, expr) => field + ": ("@
            + js_expr_text(expr) + ")"@,
        SpecObjectExprAssignment::UpdateSimpleExprValue(field, expr) => field + ": ("@
            + js_expr_text(expr) + ")"@,
    }
}

/// The JavaScript texts of the assignments of an object expression.
pub open spec fn js_assignment_texts(assignments: Seq<SpecObjectExprAssignment>) -> Seq<
    Seq<char>,
> {
    Seq::new(assignments.len(), |i: int| js_assignment_text(assignments[i]))
}

/// The JavaScript text of a value. A simple expression stands as it is; an
/// object expression becomes an object literal that holds each of its
/// fields.
pub open spec fn js_value_text(value: SpecValue) -> Seq<char> {
    match value {
        SpecValue::SimpleExprValue(expr) => js_expr_text(expr),
        SpecValue::ObjectExprValue(object_expr) => "{ "@ + join_text(
            js_assignment_texts(object_expr.assignments),
            ", "@,
        ) + " }"@,
    }
}

/// Something that can write itself to a sink of type `W`.
pub trait WriteAs<W> {
    /// Whether `after` is `before` with `self` written to it.
    spec fn written_to(&self, before: &W, after: &W) -> bool;

    fn write_to(&self, w: &mut W)
        ensures
            self.written_to(old(w), final(w)),
    ;
}

impl<W: JsWriteSimpleExpr> WriteAs<W> for Value {
    open spec fn written_to(&self, before: &W, after: &W) -> bool {
        after.text() == before.text() + js_value_text(self@)
    }

    fn write_to(&self, w: &mut W) {
        match self {
            Value::SimpleExprValue(expr) => {
                expr.write_js_simple_expr(w);
            },
            Value::ObjectExprValue(object_expr) => {
                w.write_text("{ ");
                let ghost before = w.text();
                let ghost texts = js_assignment_texts(object_expr@.assignments);
                let n = object_expr.assignments.len();
                let mut i: usize = 0;
                assert(texts.take(0) =~= Seq::empty());
                assert(w.text() =~= before + join_text(texts.take(0), ", "@));
                while i < n
                    invariant
                        n == object_expr.assignments.len(),
                        texts == js_assignment_texts(object_expr@.assignments),
                        0 <= i <= n,
                        w.text() == before + join_text(texts.take(i as int), ", "@),
                    decreases n - i,
                {
                    if i > 0 {
                        w.write_text(", ");
                    }
                    match &object_expr.assignments[i] {
                        ObjectExprAssignment::NewSimpleExprValue(field, expr) => {
                            w.write_text(field.as_str());
                            w.write_text(": (");
                            expr.write_js_simple_expr(w);
                            w.write_text(")");
                        },
                        ObjectExprAssignment::UpdateSimpleExprValue(field, expr) => {
                            w.write_text(field.as_str());
                            w.write_text(": (");
                            expr.write_js_simple_expr(w);
                            w.write_text(")");
                        },
                    }
                    proof {
                        let upto = texts.take(i as int + 1);
                        assert(upto.drop_last() =~= texts.take(i as int));
                        assert(upto.last() == js_assignment_text(
                            object_expr.assignments@[i as int]@,
                        ));
                        assert(w.text() =~= before + join_text(upto, ", "@));
                    }
                    i = i + 1;
                }
                assert(texts.take(n as int) =~= texts);
                w.write_text(" }");
                assert(w.text() =~= old(w).text() + js_value_text(self@));
            },
        }
    }
}

} // verus!
