//! The HTML backend: output actions become markup text. An expression is
//! not evaluated here; it is written out as source text, for the program
//! that holds the rendered view to evaluate.

use vstd::prelude::*;
use crate::common_write::{decimal_text, write_decimal, WriteText};
use crate::output_actions::{OutputAction, SpecOutputAction, WriteOutputActions};
use crate::simple_expr::{SimpleExpr, SimpleExprNumber, SimpleExprToken, SpecSimpleExprToken};
use crate::token::views;

verus! {

/// The source text of one token of a simple expression. A string literal
/// stands in double quotes, with its text as it is.
pub open spec fn html_token_text(token: SpecSimpleExprToken) -> Seq<char> {
    match token {
        SpecSimpleExprToken::VarReference(name) => name,
        SpecSimpleExprToken::LitString(s) => "\""@ + s + "\""@,
        SpecSimpleExprToken::LitNumber(SimpleExprNumber::Int64(n)) => decimal_text(n as int),
        SpecSimpleExprToken::LitNumber(SimpleExprNumber::Int32(n)) => decimal_text(n as int),
        SpecSimpleExprToken::OpenBrace => "{"@,
        SpecSimpleExprToken::CloseBrace => "}"@,
        SpecSimpleExprToken::OpenParen => "("@,
        SpecSimpleExprToken::CloseParen => ")"@,
        SpecSimpleExprToken::BinopPlus => "+"@,
        SpecSimpleExprToken::BinopMinus => "-"@,
    }
}

/// The source text of a simple expression: the texts of its tokens, one
/// behind the other.
pub open spec fn html_expr_text(tokens: Seq<SpecSimpleExprToken>) -> Seq<char>
    decreases tokens.len(),
{
    if tokens.len() == 0 {
        Seq::empty()
    } else {
        html_expr_text(tokens.drop_last()) + html_token_text(tokens.last())
    }
}

/// The markup of one output action.
pub open spec fn html_action_text(action: SpecOutputAction) -> Seq<char> {
    match action {
        SpecOutputAction::Write(s) => s,
        SpecOutputAction::WriteResult(expr) => html_expr_text(expr),
        SpecOutputAction::WriteOpen(tag) => "<"@ + tag + ">"@,
        SpecOutputAction::WriteClose(tag) => "</"@ + tag + ">"@,
        SpecOutputAction::WriteVoid(tag) => "<"@ + tag + " />"@,
    }
}

/// The markup of a sequence of output actions, in order.
pub open spec fn html_actions_text(actions: Seq<SpecOutputAction>) -> Seq<char>
    decreases actions.len(),
{
    if actions.len() == 0 {
        Seq::empty()
    } else {
        html_actions_text(actions.drop_last()) + html_action_text(actions.last())
    }
}

/// Writes the source text of one token of a simple expression.
pub fn write_html_token<W: WriteText>(token: &SimpleExprToken, w: &mut W)
    ensures
        final(w).text() == old(w).text() + html_token_text(token@),
{
    match token {
        SimpleExprToken::VarReference(var_name) => {
            w.write_text(var_name.as_str());
        },
        SimpleExprToken::LitString(contents) => {
            w.write_text("\"");
            w.write_text(contents.as_str());
            w.write_text("\"");
            assert(w.text() =~= old(w).text() + ("\""@ + contents@ + "\""@));
        },
        SimpleExprToken::LitNumber(contents) => {
            match contents {
                SimpleExprNumber::Int64(n) => {
                    write_decimal(w, *n);
                },
                SimpleExprNumber::Int32(n) => {
                    write_decimal(w, *n as i64);
                },
            }
        },
        SimpleExprToken::OpenBrace => {
            w.write_text("{");
        },
        SimpleExprToken::CloseBrace => {
            w.write_text("}");
        },
        SimpleExprToken::OpenParen => {
            w.write_text("(");
        },
        SimpleExprToken::CloseParen => {
            w.write_text(")");
        },
        SimpleExprToken::BinopPlus => {
            w.write_text("+");
        },
        SimpleExprToken::BinopMinus => {
            w.write_text("-");
        },
    }
}

/// Writes the source text of a simple expression.
pub fn write_html_expr<W: WriteText>(expr: &SimpleExpr, w: &mut W)
    ensures
        final(w).text() == old(w).text() + html_expr_text(expr@),
{
    let n = expr.tokens.len();
    let mut i: usize = 0;
    assert(expr@.take(0) =~= Seq::empty());
    assert(w.text() =~= old(w).text() + html_expr_text(expr@.take(0)));
    while i < n
        invariant
            n == expr.tokens.len(),
            0 <= i <= n,
            w.text() == old(w).text() + html_expr_text(expr@.take(i as int)),
        decreases n - i,
    {
        write_html_token(&expr.tokens[i], w);
        proof {
            let upto = expr@.take(i as int + 1);
            assert(upto.drop_last() =~= expr@.take(i as int));
            assert(upto.last() == expr.tokens@[i as int]@);
            assert(w.text() =~= old(w).text() + html_expr_text(upto));
        }
        i = i + 1;
    }
    assert(expr@.take(n as int) =~= expr@);
}

/// Writes markup.
pub trait HtmlWrite: WriteText {
    /// Writes the markup of `output_action`.
    fn write_html(&mut self, output_action: &OutputAction)
        ensures
            final(self).text() == old(self).text() + html_action_text(output_action@),
    ;
}

impl<T: WriteText> HtmlWrite for T {
    fn write_html(&mut self, output_action: &OutputAction) {
        match output_action {
            OutputAction::Write(contents) => {
                self.write_text(contents.as_str());
            },
            OutputAction::WriteResult(template_expr) => {
                write_html_expr(template_expr, self);
            },
            OutputAction::WriteOpen(element_type) => {
                self.write_text("<");
                self.write_text(element_type.as_str());
                self.write_text(">");
                assert(self.text() =~= old(self).text() + ("<"@ + element_type@ + ">"@));
            },
            OutputAction::WriteClose(element_type) => {
                self.write_text("</");
                self.write_text(element_type.as_str());
                self.write_text(">");
                assert(self.text() =~= old(self).text() + ("</"@ + element_type@ + ">"@));
            },
            OutputAction::WriteVoid(element_type) => {
                self.write_text("<");
                self.write_text(element_type.as_str());
                self.write_text(" />");
                assert(self.text() =~= old(self).text() + ("<"@ + element_type@ + " />"@));
            },
        }
    }
}

/// Something that renders as markup.
pub trait WriteHtml {
    /// The markup.
    spec fn html_text(&self) -> Seq<char>;

    fn write_html<W: HtmlWrite>(&self, w: &mut W)
        ensures
            final(w).text() == old(w).text() + self.html_text(),
    ;
}

impl WriteHtml for SimpleExpr {
    open spec fn html_text(&self) -> Seq<char> {
        html_expr_text(self@)
    }

    fn write_html<W: HtmlWrite>(&self, w: &mut W) {
        write_html_expr(self, w);
    }
}

impl WriteHtml for Vec<OutputAction> {
    open spec fn html_text(&self) -> Seq<char> {
        html_actions_text(views(self@))
    }

    fn write_html<W: HtmlWrite>(&self, w: &mut W) {
        let n = self.len();
        let mut i: usize = 0;
        let ghost all = views(self@);
        assert(all.take(0) =~= Seq::empty());
        assert(w.text() =~= old(w).text() + html_actions_text(all.take(0)));
        while i < n
            invariant
                n == self.len(),
                all == views(self@),
                0 <= i <= n,
                w.text() == old(w).text() + html_actions_text(all.take(i as int)),
            decreases n - i,
        {
            w.write_html(&self[i]);
            proof {
                let upto = all.take(i as int + 1);
                assert(upto.drop_last() =~= all.take(i as int));
                assert(upto.last() == self@[i as int]@);
                assert(w.text() =~= old(w).text() + html_actions_text(upto));
            }
            i = i + 1;
        }
        assert(all.take(n as int) =~= all);
    }
}

impl<S: WriteOutputActions> WriteHtml for S {
    open spec fn html_text(&self) -> Seq<char> {
        html_actions_text(self.output_actions())
    }

    fn write_html<W: HtmlWrite>(&self, w: &mut W) {
        let mut output_actions: Vec<OutputAction> = Vec::new();
        self.write_output_actions(&mut output_actions);
        assert(views(output_actions@) =~= self.output_actions());
        output_actions.write_html(w);
    }
}

} // verus!
