//! What code generation shares: the target languages, outputs under the
//! names they are known by, and sinks for strings of output.

use std::marker::PhantomData;
use vstd::prelude::*;
use vstd::std_specs::cmp::PartialEqSpecImpl;
use vstd::string::StringExecFns;
use crate::common_write::{concat_text, lemma_concat_text_add, lemma_concat_text_one};
use crate::html_write::{
    html_action_text, html_actions_text, html_expr_text, html_token_text, write_html_expr,
    write_html_token, HtmlWrite,
};
use crate::js_write::WriteJsFunctions;
use crate::output_actions::{OutputAction, SpecOutputAction, WriteOutputActions};
use crate::simple_expr::{SimpleExpr, SpecSimpleExprToken};
use crate::token::views;

verus! {

/// The markup language.
#[derive(Clone, Copy, Debug, PartialEq, Eq, Structural)]
pub enum Html {
    Html,
}

/// JavaScript.
#[derive(Clone, Copy, Debug, PartialEq, Eq, Structural)]
pub enum Js {
    Js,
}

/// The language of the program that holds the rendered views.
#[derive(Clone, Copy, Debug, PartialEq, Eq, Structural)]
pub enum Rust {
    Rust,
}

/// A target language of code generation.
pub trait Lang {
    /// The name of the language in the names of generated items.
    spec fn ext_text() -> Seq<char>;

    /// The name of the language in the names of generated items.
    fn ext() -> (r: &'static str)
        ensures
            r@ == Self::ext_text(),
    ;
}

impl Lang for Html {
    open spec fn ext_text() -> Seq<char> {
        "html"@
    }

    fn ext() -> (r: &'static str) {
        "html"
    }
}

impl Lang for Js {
    open spec fn ext_text() -> Seq<char> {
        "js"@
    }

    fn ext() -> (r: &'static str) {
        "js"
    }
}

impl Lang for Rust {
    open spec fn ext_text() -> Seq<char> {
        "rust"@
    }

    fn ext() -> (r: &'static str) {
        "rust"
    }
}

/// An output in the language `L` under the name it is known by.
#[derive(Debug)]
pub struct NamedOutputExt<L: Lang, D> {
    pub name: String,
    pub data: D,
    pub _l: PhantomData<L>,
}

impl<L: Lang, D> NamedOutputExt<L, D> {
    /// The name of the output.
    pub fn name(&self) -> (r: &str)
        ensures
            r@ == self.name@,
    {
        self.name.as_str()
    }

    /// What the output holds.
    pub fn data(&self) -> (r: &D)
        ensures
            *r == self.data,
    {
        &self.data
    }

    /// The output named `name` that holds `data`.
    pub fn create_named_output(name: &str, data: D) -> (r: NamedOutputExt<L, D>)
        ensures
            r.name@ == name@,
            r.data == data,
    {
        NamedOutputExt { name: name.to_owned(), data, _l: PhantomData }
    }
}

/// A sink for outputs under their names.
pub trait NamedOutputWrite<D> {
    /// The names and contents written so far.
    spec fn named_outputs(&self) -> Seq<(Seq<char>, D)>;

    fn write_named_output(&mut self, name: &str, data: D)
        ensures
            final(self).named_outputs() == old(self).named_outputs().push((name@, data)),
    ;
}

impl<L: Lang, D> NamedOutputWrite<D> for Vec<NamedOutputExt<L, D>> {
    open spec fn named_outputs(&self) -> Seq<(Seq<char>, D)> {
        Seq::new(self@.len(), |i: int| (self@[i].name@, self@[i].data))
    }

    fn write_named_output(&mut self, name: &str, data: D) {
        let ext = NamedOutputExt::<L, D>::create_named_output(name, data);
        self.push(ext);
        assert(self.named_outputs() =~= old(self).named_outputs().push((name@, data)));
    }
}

/// A sink for strings of output in the language `L`.
pub trait OutputStringWrite<L: Lang>: Sized {
    /// Whether `self` is `before` with the strings `pieces` written to it,
    /// one after the other.
    spec fn wrote(&self, before: &Self, pieces: Seq<Seq<char>>) -> bool;

    /// A sink is itself with nothing written to it.
    proof fn lemma_wrote_nothing(&self)
        ensures
            self.wrote(self, Seq::empty()),
    ;

    /// What was written in two steps was written one after the other.
    proof fn lemma_wrote_more(
        &self,
        before: &Self,
        between: &Self,
        first: Seq<Seq<char>>,
        then: Seq<Seq<char>>,
    )
        requires
            between.wrote(before, first),
            self.wrote(between, then),
        ensures
            self.wrote(before, first + then),
    ;

    /// Writes `contents` as one string.
    fn write_output_string(&mut self, contents: &str)
        ensures
            final(self).wrote(old(self), seq![contents@]),
    ;
}

impl<L: Lang> OutputStringWrite<L> for Vec<String> {
    /// Each string is an item of its own, behind the items before.
    open spec fn wrote(&self, before: &Self, pieces: Seq<Seq<char>>) -> bool {
        views(self@) == views(before@) + pieces
    }

    proof fn lemma_wrote_nothing(&self) {
        assert(views(self@) =~= views(self@) + Seq::<Seq<char>>::empty());
    }

    proof fn lemma_wrote_more(
        &self,
        before: &Self,
        between: &Self,
        first: Seq<Seq<char>>,
        then: Seq<Seq<char>>,
    ) {
        assert(views(self@) =~= views(before@) + (first + then));
    }

    fn write_output_string(&mut self, contents: &str) {
        self.push(contents.to_owned());
        assert(views(self@) =~= views(old(self)@) + seq![contents@]);
    }
}

impl<L: Lang> OutputStringWrite<L> for String {
    /// The strings are appended to the text, one behind the other.
    open spec fn wrote(&self, before: &Self, pieces: Seq<Seq<char>>) -> bool {
        self@ == before@ + concat_text(pieces)
    }

    proof fn lemma_wrote_nothing(&self) {
        assert(self@ =~= self@ + concat_text(Seq::<Seq<char>>::empty()));
    }

    proof fn lemma_wrote_more(
        &self,
        before: &Self,
        between: &Self,
        first: Seq<Seq<char>>,
        then: Seq<Seq<char>>,
    ) {
        lemma_concat_text_add(first, then);
        assert(self@ =~= before@ + concat_text(first + then));
    }

    fn write_output_string(&mut self, contents: &str) {
        self.append(contents);
        proof {
            lemma_concat_text_one(contents@);
        }
    }
}

/// The source texts of the tokens of a simple expression, one for each
/// token.
pub open spec fn html_token_texts(tokens: Seq<SpecSimpleExprToken>) -> Seq<Seq<char>> {
    Seq::new(tokens.len(), |i: int| html_token_text(tokens[i]))
}

/// The strings that render one output action as markup: one string for the
/// action, or, where it writes the result of an expression, one for each
/// token of the expression.
pub open spec fn html_action_strings(action: SpecOutputAction) -> Seq<Seq<char>> {
    match action {
        SpecOutputAction::WriteResult(expr) => html_token_texts(expr),
        _ => seq![html_action_text(action)],
    }
}

/// The strings that render a sequence of output actions as markup: those
/// of each action, in order.
pub open spec fn html_actions_strings(actions: Seq<SpecOutputAction>) -> Seq<Seq<char>>
    decreases actions.len(),
{
    if actions.len() == 0 {
        Seq::empty()
    } else {
        html_actions_strings(actions.drop_last()) + html_action_strings(actions.last())
    }
}

/// The strings of the tokens of an expression, one behind the other, are
/// the source text of the expression.
pub proof fn lemma_html_token_texts_concat(tokens: Seq<SpecSimpleExprToken>)
    ensures
        concat_text(html_token_texts(tokens)) == html_expr_text(tokens),
    decreases tokens.len(),
{
    if tokens.len() > 0 {
        lemma_html_token_texts_concat(tokens.drop_last());
        assert(html_token_texts(tokens).drop_last() =~= html_token_texts(tokens.drop_last()));
        assert(html_token_texts(tokens).last() == html_token_text(tokens.last()));
    }
}

/// The strings of a sequence of output actions, one behind the other, are
/// the markup of the actions.
pub proof fn lemma_html_actions_strings_concat(actions: Seq<SpecOutputAction>)
    ensures
        concat_text(html_actions_strings(actions)) == html_actions_text(actions),
    decreases actions.len(),
{
    if actions.len() > 0 {
        lemma_html_actions_strings_concat(actions.drop_last());
        lemma_concat_text_add(
            html_actions_strings(actions.drop_last()),
            html_action_strings(actions.last()),
        );
        match actions.last() {
            SpecOutputAction::WriteResult(expr) => {
                lemma_html_token_texts_concat(expr);
            },
            _ => {
                lemma_concat_text_one(html_action_text(actions.last()));
            },
        }
    }
}

/// Something that renders as strings in the language `L`.
pub trait WriteOutputStrings<L: Lang> {
    /// The strings that are written, in order.
    spec fn output_strings(&self) -> Seq<Seq<char>>;

    /// Writes the strings to `w`, each as a string of its own.
    fn write_output_strings<W: OutputStringWrite<L>>(&self, w: &mut W)
        ensures
            final(w).wrote(old(w), self.output_strings()),
    ;
}

impl WriteOutputStrings<Html> for SimpleExpr {
    /// One string for each token.
    open spec fn output_strings(&self) -> Seq<Seq<char>> {
        html_token_texts(self@)
    }

    fn write_output_strings<W: OutputStringWrite<Html>>(&self, w: &mut W) {
        let n = self.tokens.len();
        let mut i: usize = 0;
        let ghost start = *w;
        let ghost pieces = html_token_texts(self@);
        proof {
            w.lemma_wrote_nothing();
            assert(pieces.take(0) =~= Seq::empty());
        }
        while i < n
            invariant
                n == self.tokens.len(),
                0 <= i <= n,
                start == *old(w),
                pieces == html_token_texts(self@),
                w.wrote(&start, pieces.take(i as int)),
            decreases n - i,
        {
            let ghost between = *w;
            let mut s = String::new();
            write_html_token(&self.tokens[i], &mut s);
            assert(s@ =~= html_token_text(self.tokens@[i as int]@));
            w.write_output_string(s.as_str());
            proof {
                w.lemma_wrote_more(&start, &between, pieces.take(i as int), seq![s@]);
                assert(pieces.take(i as int) + seq![s@] =~= pieces.take(i as int + 1));
            }
            i = i + 1;
        }
        assert(pieces.take(n as int) =~= pieces);
    }
}

impl WriteOutputStrings<Html> for OutputAction {
    /// One string for the action, or, where it writes the result of an
    /// expression, one for each token of the expression.
    open spec fn output_strings(&self) -> Seq<Seq<char>> {
        html_action_strings(self@)
    }

    fn write_output_strings<W: OutputStringWrite<Html>>(&self, w: &mut W) {
        match self {
            OutputAction::WriteResult(simple_expr) => {
                simple_expr.write_output_strings(w);
            },
            _ => {
                let mut s = String::new();
                s.write_html(self);
                assert(s@ =~= html_action_text(self@));
                w.write_output_string(s.as_str());
            },
        }
    }
}

impl<S: WriteOutputActions> WriteOutputStrings<Html> for S {
    /// The strings of each output action, in order.
    open spec fn output_strings(&self) -> Seq<Seq<char>> {
        html_actions_strings(self.output_actions())
    }

    fn write_output_strings<W: OutputStringWrite<Html>>(&self, w: &mut W) {
        let mut output_actions: Vec<OutputAction> = Vec::new();
        self.write_output_actions(&mut output_actions);
        let ghost all = views(output_actions@);
        assert(all =~= self.output_actions());
        let n = output_actions.len();
        let mut i: usize = 0;
        let ghost start = *w;
        proof {
            w.lemma_wrote_nothing();
            assert(all.take(0) =~= Seq::empty());
        }
        while i < n
            invariant
                n == output_actions.len(),
                all == views(output_actions@),
                0 <= i <= n,
                start == *old(w),
                w.wrote(&start, html_actions_strings(all.take(i as int))),
            decreases n - i,
        {
            let ghost between = *w;
            output_actions[i].write_output_strings(w);
            proof {
                let upto = all.take(i as int + 1);
                assert(upto.drop_last() =~= all.take(i as int));
                assert(upto.last() == output_actions@[i as int]@);
                w.lemma_wrote_more(
                    &start,
                    &between,
                    html_actions_strings(all.take(i as int)),
                    html_action_strings(output_actions@[i as int]@),
                );
            }
            i = i + 1;
        }
        assert(all.take(n as int) =~= all);
    }
}

impl<S: WriteJsFunctions> WriteOutputStrings<Js> for S {
    /// The functions, as one string.
    open spec fn output_strings(&self) -> Seq<Seq<char>> {
        seq![self.js_functions_text()]
    }

    fn write_output_strings<W: OutputStringWrite<Js>>(&self, w: &mut W) {
        let mut out = String::new();
        self.write_js_functions(&mut out);
        assert(out@ =~= self.js_functions_text());
        w.write_output_string(out.as_str());
    }
}

/// One statement of the body of a function that renders an output.
#[derive(Debug)]
pub enum OutputStmt {
    /// Write this text.
    WriteLiteral(String),
    /// Evaluate the expression with this source text, and write its value.
    WriteExpr(String),
}

/// The mathematical value of an [`OutputStmt`].
pub enum SpecOutputStmt {
    WriteLiteral(Seq<char>),
    WriteExpr(Seq<char>),
}

impl View for OutputStmt {
    type V = SpecOutputStmt;

    open spec fn view(&self) -> SpecOutputStmt {
        match self {
            OutputStmt::WriteLiteral(text) => SpecOutputStmt::WriteLiteral(text@),
            OutputStmt::WriteExpr(source) => SpecOutputStmt::WriteExpr(source@),
        }
    }
}

impl Clone for OutputStmt {
    fn clone(&self) -> (r: OutputStmt)
        ensures
            r@ == self@,
    {
        match self {
            OutputStmt::WriteLiteral(text) => OutputStmt::WriteLiteral(text.clone()),
            OutputStmt::WriteExpr(source) => OutputStmt::WriteExpr(source.clone()),
        }
    }
}

impl PartialEq for OutputStmt {
    fn eq(&self, other: &OutputStmt) -> (r: bool) {
        match self {
            OutputStmt::WriteLiteral(a) => match other {
                OutputStmt::WriteLiteral(b) => *a == *b,
                _ => false,
            },
            OutputStmt::WriteExpr(a) => match other {
                OutputStmt::WriteExpr(b) => *a == *b,
                _ => false,
            },
        }
    }
}

impl PartialEqSpecImpl for OutputStmt {
    open spec fn obeys_eq_spec() -> bool {
        true
    }

    open spec fn eq_spec(&self, other: &OutputStmt) -> bool {
        self@ == other@
    }
}

/// `stmts` followed by what renders `action` as markup. An expression gets
/// a statement of its own. Any other action is text, which is added to the
/// text of the last statement where that one writes text too.
pub open spec fn html_stmts_with(
    stmts: Seq<SpecOutputStmt>,
    action: SpecOutputAction,
) -> Seq<SpecOutputStmt> {
    match action {
        SpecOutputAction::WriteResult(expr) => stmts.push(
            SpecOutputStmt::WriteExpr(html_expr_text(expr)),
        ),
        _ => if stmts.len() > 0 && stmts.last() is WriteLiteral {
            stmts.drop_last().push(
                SpecOutputStmt::WriteLiteral(
                    stmts.last()->WriteLiteral_0 + html_action_text(action),
                ),
            )
        } else {
            stmts.push(SpecOutputStmt::WriteLiteral(html_action_text(action)))
        },
    }
}

/// The statements that render `actions` as markup: runs of text, and
/// between them the expressions whose values are written.
pub open spec fn html_stmts(actions: Seq<SpecOutputAction>) -> Seq<SpecOutputStmt>
    decreases actions.len(),
{
    if actions.len() == 0 {
        Seq::empty()
    } else {
        html_stmts_with(html_stmts(actions.drop_last()), actions.last())
    }
}

/// What `stmts` write if each expression is written as its source text.
pub open spec fn stmts_text(stmts: Seq<SpecOutputStmt>) -> Seq<char>
    decreases stmts.len(),
{
    if stmts.len() == 0 {
        Seq::empty()
    } else {
        stmts_text(stmts.drop_last()) + match stmts.last() {
            SpecOutputStmt::WriteLiteral(text) => text,
            SpecOutputStmt::WriteExpr(source) => source,
        }
    }
}

/// Whether no statement of `stmts` that writes text is followed by another
/// one that does.
pub open spec fn literals_merged(stmts: Seq<SpecOutputStmt>) -> bool {
    forall|i: int|
        0 <= i < stmts.len() - 1 ==> !(#[trigger] stmts[i] is WriteLiteral && stmts[i
            + 1] is WriteLiteral)
}

/// The statements that render a sequence of actions write the markup of the
/// actions, and no two statements in a row write text.
pub proof fn lemma_html_stmts_write_the_markup(actions: Seq<SpecOutputAction>)
    ensures
        stmts_text(html_stmts(actions)) == html_actions_text(actions),
        literals_merged(html_stmts(actions)),
    decreases actions.len(),
{
    if actions.len() > 0 {
        lemma_html_stmts_write_the_markup(actions.drop_last());
        let before = html_stmts(actions.drop_last());
        let after = html_stmts(actions);
        match actions.last() {
            SpecOutputAction::WriteResult(expr) => {
                assert(after.drop_last() =~= before);
                assert forall|i: int| 0 <= i < after.len() - 1 implies !(#[trigger] after[i] is WriteLiteral
                    && after[i + 1] is WriteLiteral) by {
                    if i + 1 < before.len() {
                        assert(after[i] == before[i]);
                        assert(after[i + 1] == before[i + 1]);
                    }
                }
            },
            _ => {
                if before.len() > 0 && before.last() is WriteLiteral {
                    assert(after.drop_last() =~= before.drop_last());
                    assert(stmts_text(after) =~= stmts_text(before) + html_action_text(
                        actions.last(),
                    ));
                    assert forall|i: int| 0 <= i < after.len() - 1 implies !(#[trigger] after[i] is WriteLiteral
                        && after[i + 1] is WriteLiteral) by {
                        assert(after[i] == before[i]);
                        if i + 1 < before.len() - 1 {
                            assert(after[i + 1] == before[i + 1]);
                        }
                    }
                } else {
                    assert(after.drop_last() =~= before);
                    assert forall|i: int| 0 <= i < after.len() - 1 implies !(#[trigger] after[i] is WriteLiteral
                        && after[i + 1] is WriteLiteral) by {
                        assert(after[i] == before[i]);
                        if i + 1 < before.len() {
                            assert(after[i + 1] == before[i + 1]);
                        }
                    }
                }
            },
        }
    }
}

/// Something that renders in the language `L` as the body of a function.
pub trait IntoOutputBlock<L: Lang> {
    /// The statements of the body.
    spec fn output_block(&self) -> Seq<SpecOutputStmt>;

    fn into_output_block(&self) -> (r: Vec<OutputStmt>)
        ensures
            views(r@) == self.output_block(),
    ;
}

impl<S: WriteOutputActions> IntoOutputBlock<Html> for S {
    open spec fn output_block(&self) -> Seq<SpecOutputStmt> {
        html_stmts(self.output_actions())
    }

    fn into_output_block(&self) -> (r: Vec<OutputStmt>) {
        let mut output_actions: Vec<OutputAction> = Vec::new();
        self.write_output_actions(&mut output_actions);
        let ghost all = views(output_actions@);
        assert(all =~= self.output_actions());
        let mut out: Vec<OutputStmt> = Vec::new();
        let n = output_actions.len();
        let mut i: usize = 0;
        assert(all.take(0) =~= Seq::empty());
        assert(views(out@) =~= html_stmts(all.take(0)));
        while i < n
            invariant
                n == output_actions.len(),
                all == views(output_actions@),
                0 <= i <= n,
                views(out@) == html_stmts(all.take(i as int)),
            decreases n - i,
        {
            let ghost before = views(out@);
            match &output_actions[i] {
                OutputAction::WriteResult(simple_expr) => {
                    let mut source = String::new();
                    write_html_expr(simple_expr, &mut source);
                    assert(source@ =~= html_expr_text(simple_expr@));
                    out.push(OutputStmt::WriteExpr(source));
                    assert(views(out@) =~= before.push(
                        SpecOutputStmt::WriteExpr(html_expr_text(simple_expr@)),
                    ));
                },
                action => {
                    let mut text = String::new();
                    let merge = out.len() > 0 && match &out[out.len() - 1] {
                        OutputStmt::WriteLiteral(_) => true,
                        OutputStmt::WriteExpr(_) => false,
                    };
                    if merge {
                        match out.pop() {
                            Some(OutputStmt::WriteLiteral(last)) => {
                                text = last;
                            },
                            _ => {},
                        }
                    }
                    let ghost kept = views(out@);
                    let ghost start = text@;
                    text.write_html(action);
                    out.push(OutputStmt::WriteLiteral(text));
                    proof {
                        assert(text@ =~= start + html_action_text(action@));
                        if merge {
                            assert(kept =~= before.drop_last());
                            assert(before.last() == SpecOutputStmt::WriteLiteral(start));
                        } else {
                            assert(kept =~= before);
                            assert(start =~= Seq::<char>::empty());
                            assert(text@ =~= html_action_text(action@));
                        }
                        assert(views(out@) =~= kept.push(SpecOutputStmt::WriteLiteral(text@)));
                    }
                },
            }
            proof {
                let upto = all.take(i as int + 1);
                assert(upto.drop_last() =~= all.take(i as int));
                assert(upto.last() == output_actions@[i as int]@);
                assert(views(out@) =~= html_stmts(upto));
            }
            i = i + 1;
        }
        assert(all.take(n as int) =~= all);
        out
    }
}

impl<S: WriteJsFunctions> IntoOutputBlock<Js> for S {
    /// One statement that writes the functions.
    open spec fn output_block(&self) -> Seq<SpecOutputStmt> {
        seq![SpecOutputStmt::WriteLiteral(self.js_functions_text())]
    }

    fn into_output_block(&self) -> (r: Vec<OutputStmt>) {
        let mut text = String::new();
        self.write_js_functions(&mut text);
        assert(text@ =~= self.js_functions_text());
        let mut out: Vec<OutputStmt> = Vec::new();
        out.push(OutputStmt::WriteLiteral(text));
        assert(views(out@) =~= seq![SpecOutputStmt::WriteLiteral(self.js_functions_text())]);
        out
    }
}

} // verus!
