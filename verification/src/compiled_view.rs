//! Compiled views: a view reduced to its name and its output actions.

use vstd::prelude::*;
use vstd::std_specs::cmp::PartialEqSpecImpl;
use vstd::string::StringExecFns;
use crate::common_write::{concat_text, join_text};
use crate::js_write::{
    arg_texts, js_action_text, js_actions_text, js_function_text, JsWriteFunctions,
};
use crate::jsgen::{IntoJsFunction, IntoJsOutputCall};
use crate::nodes::view_node::{js_view_text, render_view_name, TemplateView};
use crate::output_actions::{
    lower_nodes, IntoOutputActions, OutputAction, OutputActionWrite, SpecOutputAction,
    WriteOutputActions,
};
use crate::token::views;

verus! {

/// A view that was lowered: its name and the actions that render it.
#[derive(Debug)]
pub struct CompiledView {
    pub name: String,
    pub output_actions: Vec<OutputAction>,
}

/// The mathematical value of a [`CompiledView`].
pub struct SpecCompiledView {
    pub name: Seq<char>,
    pub output_actions: Seq<SpecOutputAction>,
}

impl View for CompiledView {
    type V = SpecCompiledView;

    open spec fn view(&self) -> SpecCompiledView {
        SpecCompiledView { name: self.name@, output_actions: views(self.output_actions@) }
    }
}

impl CompiledView {
    /// The compiled view named `name` that is rendered by `output_actions`.
    pub fn from_output_actions(name: String, output_actions: Vec<OutputAction>) -> (r:
        CompiledView)
        ensures
            r@ == (SpecCompiledView { name: name@, output_actions: views(output_actions@) }),
    {
        CompiledView { name, output_actions }
    }

    /// The compiled form of `view`.
    pub fn from_view(view: &TemplateView) -> (r: CompiledView)
        ensures
            r@ == (SpecCompiledView {
                name: view@.name,
                output_actions: lower_nodes(view@.contents),
            }),
    {
        CompiledView { name: view.name.clone(), output_actions: view.into_output_actions() }
    }

    /// The name of the view.
    pub fn name(&self) -> (r: &str)
        ensures
            r@ == self@.name,
    {
        self.name.as_str()
    }

    /// The actions that render the view, in order.
    pub fn output_actions(&self) -> (r: &[OutputAction])
        ensures
            views(r@) == self@.output_actions,
    {
        self.output_actions.as_slice()
    }
}

impl Clone for CompiledView {
    fn clone(&self) -> (r: CompiledView)
        ensures
            r@ == self@,
    {
        let mut output_actions: Vec<OutputAction> = Vec::new();
        let n = self.output_actions.len();
        let mut i: usize = 0;
        while i < n
            invariant
                n == self.output_actions.len(),
                0 <= i <= n,
                output_actions@.len() == i,
                forall|j: int| 0 <= j < i ==> output_actions@[j]@ == self.output_actions@[j]@,
            decreases n - i,
        {
            output_actions.push(self.output_actions[i].clone());
            i = i + 1;
        }
        assert(views(output_actions@) =~= views(self.output_actions@));
        CompiledView { name: self.name.clone(), output_actions }
    }
}

impl PartialEq for CompiledView {
    fn eq(&self, other: &CompiledView) -> (r: bool) {
        let n = self.output_actions.len();
        if !(self.name == other.name) || n != other.output_actions.len() {
            assert(self@.name != other@.name || self@.output_actions.len()
                != other@.output_actions.len());
            return false;
        }
        let mut i: usize = 0;
        while i < n
            invariant
                n == self.output_actions.len(),
                n == other.output_actions.len(),
                0 <= i <= n,
                forall|j: int|
                    0 <= j < i ==> self.output_actions@[j]@ == other.output_actions@[j]@,
            decreases n - i,
        {
            if !(self.output_actions[i] == other.output_actions[i]) {
                assert(self@.output_actions[i as int] != other@.output_actions[i as int]);
                return false;
            }
            i = i + 1;
        }
        assert(self@.output_actions =~= other@.output_actions);
        true
    }
}

impl PartialEqSpecImpl for CompiledView {
    open spec fn obeys_eq_spec() -> bool {
        true
    }

    open spec fn eq_spec(&self, other: &CompiledView) -> bool {
        self@ == other@
    }
}

impl WriteOutputActions for CompiledView {
    open spec fn output_actions(&self) -> Seq<SpecOutputAction> {
        self@.output_actions
    }

    fn write_output_actions<W: OutputActionWrite>(&self, w: &mut W) {
        let n = self.output_actions.len();
        let mut i: usize = 0;
        let ghost all = self@.output_actions;
        assert(w.actions() =~= old(w).actions() + all.take(0));
        while i < n
            invariant
                n == self.output_actions.len(),
                all == self@.output_actions,
                0 <= i <= n,
                w.actions() == old(w).actions() + all.take(i as int),
            decreases n - i,
        {
            w.write_output_action(&self.output_actions[i]);
            assert(w.actions() =~= old(w).actions() + all.take(i as int + 1));
            i = i + 1;
        }
        assert(all.take(n as int) =~= all);
    }
}

/// `items` with `separator` put between every two of them.
pub open spec fn interspersed(items: Seq<Seq<char>>, separator: Seq<char>) -> Seq<Seq<char>> {
    Seq::new(
        if items.len() == 0 {
            0
        } else {
            (2 * items.len() - 1) as nat
        },
        |i: int|
            if i % 2 == 0 {
                items[i / 2]
            } else {
                separator
            },
    )
}

/// `itertools::intersperse`, collected into a vector: the items of `items`
/// in order, with a copy of `separator` between every two of them.
#[verifier::external_body]
fn intersperse_strings(items: Vec<String>, separator: &str) -> (r: Vec<String>)
    ensures
        views(r@) == interspersed(views(items@), separator@),
{
    itertools::intersperse(items, separator.to_owned()).collect()
}

/// Texts that were interspersed with a separator and then put one behind the
/// other are the texts joined by the separator.
pub proof fn lemma_concat_interspersed(items: Seq<Seq<char>>, separator: Seq<char>)
    ensures
        concat_text(interspersed(items, separator)) == join_text(items, separator),
    decreases items.len(),
{
    let all = interspersed(items, separator);
    if items.len() == 0 {
    } else if items.len() == 1 {
        assert(all.drop_last() =~= Seq::<Seq<char>>::empty());
        assert(concat_text(all.drop_last()) =~= Seq::<char>::empty());
        assert(all.last() == items[0]);
        assert(concat_text(all) =~= items[0]);
    } else {
        let front = items.drop_last();
        lemma_concat_interspersed(front, separator);
        assert(all.last() == items.last());
        assert(all.drop_last().last() == separator);
        assert(all.drop_last().drop_last() =~= interspersed(front, separator)) by {
            let a = all.drop_last().drop_last();
            let b = interspersed(front, separator);
            assert(a.len() == b.len());
            assert forall|i: int| 0 <= i < a.len() implies a[i] == b[i] by {
                if i % 2 == 0 {
                    assert(front[i / 2] == items[i / 2]);
                }
            }
        }
        let inner = all.drop_last();
        assert(concat_text(all) == concat_text(inner) + all.last());
        assert(concat_text(inner) == concat_text(inner.drop_last()) + inner.last());
        assert(join_text(items, separator) == join_text(front, separator) + separator
            + items.last());
    }
}

/// The statements of `actions`.
pub open spec fn js_action_texts(actions: Seq<SpecOutputAction>) -> Seq<Seq<char>> {
    Seq::new(actions.len(), |i: int| js_action_text(actions[i]))
}

/// The statements of a sequence of actions are the statements of each
/// action, joined by one space.
pub proof fn lemma_js_actions_text_is_join(actions: Seq<SpecOutputAction>)
    ensures
        js_actions_text(actions) == join_text(js_action_texts(actions), " "@),
    decreases actions.len(),
{
    if actions.len() == 1 {
        assert(js_action_texts(actions)[0] == js_action_text(actions[0]));
    } else if actions.len() > 1 {
        lemma_js_actions_text_is_join(actions.drop_last());
        assert(js_action_texts(actions).drop_last() =~= js_action_texts(actions.drop_last()));
        assert(js_action_texts(actions).last() == js_action_text(actions.last()));
    }
}

impl IntoJsFunction for CompiledView {
    /// The function that renders the view: as [`js_view_text`] says of the
    /// view that was compiled.
    open spec fn js_function_source(&self) -> Seq<char> {
        js_function_text(
            render_view_name(self@.name),
            seq!["data"@],
            js_actions_text(self@.output_actions),
        )
    }

    fn into_js_function(&self) -> (r: String) {
        let mut js_stmts: Vec<String> = Vec::new();
        let n = self.output_actions.len();
        let ghost actions = self@.output_actions;
        let mut i: usize = 0;
        while i < n
            invariant
                n == self.output_actions.len(),
                actions == self@.output_actions,
                0 <= i <= n,
                js_stmts@.len() == i,
                forall|j: int| 0 <= j < i ==> js_stmts@[j]@ == js_action_text(actions[j]),
            decreases n - i,
        {
            js_stmts.push(self.output_actions[i].into_js_output_call());
            i = i + 1;
        }
        assert(views(js_stmts@) =~= js_action_texts(actions));
        let pieces = intersperse_strings(js_stmts, " ");
        let mut js_body = String::new();
        let m = pieces.len();
        let mut k: usize = 0;
        let ghost texts = views(pieces@);
        assert(texts.take(0) =~= Seq::empty());
        while k < m
            invariant
                m == pieces.len(),
                texts == views(pieces@),
                0 <= k <= m,
                js_body@ == concat_text(texts.take(k as int)),
            decreases m - k,
        {
            js_body.append(pieces[k].as_str());
            proof {
                let upto = texts.take(k as int + 1);
                assert(upto.drop_last() =~= texts.take(k as int));
                assert(upto.last() == pieces@[k as int]@);
            }
            k = k + 1;
        }
        proof {
            assert(texts.take(m as int) =~= texts);
            lemma_concat_interspersed(js_action_texts(actions), " "@);
            lemma_js_actions_text_is_join(actions);
        }
        let mut func_name = String::from_str("render_view_");
        func_name.append(self.name.as_str());
        let args: Vec<&str> = vec!["data"];
        assert(arg_texts(args@) =~= seq!["data"@]);
        let mut js = String::new();
        js.function(func_name.as_str(), args, js_body.as_str());
        assert(js@ =~= self.js_function_source());
        js
    }
}

impl IntoJsFunction for TemplateView {
    open spec fn js_function_source(&self) -> Seq<char> {
        js_view_text(self@)
    }

    fn into_js_function(&self) -> (r: String) {
        CompiledView::from_view(self).into_js_function()
    }
}

} // verus!
