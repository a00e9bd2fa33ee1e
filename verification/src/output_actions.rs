//! Output actions: the flat sequence of steps that renders a view, and the
//! lowering of content trees to it.

use vstd::prelude::*;
use vstd::std_specs::cmp::PartialEqSpecImpl;
use crate::nodes::content_node::{
    lemma_element_node_view, ContentNode, LitValue, SpecContentNode, SpecLitValue,
};
use crate::simple_expr::{SimpleExpr, SpecSimpleExprToken};
use crate::token::views;

verus! {

/// One step of rendering.
#[derive(Debug)]
pub enum OutputAction {
    /// Write the text as it stands.
    Write(String),
    /// Write the value that the expression has when the view is rendered.
    WriteResult(SimpleExpr),
    /// Open an element with this tag.
    WriteOpen(String),
    /// Close the element with this tag.
    WriteClose(String),
    /// Write an element with this tag that has no contents.
    WriteVoid(String),
}

/// The mathematical value of an [`OutputAction`].
pub enum SpecOutputAction {
    Write(Seq<char>),
    WriteResult(Seq<SpecSimpleExprToken>),
    WriteOpen(Seq<char>),
    WriteClose(Seq<char>),
    WriteVoid(Seq<char>),
}

impl View for OutputAction {
    type V = SpecOutputAction;

    open spec fn view(&self) -> SpecOutputAction {
        match self {
            OutputAction::Write(s) => SpecOutputAction::Write(s@),
            OutputAction::WriteResult(expr) => SpecOutputAction::WriteResult(expr@),
            OutputAction::WriteOpen(tag) => SpecOutputAction::WriteOpen(tag@),
            OutputAction::WriteClose(tag) => SpecOutputAction::WriteClose(tag@),
            OutputAction::WriteVoid(tag) => SpecOutputAction::WriteVoid(tag@),
        }
    }
}

impl Clone for OutputAction {
    fn clone(&self) -> (r: OutputAction)
        ensures
            r@ == self@,
    {
        match self {
            OutputAction::Write(s) => OutputAction::Write(s.clone()),
            OutputAction::WriteResult(expr) => OutputAction::WriteResult(expr.clone()),
            OutputAction::WriteOpen(tag) => OutputAction::WriteOpen(tag.clone()),
            OutputAction::WriteClose(tag) => OutputAction::WriteClose(tag.clone()),
            OutputAction::WriteVoid(tag) => OutputAction::WriteVoid(tag.clone()),
        }
    }
}

impl PartialEq for OutputAction {
    fn eq(&self, other: &OutputAction) -> (r: bool) {
        match self {
            OutputAction::Write(a) => match other {
                OutputAction::Write(b) => *a == *b,
                _ => false,
            },
            OutputAction::WriteResult(a) => match other {
                OutputAction::WriteResult(b) => *a == *b,
                _ => false,
            },
            OutputAction::WriteOpen(a) => match other {
                OutputAction::WriteOpen(b) => *a == *b,
                _ => false,
            },
            OutputAction::WriteClose(a) => match other {
                OutputAction::WriteClose(b) => *a == *b,
                _ => false,
            },
            OutputAction::WriteVoid(a) => match other {
                OutputAction::WriteVoid(b) => *a == *b,
                _ => false,
            },
        }
    }
}

impl PartialEqSpecImpl for OutputAction {
    open spec fn obeys_eq_spec() -> bool {
        true
    }

    open spec fn eq_spec(&self, other: &OutputAction) -> bool {
        self@ == other@
    }
}

/// The actions that render one node: a literal is written, an expression's
/// result is written, and an element's contents stand between the opening
/// and the closing of its tag.
pub open spec fn lower_node(node: SpecContentNode) -> Seq<SpecOutputAction>
    decreases node, 0nat,
{
    match node {
        SpecContentNode::LiteralNode(SpecLitValue::LitString(s)) => seq![SpecOutputAction::Write(s)],
        SpecContentNode::ExprNode(expr) => seq![SpecOutputAction::WriteResult(expr)],
        SpecContentNode::ElementNode(element) => seq![SpecOutputAction::WriteOpen(element.tag)]
            + lower_nodes(element.contents) + seq![SpecOutputAction::WriteClose(element.tag)],
    }
}

/// The actions that render `nodes`: those of each node, in document order.
pub open spec fn lower_nodes(nodes: Seq<SpecContentNode>) -> Seq<SpecOutputAction>
    decreases nodes, 1nat,
{
    if nodes.len() == 0 {
        Seq::empty()
    } else {
        lower_nodes(nodes.drop_last()) + lower_node(nodes.last())
    }
}

/// A sink for output actions.
pub trait OutputActionWrite {
    /// The actions written so far.
    spec fn actions(&self) -> Seq<SpecOutputAction>;

    fn write_output_action(&mut self, output_action: &OutputAction)
        ensures
            final(self).actions() == old(self).actions().push(output_action@),
    ;
}

impl OutputActionWrite for Vec<OutputAction> {
    open spec fn actions(&self) -> Seq<SpecOutputAction> {
        views(self@)
    }

    fn write_output_action(&mut self, output_action: &OutputAction) {
        self.push(output_action.clone());
        assert(views(self@) =~= views(old(self)@).push(output_action@));
    }
}

/// Something that renders as a sequence of output actions.
pub trait WriteOutputActions {
    /// The actions that render `self`.
    spec fn output_actions(&self) -> Seq<SpecOutputAction>;

    /// Writes the actions that render `self` to `w`, in order.
    fn write_output_actions<W: OutputActionWrite>(&self, w: &mut W)
        ensures
            final(w).actions() == old(w).actions() + self.output_actions(),
    ;
}

/// Something that can hand out the actions that render it.
pub trait IntoOutputActions: WriteOutputActions {
    /// The actions that render `self`, in order.
    fn into_output_actions(&self) -> (r: Vec<OutputAction>)
        ensures
            views(r@) == self.output_actions(),
    ;
}

/// Writes the actions that render `nodes` to `w`, in document order.
pub fn write_contents_actions<W: OutputActionWrite>(nodes: &Vec<ContentNode>, w: &mut W)
    ensures
        final(w).actions() == old(w).actions() + lower_nodes(views(nodes@)),
    decreases nodes,
{
    let n = nodes.len();
    let mut i: usize = 0;
    let ghost all = views(nodes@);
    assert(all.take(0) =~= Seq::empty());
    assert(w.actions() =~= old(w).actions() + lower_nodes(all.take(0)));
    while i < n
        invariant
            n == nodes.len(),
            all == views(nodes@),
            0 <= i <= n,
            w.actions() == old(w).actions() + lower_nodes(all.take(i as int)),
        decreases n - i,
    {
        let ghost before = w.actions();
        match &nodes[i] {
            ContentNode::ElementNode(element) => {
                w.write_output_action(&OutputAction::WriteOpen(element.tag.clone()));
                write_contents_actions(&element.contents, w);
                w.write_output_action(&OutputAction::WriteClose(element.tag.clone()));
                proof {
                    lemma_element_node_view(*element);
                }
            },
            ContentNode::ExprNode(simple_expr) => {
                w.write_output_action(&OutputAction::WriteResult(simple_expr.clone()));
            },
            ContentNode::LiteralNode(LitValue::LitString(contents)) => {
                w.write_output_action(&OutputAction::Write(contents.clone()));
            },
        }
        proof {
            assert(all.take(i as int + 1).drop_last() =~= all.take(i as int));
            assert(all.take(i as int + 1).last() == nodes@[i as int]@);
            assert(w.actions() =~= before + lower_node(nodes@[i as int]@));
            assert(w.actions() =~= old(w).actions() + lower_nodes(all.take(i as int + 1)));
        }
        i = i + 1;
    }
    assert(all.take(n as int) =~= all);
}

impl WriteOutputActions for LitValue {
    open spec fn output_actions(&self) -> Seq<SpecOutputAction> {
        lower_node(SpecContentNode::LiteralNode(self@))
    }

    fn write_output_actions<W: OutputActionWrite>(&self, w: &mut W) {
        match self {
            LitValue::LitString(contents) => {
                w.write_output_action(&OutputAction::Write(contents.clone()));
            },
        }
        assert(w.actions() =~= old(w).actions() + self.output_actions());
    }
}

impl IntoOutputActions for LitValue {
    fn into_output_actions(&self) -> (r: Vec<OutputAction>) {
        let mut actions: Vec<OutputAction> = Vec::new();
        self.write_output_actions(&mut actions);
        assert(views(actions@) =~= self.output_actions());
        actions
    }
}

impl WriteOutputActions for ContentNode {
    open spec fn output_actions(&self) -> Seq<SpecOutputAction> {
        lower_node(self@)
    }

    fn write_output_actions<W: OutputActionWrite>(&self, w: &mut W) {
        match self {
            ContentNode::ElementNode(element) => {
                proof {
                    lemma_element_node_view(*element);
                }
                element.write_output_actions(w);
            },
            ContentNode::LiteralNode(lit) => {
                lit.write_output_actions(w);
            },
            ContentNode::ExprNode(simple_expr) => {
                w.write_output_action(&OutputAction::WriteResult(simple_expr.clone()));
                assert(w.actions() =~= old(w).actions() + self.output_actions());
            },
        }
    }
}

impl IntoOutputActions for ContentNode {
    fn into_output_actions(&self) -> (r: Vec<OutputAction>) {
        let mut actions: Vec<OutputAction> = Vec::new();
        self.write_output_actions(&mut actions);
        assert(views(actions@) =~= self.output_actions());
        actions
    }
}

} // verus!
