//! What holds of every lowering: the actions keep the order of the source,
//! and opening and closing actions are nested as the elements are.

use vstd::prelude::*;
use crate::nodes::content_node::{
    classify_expr, lemma_lit_string_iff_all_literals, spec_lit_string, SpecContentNode,
    SpecElement, SpecLitValue,
};
use crate::nodes::view_node::SpecTemplateView;
use crate::output_actions::{lower_node, lower_nodes, SpecOutputAction};
use crate::simple_expr::SpecSimpleExprToken;

verus! {

/// The actions of two runs of nodes, one behind the other, are the actions
/// of the first run followed by those of the second.
pub proof fn lemma_lower_nodes_concat(a: Seq<SpecContentNode>, b: Seq<SpecContentNode>)
    ensures
        lower_nodes(a + b) == lower_nodes(a) + lower_nodes(b),
    decreases b.len(),
{
    if b.len() == 0 {
        assert(a + b =~= a);
        assert(lower_nodes(a) + lower_nodes(b) =~= lower_nodes(a));
    } else {
        lemma_lower_nodes_concat(a, b.drop_last());
        assert((a + b).drop_last() =~= a + b.drop_last());
        assert((a + b).last() == b.last());
        assert(lower_nodes(a + b) =~= lower_nodes(a) + lower_nodes(b));
    }
}

/// Lowering keeps the order of a view's contents: the actions of the node
/// at `i` stand behind the actions of all nodes before it and in front of
/// the actions of all nodes behind it.
pub proof fn lemma_lowering_keeps_order(view: SpecTemplateView, i: int)
    requires
        0 <= i < view.contents.len(),
    ensures
        lower_nodes(view.contents) == lower_nodes(view.contents.take(i)) + lower_node(
            view.contents[i],
        ) + lower_nodes(view.contents.skip(i + 1)),
{
    let nodes = view.contents;
    let one = seq![nodes[i]];
    lemma_lower_nodes_concat(nodes.take(i), one);
    lemma_lower_nodes_concat(nodes.take(i) + one, nodes.skip(i + 1));
    assert(nodes =~= nodes.take(i) + one + nodes.skip(i + 1));
    assert(one.drop_last() =~= Seq::<SpecContentNode>::empty());
    assert(lower_nodes(one.drop_last()) =~= Seq::<SpecOutputAction>::empty());
    assert(lower_nodes(one) =~= lower_node(nodes[i]));
}

/// The texts and expressions that `node` holds, in document order, each as
/// the action that writes it.
pub open spec fn node_leaves(node: SpecContentNode) -> Seq<SpecOutputAction>
    decreases node, 0nat,
{
    match node {
        SpecContentNode::LiteralNode(SpecLitValue::LitString(s)) => seq![SpecOutputAction::Write(s)],
        SpecContentNode::ExprNode(expr) => seq![SpecOutputAction::WriteResult(expr)],
        SpecContentNode::ElementNode(element) => leaves(element.contents),
    }
}

/// The texts and expressions that `nodes` hold, in document order.
pub open spec fn leaves(nodes: Seq<SpecContentNode>) -> Seq<SpecOutputAction>
    decreases nodes, 1nat,
{
    if nodes.len() == 0 {
        Seq::empty()
    } else {
        leaves(nodes.drop_last()) + node_leaves(nodes.last())
    }
}

/// The actions of `actions` that write a text or a result, in order.
pub open spec fn writes(actions: Seq<SpecOutputAction>) -> Seq<SpecOutputAction>
    decreases actions.len(),
{
    if actions.len() == 0 {
        Seq::empty()
    } else if actions.last() is Write || actions.last() is WriteResult {
        writes(actions.drop_last()).push(actions.last())
    } else {
        writes(actions.drop_last())
    }
}

/// The writes of two runs of actions, one behind the other, are the writes
/// of the first run followed by those of the second.
pub proof fn lemma_writes_concat(a: Seq<SpecOutputAction>, b: Seq<SpecOutputAction>)
    ensures
        writes(a + b) == writes(a) + writes(b),
    decreases b.len(),
{
    if b.len() == 0 {
        assert(a + b =~= a);
        assert(writes(a) + writes(b) =~= writes(a));
    } else {
        lemma_writes_concat(a, b.drop_last());
        assert((a + b).drop_last() =~= a + b.drop_last());
        assert((a + b).last() == b.last());
        assert(writes(a + b) =~= writes(a) + writes(b));
    }
}

/// The writes among the actions of a node are the node's leaves.
pub proof fn lemma_node_writes_are_leaves(node: SpecContentNode)
    ensures
        writes(lower_node(node)) == node_leaves(node),
    decreases node, 0nat,
{
    match node {
        SpecContentNode::LiteralNode(SpecLitValue::LitString(s)) => {
            let actions = seq![SpecOutputAction::Write(s)];
            assert(actions.drop_last() =~= Seq::<SpecOutputAction>::empty());
            assert(writes(actions.drop_last()) =~= Seq::<SpecOutputAction>::empty());
            assert(writes(actions) =~= actions);
        },
        SpecContentNode::ExprNode(expr) => {
            let actions = seq![SpecOutputAction::WriteResult(expr)];
            assert(actions.drop_last() =~= Seq::<SpecOutputAction>::empty());
            assert(writes(actions.drop_last()) =~= Seq::<SpecOutputAction>::empty());
            assert(writes(actions) =~= actions);
        },
        SpecContentNode::ElementNode(element) => {
            let open = seq![SpecOutputAction::WriteOpen(element.tag)];
            let close = seq![SpecOutputAction::WriteClose(element.tag)];
            let inner = lower_nodes(element.contents);
            lemma_nodes_writes_are_leaves(element.contents);
            lemma_writes_concat(open, inner);
            lemma_writes_concat(open + inner, close);
            assert(open.drop_last() =~= Seq::<SpecOutputAction>::empty());
            assert(close.drop_last() =~= Seq::<SpecOutputAction>::empty());
            assert(writes(open.drop_last()) =~= Seq::<SpecOutputAction>::empty());
            assert(writes(close.drop_last()) =~= Seq::<SpecOutputAction>::empty());
            assert(writes(open) =~= Seq::<SpecOutputAction>::empty());
            assert(writes(close) =~= Seq::<SpecOutputAction>::empty());
            assert(writes(open + inner + close) =~= leaves(element.contents));
        },
    }
}

/// The writes among the actions of a run of nodes are the leaves of the
/// nodes.
pub proof fn lemma_nodes_writes_are_leaves(nodes: Seq<SpecContentNode>)
    ensures
        writes(lower_nodes(nodes)) == leaves(nodes),
    decreases nodes, 1nat,
{
    if nodes.len() > 0 {
        lemma_nodes_writes_are_leaves(nodes.drop_last());
        lemma_node_writes_are_leaves(nodes.last());
        lemma_writes_concat(lower_nodes(nodes.drop_last()), lower_node(nodes.last()));
    }
}

/// Lowering keeps the order of what a view writes: the texts and results
/// that the actions write are the texts and expressions of the view, in
/// document order, however deep they stand in elements.
pub proof fn lemma_lowering_keeps_write_order(view: SpecTemplateView)
    ensures
        writes(lower_nodes(view.contents)) == leaves(view.contents),
{
    lemma_nodes_writes_are_leaves(view.contents);
}

/// The number of actions in `actions` that open an element.
pub open spec fn count_opens(actions: Seq<SpecOutputAction>) -> nat
    decreases actions.len(),
{
    if actions.len() == 0 {
        0
    } else {
        count_opens(actions.drop_last()) + if actions.last() is WriteOpen {
            1nat
        } else {
            0nat
        }
    }
}

/// The number of actions in `actions` that close an element.
pub open spec fn count_closes(actions: Seq<SpecOutputAction>) -> nat
    decreases actions.len(),
{
    if actions.len() == 0 {
        0
    } else {
        count_closes(actions.drop_last()) + if actions.last() is WriteClose {
            1nat
        } else {
            0nat
        }
    }
}

/// The tags that are open after `actions`, when `stack` holds the tags that
/// were open before them, the innermost last. An action that opens an
/// element puts its tag on the stack, and one that closes an element takes
/// the innermost tag off, which must be its own; where it is not, there is
/// no result.
pub open spec fn open_tags_after(actions: Seq<SpecOutputAction>, stack: Seq<Seq<char>>) -> Option<
    Seq<Seq<char>>,
>
    decreases actions.len(),
{
    if actions.len() == 0 {
        Some(stack)
    } else {
        match actions.first() {
            SpecOutputAction::WriteOpen(tag) => open_tags_after(
                actions.drop_first(),
                stack.push(tag),
            ),
            SpecOutputAction::WriteClose(tag) => if stack.len() > 0 && stack.last() == tag {
                open_tags_after(actions.drop_first(), stack.drop_last())
            } else {
                None
            },
            _ => open_tags_after(actions.drop_first(), stack),
        }
    }
}

/// Whether every closing action of `actions` closes the element that was
/// opened last and is still open, and no element is left open.
pub open spec fn well_nested(actions: Seq<SpecOutputAction>) -> bool {
    open_tags_after(actions, Seq::empty()) == Some(Seq::<Seq<char>>::empty())
}

/// The opening actions of two runs of actions add up, and so do the
/// closing actions.
pub proof fn lemma_counts_concat(a: Seq<SpecOutputAction>, b: Seq<SpecOutputAction>)
    ensures
        count_opens(a + b) == count_opens(a) + count_opens(b),
        count_closes(a + b) == count_closes(a) + count_closes(b),
    decreases b.len(),
{
    if b.len() == 0 {
        assert(a + b =~= a);
    } else {
        lemma_counts_concat(a, b.drop_last());
        assert((a + b).drop_last() =~= a + b.drop_last());
        assert((a + b).last() == b.last());
    }
}

/// The tags that are open after two runs of actions are those that are open
/// after the second run, started from what is open after the first.
pub proof fn lemma_open_tags_concat(
    a: Seq<SpecOutputAction>,
    b: Seq<SpecOutputAction>,
    stack: Seq<Seq<char>>,
)
    ensures
        open_tags_after(a + b, stack) == match open_tags_after(a, stack) {
            Some(between) => open_tags_after(b, between),
            None => None,
        },
    decreases a.len(),
{
    if a.len() == 0 {
        assert(a + b =~= b);
    } else {
        assert((a + b).first() == a.first());
        assert((a + b).drop_first() =~= a.drop_first() + b);
        match a.first() {
            SpecOutputAction::WriteOpen(tag) => {
                lemma_open_tags_concat(a.drop_first(), b, stack.push(tag));
            },
            SpecOutputAction::WriteClose(tag) => {
                if stack.len() > 0 && stack.last() == tag {
                    lemma_open_tags_concat(a.drop_first(), b, stack.drop_last());
                }
            },
            _ => {
                lemma_open_tags_concat(a.drop_first(), b, stack);
            },
        }
    }
}

/// What one action alone opens and closes.
pub proof fn lemma_single_action(action: SpecOutputAction, stack: Seq<Seq<char>>)
    ensures
        count_opens(seq![action]) == if action is WriteOpen {
            1nat
        } else {
            0nat
        },
        count_closes(seq![action]) == if action is WriteClose {
            1nat
        } else {
            0nat
        },
        open_tags_after(seq![action], stack) == match action {
            SpecOutputAction::WriteOpen(tag) => Some(stack.push(tag)),
            SpecOutputAction::WriteClose(tag) => if stack.len() > 0 && stack.last() == tag {
                Some(stack.drop_last())
            } else {
                None
            },
            _ => Some(stack),
        },
{
    let actions = seq![action];
    let rest = Seq::<SpecOutputAction>::empty();
    assert(actions.drop_first() =~= rest);
    assert(actions.drop_last() =~= rest);
    assert(count_opens(rest) == 0);
    assert(count_closes(rest) == 0);
    assert(actions.first() == action);
    match action {
        SpecOutputAction::WriteOpen(tag) => {
            assert(open_tags_after(rest, stack.push(tag)) == Some(stack.push(tag)));
        },
        SpecOutputAction::WriteClose(tag) => {
            if stack.len() > 0 && stack.last() == tag {
                assert(open_tags_after(rest, stack.drop_last()) == Some(stack.drop_last()));
            }
        },
        _ => {
            assert(open_tags_after(rest, stack) == Some(stack));
        },
    }
}

/// The actions of a node leave open what was open before them, and open as
/// many elements as they close.
pub proof fn lemma_node_actions_balanced(node: SpecContentNode, stack: Seq<Seq<char>>)
    ensures
        open_tags_after(lower_node(node), stack) == Some(stack),
        count_opens(lower_node(node)) == count_closes(lower_node(node)),
    decreases node, 0nat,
{
    match node {
        SpecContentNode::LiteralNode(SpecLitValue::LitString(s)) => {
            lemma_single_action(SpecOutputAction::Write(s), stack);
        },
        SpecContentNode::ExprNode(expr) => {
            lemma_single_action(SpecOutputAction::WriteResult(expr), stack);
        },
        SpecContentNode::ElementNode(element) => {
            let open = seq![SpecOutputAction::WriteOpen(element.tag)];
            let close = seq![SpecOutputAction::WriteClose(element.tag)];
            let inner = lower_nodes(element.contents);
            let inside = stack.push(element.tag);
            lemma_nodes_actions_balanced(element.contents, inside);
            lemma_open_tags_concat(open + inner, close, stack);
            lemma_open_tags_concat(open, inner, stack);
            lemma_counts_concat(open + inner, close);
            lemma_counts_concat(open, inner);
            lemma_single_action(SpecOutputAction::WriteOpen(element.tag), stack);
            lemma_single_action(SpecOutputAction::WriteClose(element.tag), inside);
            assert(inside.drop_last() =~= stack);
        },
    }
}

/// The actions of a run of nodes leave open what was open before them, and
/// open as many elements as they close.
pub proof fn lemma_nodes_actions_balanced(nodes: Seq<SpecContentNode>, stack: Seq<Seq<char>>)
    ensures
        open_tags_after(lower_nodes(nodes), stack) == Some(stack),
        count_opens(lower_nodes(nodes)) == count_closes(lower_nodes(nodes)),
    decreases nodes, 1nat,
{
    if nodes.len() > 0 {
        lemma_nodes_actions_balanced(nodes.drop_last(), stack);
        lemma_node_actions_balanced(nodes.last(), stack);
        lemma_open_tags_concat(lower_nodes(nodes.drop_last()), lower_node(nodes.last()), stack);
        lemma_counts_concat(lower_nodes(nodes.drop_last()), lower_node(nodes.last()));
    }
}

/// The actions of an element are well nested: they open as many elements as
/// they close, each closing action closes the element that was opened last
/// and is still open, and the first and the last action open and close the
/// element itself.
pub proof fn lemma_element_well_nested(element: SpecElement)
    ensures
        count_opens(lower_node(SpecContentNode::ElementNode(element))) == count_closes(
            lower_node(SpecContentNode::ElementNode(element)),
        ),
        well_nested(lower_node(SpecContentNode::ElementNode(element))),
        lower_node(SpecContentNode::ElementNode(element)).first() == SpecOutputAction::WriteOpen(
            element.tag,
        ),
        lower_node(SpecContentNode::ElementNode(element)).last() == SpecOutputAction::WriteClose(
            element.tag,
        ),
{
    lemma_node_actions_balanced(SpecContentNode::ElementNode(element), Seq::empty());
}

/// The actions of a view are well nested.
pub proof fn lemma_view_well_nested(view: SpecTemplateView)
    ensures
        count_opens(lower_nodes(view.contents)) == count_closes(lower_nodes(view.contents)),
        well_nested(lower_nodes(view.contents)),
{
    lemma_nodes_actions_balanced(view.contents, Seq::empty());
}

/// An expression in braces that holds string literals only is lowered to
/// one action that writes their joined text; any other is lowered to one
/// action that writes the expression's result.
pub proof fn lemma_literal_classification(tokens: Seq<SpecSimpleExprToken>)
    ensures
        (forall|i: int| 0 <= i < tokens.len() ==> tokens[i] is LitString) ==> lower_node(
            classify_expr(tokens),
        ) == seq![SpecOutputAction::Write(spec_lit_string(tokens)->Some_0)],
        !(forall|i: int| 0 <= i < tokens.len() ==> tokens[i] is LitString) ==> lower_node(
            classify_expr(tokens),
        ) == seq![SpecOutputAction::WriteResult(tokens)],
{
    lemma_lit_string_iff_all_literals(tokens);
}

/// Classifying is idempotent on literals: the text of a literal node,
/// written as one string literal in braces, is classified as the same node
/// again.
pub proof fn lemma_literal_classification_idempotent(tokens: Seq<SpecSimpleExprToken>)
    requires
        forall|i: int| 0 <= i < tokens.len() ==> tokens[i] is LitString,
    ensures
        spec_lit_string(tokens) is Some,
        classify_expr(seq![SpecSimpleExprToken::LitString(spec_lit_string(tokens)->Some_0)])
            == classify_expr(tokens),
{
    lemma_lit_string_iff_all_literals(tokens);
    let text = spec_lit_string(tokens)->Some_0;
    let one = seq![SpecSimpleExprToken::LitString(text)];
    assert(one.drop_last() =~= Seq::<SpecSimpleExprToken>::empty());
    assert(spec_lit_string(one.drop_last()) == Some(Seq::<char>::empty()));
    assert(Seq::<char>::empty() + text =~= text);
}

} // verus!
