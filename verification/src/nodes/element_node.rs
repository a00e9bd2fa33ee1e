//! Elements: a tag around contents.

use vstd::prelude::*;
use vstd::std_specs::cmp::PartialEqSpecImpl;
use crate::error::{ParseError, SpecParseError};
use crate::nodes::content_node::{
    clone_contents, contents_eq, lemma_contents_bounds, parse_contents, spec_parse_element,
    ContentNode, NodeType, SpecElement,
};
use crate::output_actions::{
    lower_node, write_contents_actions, IntoOutputActions, OutputAction, OutputActionWrite,
    SpecOutputAction, WriteOutputActions,
};
use crate::nodes::content_node::SpecContentNode;
use crate::token::{views, Delim, SpecToken, Token, TokenCursor};

verus! {

/// A markup element. It has a tag and contents, and no attributes.
#[derive(Debug)]
pub struct Element {
    pub tag: String,
    pub contents: Vec<ContentNode>,
}

impl View for Element {
    type V = SpecElement;

    open spec fn view(&self) -> SpecElement {
        SpecElement { tag: self.tag@, contents: views(self.contents@) }
    }
}

impl Clone for Element {
    fn clone(&self) -> (r: Element)
        ensures
            r@ == self@,
    {
        Element { tag: self.tag.clone(), contents: clone_contents(&self.contents) }
    }
}

impl PartialEq for Element {
    fn eq(&self, other: &Element) -> (r: bool) {
        self.tag == other.tag && contents_eq(&self.contents, &other.contents)
    }
}

impl PartialEqSpecImpl for Element {
    open spec fn obeys_eq_spec() -> bool {
        true
    }

    open spec fn eq_spec(&self, other: &Element) -> bool {
        self@ == other@
    }
}

/// Parses `tag [ contents ]` and leaves the cursor at the closing bracket.
pub fn parse_element(parser: &mut TokenCursor) -> (r: Result<Element, ParseError>)
    ensures
        final(parser)@.tokens == old(parser)@.tokens,
        match r {
            Ok(element) => spec_parse_element(old(parser)@.tokens, old(parser)@.pos) == Ok::<
                (SpecElement, int),
                SpecParseError,
            >((element@, final(parser)@.pos)) && old(parser)@.pos < final(parser)@.pos
                && TokenCursor::current(final(parser)@) == SpecToken::CloseDelim(Delim::Bracket),
            Err(e) => spec_parse_element(old(parser)@.tokens, old(parser)@.pos) == Err::<
                (SpecElement, int),
                SpecParseError,
            >(e@) && final(parser)@.pos == e@.position(),
        },
    decreases old(parser)@.tokens.len() - old(parser)@.pos, 0nat,
{
    let start = parser.position();
    let tag = match parser.parse_ident() {
        Err(e) => {
            return Err(e);
        },
        Ok(tag) => tag,
    };
    match parser.expect(&Token::OpenDelim(Delim::Bracket)) {
        Err(e) => {
            return Err(e);
        },
        Ok(_) => {},
    }
    let node_type = NodeType::Named(tag.clone());
    let contents = match parse_contents(parser, &node_type) {
        Err(e) => {
            return Err(e);
        },
        Ok(contents) => contents,
    };
    proof {
        lemma_contents_bounds(old(parser)@.tokens, start + 2, node_type@);
    }
    Ok(Element { tag, contents })
}

impl WriteOutputActions for Element {
    open spec fn output_actions(&self) -> Seq<SpecOutputAction> {
        lower_node(SpecContentNode::ElementNode(self@))
    }

    fn write_output_actions<W: OutputActionWrite>(&self, w: &mut W) {
        w.write_output_action(&OutputAction::WriteOpen(self.tag.clone()));
        write_contents_actions(&self.contents, w);
        w.write_output_action(&OutputAction::WriteClose(self.tag.clone()));
        assert(w.actions() =~= old(w).actions() + self.output_actions());
    }
}

impl IntoOutputActions for Element {
    fn into_output_actions(&self) -> (r: Vec<OutputAction>) {
        let mut actions: Vec<OutputAction> = Vec::new();
        self.write_output_actions(&mut actions);
        assert(views(actions@) =~= self.output_actions());
        actions
    }
}

} // verus!
