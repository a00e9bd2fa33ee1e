//! Views: named markup that can be rendered.

use vstd::prelude::*;
use vstd::std_specs::cmp::PartialEqSpecImpl;
use vstd::string::StringExecFns;
use crate::error::{ParseError, SpecParseError};
use crate::js_write::{
    arg_texts, js_actions_text, js_function_text, JsWriteFunctions, WriteJs, WriteJsFunctions,
};
use crate::nodes::content_node::{
    clone_contents, contents_eq, lemma_contents_bounds, parse_contents, spec_parse_contents,
    ContentNode, NodeType, SpecContentNode, SpecNodeType,
};
use crate::output_actions::{
    lower_nodes, write_contents_actions, IntoOutputActions, OutputAction, OutputActionWrite,
    SpecOutputAction, WriteOutputActions,
};
use crate::token::{views, Delim, SpecCursor, SpecToken, Token, TokenCursor};

verus! {

/// A view of a template: a name and the contents that it renders.
#[derive(Debug)]
pub struct TemplateView {
    pub name: String,
    pub contents: Vec<ContentNode>,
}

/// The mathematical value of a [`TemplateView`].
pub struct SpecTemplateView {
    pub name: Seq<char>,
    pub contents: Seq<SpecContentNode>,
}

impl View for TemplateView {
    type V = SpecTemplateView;

    open spec fn view(&self) -> SpecTemplateView {
        SpecTemplateView { name: self.name@, contents: views(self.contents@) }
    }
}

impl TemplateView {
    /// The name of the view.
    pub fn name(&self) -> (r: &str)
        ensures
            r@ == self@.name,
    {
        self.name.as_str()
    }
}

impl Clone for TemplateView {
    fn clone(&self) -> (r: TemplateView)
        ensures
            r@ == self@,
    {
        TemplateView { name: self.name.clone(), contents: clone_contents(&self.contents) }
    }
}

impl PartialEq for TemplateView {
    fn eq(&self, other: &TemplateView) -> (r: bool) {
        self.name == other.name && contents_eq(&self.contents, &other.contents)
    }
}

impl PartialEqSpecImpl for TemplateView {
    open spec fn obeys_eq_spec() -> bool {
        true
    }

    open spec fn eq_spec(&self, other: &TemplateView) -> bool {
        self@ == other@
    }
}

/// The view written as `name [ contents ]` at `pos`, with the position of
/// its closing bracket. Contents end at no other token, so the bracket is
/// there.
pub open spec fn spec_parse_view(tokens: Seq<SpecToken>, pos: int) -> Result<
    (SpecTemplateView, int),
    SpecParseError,
> {
    match (SpecCursor { tokens, pos }).parse_ident() {
        Err(e) => Err(e),
        Ok((name, open)) => match (SpecCursor { tokens, pos: open }).expect(
            SpecToken::OpenDelim(Delim::Bracket),
        ) {
            Err(e) => Err(e),
            Ok(inner) => match spec_parse_contents(tokens, inner, SpecNodeType::Root) {
                Err(e) => Err(e),
                Ok((contents, close)) => Ok((SpecTemplateView { name, contents }, close)),
            },
        },
    }
}

/// Parses `name [ contents ]` and leaves the cursor at the closing bracket.
pub fn parse_view(parser: &mut TokenCursor) -> (r: Result<TemplateView, ParseError>)
    ensures
        final(parser)@.tokens == old(parser)@.tokens,
        match r {
            Ok(view) => spec_parse_view(old(parser)@.tokens, old(parser)@.pos) == Ok::<
                (SpecTemplateView, int),
                SpecParseError,
            >((view@, final(parser)@.pos)) && old(parser)@.pos < final(parser)@.pos
                && TokenCursor::current(final(parser)@) == SpecToken::CloseDelim(Delim::Bracket),
            Err(e) => spec_parse_view(old(parser)@.tokens, old(parser)@.pos) == Err::<
                (SpecTemplateView, int),
                SpecParseError,
            >(e@) && final(parser)@.pos == e@.position(),
        },
{
    let start = parser.position();
    let name = match parser.parse_ident() {
        Err(e) => {
            return Err(e);
        },
        Ok(name) => name,
    };
    match parser.expect(&Token::OpenDelim(Delim::Bracket)) {
        Err(e) => {
            return Err(e);
        },
        Ok(_) => {},
    }
    let contents = match parse_contents(parser, &NodeType::Root) {
        Err(e) => {
            return Err(e);
        },
        Ok(contents) => contents,
    };
    proof {
        lemma_contents_bounds(old(parser)@.tokens, start + 2, SpecNodeType::Root);
    }
    Ok(TemplateView { name, contents })
}

impl WriteOutputActions for TemplateView {
    open spec fn output_actions(&self) -> Seq<SpecOutputAction> {
        lower_nodes(self@.contents)
    }

    fn write_output_actions<W: OutputActionWrite>(&self, w: &mut W) {
        write_contents_actions(&self.contents, w);
    }
}

impl IntoOutputActions for TemplateView {
    fn into_output_actions(&self) -> (r: Vec<OutputAction>) {
        let mut actions: Vec<OutputAction> = Vec::new();
        self.write_output_actions(&mut actions);
        assert(views(actions@) =~= self.output_actions());
        actions
    }
}

/// A view ends behind its start, at a closing bracket inside the input.
pub proof fn lemma_view_bounds(tokens: Seq<SpecToken>, pos: int)
    requires
        0 <= pos <= tokens.len(),
    ensures
        spec_parse_view(tokens, pos) matches Ok((_, end)) ==> pos < end < tokens.len()
            && tokens[end] == SpecToken::CloseDelim(Delim::Bracket),
{
    if pos + 1 < tokens.len() {
        lemma_contents_bounds(tokens, pos + 2, SpecNodeType::Root);
    }
}

/// The name of the function that renders the view named `name`.
pub open spec fn render_view_name(name: Seq<char>) -> Seq<char> {
    "render_view_"@ + name
}

/// The JavaScript function that renders a view: it takes the data to render
/// and makes the calls of the view's output actions, in order.
pub open spec fn js_view_text(view: SpecTemplateView) -> Seq<char> {
    js_function_text(
        render_view_name(view.name),
        seq!["data"@],
        js_actions_text(lower_nodes(view.contents)),
    )
}

impl WriteJsFunctions for TemplateView {
    open spec fn js_functions_text(&self) -> Seq<char> {
        js_view_text(self@)
    }

    fn write_js_functions<W: JsWriteFunctions>(&self, js: &mut W) {
        let mut func_name = String::from_str("render_view_");
        func_name.append(self.name.as_str());
        let mut output_actions: Vec<OutputAction> = Vec::new();
        self.write_output_actions(&mut output_actions);
        assert(views(output_actions@) =~= lower_nodes(self@.contents));
        let mut body = String::new();
        output_actions.write_js(&mut body);
        assert(body@ =~= js_actions_text(lower_nodes(self@.contents)));
        let args: Vec<&str> = vec!["data"];
        assert(arg_texts(args@) =~= seq!["data"@]);
        js.function(func_name.as_str(), args, body.as_str());
    }
}

} // verus!
