//! Templates: the views and stores of one definition.

use vstd::prelude::*;
use vstd::std_specs::cmp::PartialEqSpecImpl;
use vstd::string::StringExecFns;
use crate::common_write::join_text;
use crate::error::{ParseError, SpecParseError};
use crate::js_write::{js_functions_texts, JsWriteFunctions, WriteJsFunctions};
use crate::nodes::store_node::{
    js_store_text, lemma_store_arms_bounds, parse_store, spec_parse_store, SpecStore, Store,
};
use crate::nodes::view_node::{
    js_view_text, lemma_view_bounds, parse_view, spec_parse_view, SpecTemplateView, TemplateView,
};
use crate::output_actions::{
    lower_nodes, IntoOutputActions, OutputAction, OutputActionWrite, SpecOutputAction,
    WriteOutputActions,
};
use crate::token::{token_at, views, SpecToken, Token, TokenCursor};

verus! {

/// One definition of a template, under the name it is known by.
#[derive(Debug)]
pub enum TemplateNode {
    ViewNode(String, TemplateView),
    StoreNode(String, Store),
}

/// The mathematical value of a [`TemplateNode`].
pub enum SpecTemplateNode {
    ViewNode(Seq<char>, SpecTemplateView),
    StoreNode(Seq<char>, SpecStore),
}

impl View for TemplateNode {
    type V = SpecTemplateNode;

    open spec fn view(&self) -> SpecTemplateNode {
        match self {
            TemplateNode::ViewNode(name, view) => SpecTemplateNode::ViewNode(name@, view@),
            TemplateNode::StoreNode(name, store) => SpecTemplateNode::StoreNode(name@, store@),
        }
    }
}

impl Clone for TemplateNode {
    fn clone(&self) -> (r: TemplateNode)
        ensures
            r@ == self@,
    {
        match self {
            TemplateNode::ViewNode(name, view) => TemplateNode::ViewNode(
                name.clone(),
                view.clone(),
            ),
            TemplateNode::StoreNode(name, store) => TemplateNode::StoreNode(
                name.clone(),
                store.clone(),
            ),
        }
    }
}

impl PartialEq for TemplateNode {
    fn eq(&self, other: &TemplateNode) -> (r: bool) {
        match self {
            TemplateNode::ViewNode(name, view) => match other {
                TemplateNode::ViewNode(n, v) => *name == *n && *view == *v,
                _ => false,
            },
            TemplateNode::StoreNode(name, store) => match other {
                TemplateNode::StoreNode(n, s) => *name == *n && *store == *s,
                _ => false,
            },
        }
    }
}

impl PartialEqSpecImpl for TemplateNode {
    open spec fn obeys_eq_spec() -> bool {
        true
    }

    open spec fn eq_spec(&self, other: &TemplateNode) -> bool {
        self@ == other@
    }
}

/// A template: its name and its definitions in source order.
#[derive(Debug)]
pub struct Template {
    pub name: String,
    pub nodes: Vec<TemplateNode>,
}

/// The mathematical value of a [`Template`].
pub struct SpecTemplate {
    pub name: Seq<char>,
    pub nodes: Seq<SpecTemplateNode>,
}

impl View for Template {
    type V = SpecTemplate;

    open spec fn view(&self) -> SpecTemplate {
        SpecTemplate { name: self.name@, nodes: views(self.nodes@) }
    }
}

impl Template {
    /// The name of the template.
    pub fn name(&self) -> (r: &str)
        ensures
            r@ == self@.name,
    {
        self.name.as_str()
    }

    /// The definitions of the template, in source order.
    pub fn nodes(&self) -> (r: &[TemplateNode])
        ensures
            views(r@) == self@.nodes,
    {
        self.nodes.as_slice()
    }
}

impl Clone for Template {
    fn clone(&self) -> (r: Template)
        ensures
            r@ == self@,
    {
        let mut nodes: Vec<TemplateNode> = Vec::new();
        let n = self.nodes.len();
        let mut i: usize = 0;
        while i < n
            invariant
                n == self.nodes.len(),
                0 <= i <= n,
                nodes@.len() == i,
                forall|j: int| 0 <= j < i ==> nodes@[j]@ == self.nodes@[j]@,
            decreases n - i,
        {
            nodes.push(self.nodes[i].clone());
            i = i + 1;
        }
        assert(views(nodes@) =~= views(self.nodes@));
        Template { name: self.name.clone(), nodes }
    }
}

impl PartialEq for Template {
    fn eq(&self, other: &Template) -> (r: bool) {
        let n = self.nodes.len();
        if !(self.name == other.name) || n != other.nodes.len() {
            assert(self@.name != other@.name || self@.nodes.len() != other@.nodes.len());
            return false;
        }
        let mut i: usize = 0;
        while i < n
            invariant
                n == self.nodes.len(),
                n == other.nodes.len(),
                0 <= i <= n,
                forall|j: int| 0 <= j < i ==> self.nodes@[j]@ == other.nodes@[j]@,
            decreases n - i,
        {
            if !(self.nodes[i] == other.nodes[i]) {
                assert(self@.nodes[i as int] != other@.nodes[i as int]);
                return false;
            }
            i = i + 1;
        }
        assert(self@.nodes =~= other@.nodes);
        true
    }
}

impl PartialEqSpecImpl for Template {
    open spec fn obeys_eq_spec() -> bool {
        true
    }

    open spec fn eq_spec(&self, other: &Template) -> bool {
        self@ == other@
    }
}

impl SpecTemplateNode {
    /// Whether this is the view named `name`.
    pub open spec fn is_view_named(self, name: Seq<char>) -> bool {
        match self {
            SpecTemplateNode::ViewNode(n, _) => n == name,
            SpecTemplateNode::StoreNode(_, _) => false,
        }
    }

    /// Whether this is the store named `name`.
    pub open spec fn is_store_named(self, name: Seq<char>) -> bool {
        match self {
            SpecTemplateNode::ViewNode(_, _) => false,
            SpecTemplateNode::StoreNode(n, _) => n == name,
        }
    }
}

/// Whether `nodes` hold a view named `name`.
pub open spec fn has_view(nodes: Seq<SpecTemplateNode>, name: Seq<char>) -> bool {
    exists|i: int| 0 <= i < nodes.len() && (#[trigger] nodes[i]).is_view_named(name)
}

/// Whether `nodes` hold a store named `name`.
pub open spec fn has_store(nodes: Seq<SpecTemplateNode>, name: Seq<char>) -> bool {
    exists|i: int| 0 <= i < nodes.len() && (#[trigger] nodes[i]).is_store_named(name)
}

/// Whether no two views of `nodes` have one name, and no two stores.
pub open spec fn unique_names(nodes: Seq<SpecTemplateNode>) -> bool {
    forall|i: int, j: int|
        0 <= i < j < nodes.len() ==> match (#[trigger] nodes[i], #[trigger] nodes[j]) {
            (SpecTemplateNode::ViewNode(a, _), SpecTemplateNode::ViewNode(b, _)) => a != b,
            (SpecTemplateNode::StoreNode(a, _), SpecTemplateNode::StoreNode(b, _)) => a != b,
            _ => true,
        }
}

/// A store ends behind its start and within the input.
pub proof fn lemma_store_bounds(tokens: Seq<SpecToken>, pos: int)
    requires
        0 <= pos <= tokens.len(),
    ensures
        spec_parse_store(tokens, pos) matches Ok((_, end)) ==> pos < end <= tokens.len(),
{
    if pos + 1 < tokens.len() {
        lemma_store_arms_bounds(tokens, pos + 2, true);
    }
}

/// The definitions of a template: `read`, followed by those written from
/// `pos` to the end of the input. Each is the word `view` and a view, or the
/// word `store` and a store, and is known by its own name. A view ends at
/// its closing bracket, and the template goes on behind it. A second view of
/// one name is an error at that name, and so is a second store.
pub open spec fn spec_parse_template_nodes(
    tokens: Seq<SpecToken>,
    pos: int,
    read: Seq<SpecTemplateNode>,
) -> Result<Seq<SpecTemplateNode>, SpecParseError>
    decreases tokens.len() - pos,
{
    let name = token_at(tokens, pos + 1);
    match token_at(tokens, pos) {
        SpecToken::Eof => Ok(read),
        SpecToken::Ident(keyword) => if keyword == "view"@ {
            if name is Ident && has_view(read, name->Ident_0) {
                Err(SpecParseError::DuplicateName { pos: pos + 1, name: name->Ident_0 })
            } else {
                match spec_parse_view(tokens, pos + 1) {
                    Err(e) => Err(e),
                    Ok((view, close)) => {
                        proof {
                            lemma_view_bounds(tokens, pos + 1);
                        }
                        spec_parse_template_nodes(
                            tokens,
                            close + 1,
                            read.push(SpecTemplateNode::ViewNode(view.name, view)),
                        )
                    },
                }
            }
        } else if keyword == "store"@ {
            if name is Ident && has_store(read, name->Ident_0) {
                Err(SpecParseError::DuplicateName { pos: pos + 1, name: name->Ident_0 })
            } else {
                match spec_parse_store(tokens, pos + 1) {
                    Err(e) => Err(e),
                    Ok((store, end)) => {
                        proof {
                            lemma_store_bounds(tokens, pos + 1);
                        }
                        spec_parse_template_nodes(
                            tokens,
                            end,
                            read.push(SpecTemplateNode::StoreNode(store.name, store)),
                        )
                    },
                }
            }
        } else {
            Err(SpecParseError::UnknownKeyword { pos, keyword })
        },
        found => Err(SpecParseError::UnexpectedToken { pos, found }),
    }
}

/// The template named `name` that is written from `pos` to the end of the
/// input.
pub open spec fn spec_parse_template(tokens: Seq<SpecToken>, pos: int, name: Seq<char>) -> Result<
    SpecTemplate,
    SpecParseError,
> {
    match spec_parse_template_nodes(tokens, pos, Seq::empty()) {
        Err(e) => Err(e),
        Ok(nodes) => Ok(SpecTemplate { name, nodes }),
    }
}

/// Whether `nodes` hold a view named `name`.
fn contains_view(nodes: &Vec<TemplateNode>, name: &String) -> (r: bool)
    ensures
        r == has_view(views(nodes@), name@),
{
    let n = nodes.len();
    let mut i: usize = 0;
    while i < n
        invariant
            n == nodes.len(),
            0 <= i <= n,
            forall|j: int| 0 <= j < i ==> !(#[trigger] views(nodes@)[j]).is_view_named(name@),
        decreases n - i,
    {
        match &nodes[i] {
            TemplateNode::ViewNode(other, _) => {
                if *other == *name {
                    assert(views(nodes@)[i as int] == nodes@[i as int]@);
                    return true;
                }
            },
            TemplateNode::StoreNode(_, _) => {},
        }
        assert(views(nodes@)[i as int] == nodes@[i as int]@);
        i = i + 1;
    }
    false
}

/// Whether `nodes` hold a store named `name`.
fn contains_store(nodes: &Vec<TemplateNode>, name: &String) -> (r: bool)
    ensures
        r == has_store(views(nodes@), name@),
{
    let n = nodes.len();
    let mut i: usize = 0;
    while i < n
        invariant
            n == nodes.len(),
            0 <= i <= n,
            forall|j: int| 0 <= j < i ==> !(#[trigger] views(nodes@)[j]).is_store_named(name@),
        decreases n - i,
    {
        match &nodes[i] {
            TemplateNode::StoreNode(other, _) => {
                if *other == *name {
                    assert(views(nodes@)[i as int] == nodes@[i as int]@);
                    return true;
                }
            },
            TemplateNode::ViewNode(_, _) => {},
        }
        assert(views(nodes@)[i as int] == nodes@[i as int]@);
        i = i + 1;
    }
    false
}

/// Parses the definitions of the template named `name`, up to the end of
/// the input. No two views of the result have one name, and no two stores.
/// On an error the cursor is left at the offending token.
pub fn parse_template(parser: &mut TokenCursor, name: &str) -> (r: Result<Template, ParseError>)
    ensures
        final(parser)@.tokens == old(parser)@.tokens,
        match r {
            Ok(template) => spec_parse_template(old(parser)@.tokens, old(parser)@.pos, name@)
                == Ok::<SpecTemplate, SpecParseError>(template@) && unique_names(
                template@.nodes,
            ) && TokenCursor::current(final(parser)@) == SpecToken::Eof,
            Err(e) => spec_parse_template(old(parser)@.tokens, old(parser)@.pos, name@) == Err::<
                SpecTemplate,
                SpecParseError,
            >(e@) && final(parser)@.pos == e@.position(),
        },
{
    let mut nodes: Vec<TemplateNode> = Vec::new();
    let ghost tokens = parser@.tokens;
    let start = parser.position();
    assert(views(nodes@) =~= Seq::empty());
    loop
        invariant
            tokens == old(parser)@.tokens,
            start == old(parser)@.pos,
            parser@.tokens == tokens,
            start <= parser@.pos <= tokens.len(),
            unique_names(views(nodes@)),
            spec_parse_template_nodes(tokens, start as int, Seq::empty())
                == spec_parse_template_nodes(tokens, parser@.pos, views(nodes@)),
        decreases tokens.len() - parser@.pos,
    {
        let pos = parser.position();
        let ghost read = views(nodes@);
        let is_view = match parser.peek() {
            Token::Eof => {
                return Ok(Template { name: name.to_owned(), nodes });
            },
            Token::Ident(keyword) => {
                if *keyword == String::from_str("view") {
                    true
                } else if *keyword == String::from_str("store") {
                    false
                } else {
                    return Err(ParseError::UnknownKeyword { pos, keyword: keyword.clone() });
                }
            },
            found => {
                return Err(ParseError::UnexpectedToken { pos, found: found.clone() });
            },
        };
        parser.advance();
        let name_pos = parser.position();
        match parser.peek() {
            Token::Ident(name) => {
                let duplicate = if is_view {
                    contains_view(&nodes, name)
                } else {
                    contains_store(&nodes, name)
                };
                if duplicate {
                    return Err(ParseError::DuplicateName { pos: name_pos, name: name.clone() });
                }
            },
            _ => {},
        }
        let node = if is_view {
            match parse_view(parser) {
                Err(e) => {
                    return Err(e);
                },
                Ok(view) => {
                    proof {
                        lemma_view_bounds(tokens, name_pos as int);
                    }
                    parser.advance();
                    TemplateNode::ViewNode(view.name.clone(), view)
                },
            }
        } else {
            match parse_store(parser) {
                Err(e) => {
                    return Err(e);
                },
                Ok(store) => TemplateNode::StoreNode(store.name.clone(), store),
            }
        };
        nodes.push(node);
        proof {
            assert(views(nodes@) =~= read.push(node@));
            assert forall|i: int, j: int| 0 <= i < j < views(nodes@).len() implies match (
                #[trigger] views(nodes@)[i],
                #[trigger] views(nodes@)[j],
            ) {
                (SpecTemplateNode::ViewNode(a, _), SpecTemplateNode::ViewNode(b, _)) => a != b,
                (SpecTemplateNode::StoreNode(a, _), SpecTemplateNode::StoreNode(b, _)) => a != b,
                _ => true,
            } by {
                if j < read.len() {
                    assert(views(nodes@)[i] == read[i]);
                    assert(views(nodes@)[j] == read[j]);
                } else {
                    assert(views(nodes@)[i] == read[i]);
                }
            }
        }
    }
}

/// The output actions of a template's definitions: those of each view, in
/// source order. Stores have none.
pub open spec fn lower_template_nodes(nodes: Seq<SpecTemplateNode>) -> Seq<SpecOutputAction>
    decreases nodes.len(),
{
    if nodes.len() == 0 {
        Seq::empty()
    } else {
        lower_template_nodes(nodes.drop_last()) + match nodes.last() {
            SpecTemplateNode::ViewNode(_, view) => lower_nodes(view.contents),
            SpecTemplateNode::StoreNode(_, _) => Seq::empty(),
        }
    }
}

impl WriteOutputActions for TemplateNode {
    open spec fn output_actions(&self) -> Seq<SpecOutputAction> {
        match self@ {
            SpecTemplateNode::ViewNode(_, view) => lower_nodes(view.contents),
            SpecTemplateNode::StoreNode(_, _) => Seq::empty(),
        }
    }

    fn write_output_actions<W: OutputActionWrite>(&self, w: &mut W) {
        match self {
            TemplateNode::ViewNode(_, view) => view.write_output_actions(w),
            TemplateNode::StoreNode(_, store) => store.write_output_actions(w),
        }
    }
}

impl IntoOutputActions for TemplateNode {
    fn into_output_actions(&self) -> (r: Vec<OutputAction>) {
        let mut actions: Vec<OutputAction> = Vec::new();
        self.write_output_actions(&mut actions);
        assert(views(actions@) =~= self.output_actions());
        actions
    }
}

impl WriteOutputActions for Template {
    open spec fn output_actions(&self) -> Seq<SpecOutputAction> {
        lower_template_nodes(self@.nodes)
    }

    fn write_output_actions<W: OutputActionWrite>(&self, w: &mut W) {
        let n = self.nodes.len();
        let mut i: usize = 0;
        let ghost all = self@.nodes;
        assert(all.take(0) =~= Seq::empty());
        assert(w.actions() =~= old(w).actions() + lower_template_nodes(all.take(0)));
        while i < n
            invariant
                n == self.nodes.len(),
                all == self@.nodes,
                0 <= i <= n,
                w.actions() == old(w).actions() + lower_template_nodes(all.take(i as int)),
            decreases n - i,
        {
            self.nodes[i].write_output_actions(w);
            proof {
                let upto = all.take(i as int + 1);
                assert(upto.drop_last() =~= all.take(i as int));
                assert(upto.last() == self.nodes@[i as int]@);
                assert(w.actions() =~= old(w).actions() + lower_template_nodes(upto));
            }
            i = i + 1;
        }
        assert(all.take(n as int) =~= all);
    }
}

impl IntoOutputActions for Template {
    fn into_output_actions(&self) -> (r: Vec<OutputAction>) {
        let mut actions: Vec<OutputAction> = Vec::new();
        self.write_output_actions(&mut actions);
        assert(views(actions@) =~= self.output_actions());
        actions
    }
}

/// The JavaScript function of one definition: the function that renders a
/// view, or the reducer of a store.
pub open spec fn js_template_node_text(node: SpecTemplateNode) -> Seq<char> {
    match node {
        SpecTemplateNode::ViewNode(_, view) => js_view_text(view),
        SpecTemplateNode::StoreNode(_, store) => js_store_text(store),
    }
}

/// The JavaScript functions of a template's definitions.
pub open spec fn js_template_node_texts(nodes: Seq<SpecTemplateNode>) -> Seq<Seq<char>> {
    Seq::new(nodes.len(), |i: int| js_template_node_text(nodes[i]))
}

impl WriteJsFunctions for TemplateNode {
    open spec fn js_functions_text(&self) -> Seq<char> {
        js_template_node_text(self@)
    }

    fn write_js_functions<W: JsWriteFunctions>(&self, js: &mut W) {
        match self {
            TemplateNode::ViewNode(_, view) => {
                view.write_js_functions(js);
            },
            TemplateNode::StoreNode(_, store) => {
                store.write_js_functions(js);
            },
        }
    }
}

impl WriteJsFunctions for Template {
    /// The functions of the template's definitions in source order, with one
    /// space between two functions.
    open spec fn js_functions_text(&self) -> Seq<char> {
        join_text(js_template_node_texts(self@.nodes), " "@)
    }

    fn write_js_functions<W: JsWriteFunctions>(&self, js: &mut W) {
        assert(js_functions_texts(self.nodes@) =~= js_template_node_texts(self@.nodes));
        self.nodes.write_js_functions(js);
    }
}

} // verus!
