//! From a template's tokens to its outputs, and the names under which the
//! outputs are known.

use vstd::prelude::*;
use vstd::string::StringExecFns;
use crate::codegen::{lemma_html_actions_strings_concat, Html, Js, NamedOutputExt};
use crate::common_write::{lemma_concat_text_one, str_equals};
use crate::error::{ParseError, SpecParseError};
use crate::html_write::html_actions_text;
use crate::nodes::store_node::js_store_text;
use crate::nodes::template_node::{
    parse_template, spec_parse_template, unique_names, SpecTemplate, SpecTemplateNode, Template,
    TemplateNode,
};
use crate::nodes::view_node::js_view_text;
use crate::output::ToData;
use crate::output_actions::lower_nodes;
use crate::token::{views, Token, TokenCursor};
use crate::unicode::{lowercase_text, to_lowercase};

verus! {

/// The language that an output is rendered in.
#[derive(Clone, Copy, Debug, PartialEq, Eq, Structural)]
pub enum RenderLang {
    RenderHtml,
    RenderJs,
}

/// The kind of definition that an output belongs to.
#[derive(Clone, Copy, Debug, PartialEq, Eq, Structural)]
pub enum NamedOutputType {
    ViewOutput,
    StoreOutput,
}

/// Why a request to render an output is refused.
#[derive(Clone, Copy, Debug, PartialEq, Eq, Structural)]
pub enum RenderError {
    /// The output type is neither `view` nor `store`.
    UnsupportedOutputType,
    /// The language is neither `html` nor `js`, in any case of letters.
    UnsupportedLanguage,
}

/// The word for an output type in the names of outputs.
pub open spec fn output_type_text(output_type: NamedOutputType) -> Seq<char> {
    match output_type {
        NamedOutputType::ViewOutput => "view"@,
        NamedOutputType::StoreOutput => "store"@,
    }
}

/// The word for a language in the names of outputs.
pub open spec fn render_lang_text(lang: RenderLang) -> Seq<char> {
    match lang {
        RenderLang::RenderHtml => "html"@,
        RenderLang::RenderJs => "js"@,
    }
}

/// The name under which an output is known: it holds the names of the
/// template and of the definition, the definition's kind and the language.
pub open spec fn render_output_name(
    template_name: Seq<char>,
    output_type: NamedOutputType,
    output_name: Seq<char>,
    lang: RenderLang,
) -> Seq<char> {
    "rusttemplate_render_template_"@ + template_name + "_"@ + output_type_text(output_type) + "_"@
        + output_name + "_"@ + render_lang_text(lang)
}

/// The output type that `output_ty` names, if it names one.
pub open spec fn spec_output_type_of(output_ty: Seq<char>) -> Option<NamedOutputType> {
    if output_ty == "view"@ {
        Some(NamedOutputType::ViewOutput)
    } else if output_ty == "store"@ {
        Some(NamedOutputType::StoreOutput)
    } else {
        None
    }
}

/// The language that `lang` names, if it names one. `lang` is in lower case.
pub open spec fn spec_render_lang_of(lang: Seq<char>) -> Option<RenderLang> {
    if lang == "html"@ {
        Some(RenderLang::RenderHtml)
    } else if lang == "js"@ {
        Some(RenderLang::RenderJs)
    } else {
        None
    }
}

/// Computes [`spec_output_type_of`].
pub fn output_type_of(output_ty: &str) -> (r: Option<NamedOutputType>)
    ensures
        r == spec_output_type_of(output_ty@),
{
    if str_equals(output_ty, "view") {
        Some(NamedOutputType::ViewOutput)
    } else if str_equals(output_ty, "store") {
        Some(NamedOutputType::StoreOutput)
    } else {
        None
    }
}

/// Computes [`spec_render_lang_of`].
pub fn render_lang_of(lang: &str) -> (r: Option<RenderLang>)
    ensures
        r == spec_render_lang_of(lang@),
{
    if str_equals(lang, "html") {
        Some(RenderLang::RenderHtml)
    } else if str_equals(lang, "js") {
        Some(RenderLang::RenderJs)
    } else {
        None
    }
}

/// Builds the name under which an output is known.
pub fn create_render_output_name(
    template_name: &str,
    output_type: NamedOutputType,
    output_name: &str,
    lang: RenderLang,
) -> (r: String)
    ensures
        r@ == render_output_name(template_name@, output_type, output_name@, lang),
{
    let mut name = String::from_str("rusttemplate_render_template_");
    name.append(template_name);
    name.append("_");
    match output_type {
        NamedOutputType::ViewOutput => name.append("view"),
        NamedOutputType::StoreOutput => name.append("store"),
    }
    name.append("_");
    name.append(output_name);
    name.append("_");
    match lang {
        RenderLang::RenderHtml => name.append("html"),
        RenderLang::RenderJs => name.append("js"),
    }
    assert(name@ =~= render_output_name(template_name@, output_type, output_name@, lang));
    name
}

/// The name of the output that a request to render asks for. The request
/// names a template, an output type (`view` or `store`), a definition of the
/// template and a language (`html` or `js`, in any case of letters). The
/// output type is looked at first.
pub open spec fn spec_process_render(
    template_name: Seq<char>,
    output_ty: Seq<char>,
    output_name: Seq<char>,
    lang: Seq<char>,
) -> Result<Seq<char>, RenderError> {
    match spec_output_type_of(output_ty) {
        None => Err(RenderError::UnsupportedOutputType),
        Some(output_type) => match spec_render_lang_of(lowercase_text(lang)) {
            None => Err(RenderError::UnsupportedLanguage),
            Some(render_lang) => Ok(
                render_output_name(template_name, output_type, output_name, render_lang),
            ),
        },
    }
}

/// Finds the name of the output that a request to render asks for.
pub fn process_render(template_name: &str, output_ty: &str, output_name: &str, lang: &str) -> (r:
    Result<String, RenderError>)
    ensures
        match r {
            Ok(name) => spec_process_render(template_name@, output_ty@, output_name@, lang@)
                == Ok::<Seq<char>, RenderError>(name@),
            Err(e) => spec_process_render(template_name@, output_ty@, output_name@, lang@)
                == Err::<Seq<char>, RenderError>(e),
        },
{
    let output_type = match output_type_of(output_ty) {
        None => {
            return Err(RenderError::UnsupportedOutputType);
        },
        Some(output_type) => output_type,
    };
    let lang_str = to_lowercase(lang);
    match render_lang_of(lang_str.as_str()) {
        None => Err(RenderError::UnsupportedLanguage),
        Some(render_lang) => Ok(
            create_render_output_name(template_name, output_type, output_name, render_lang),
        ),
    }
}

/// The outputs of a template, each under its name.
#[derive(Debug)]
pub struct TemplateOutputs {
    /// For each view, in source order, the markup that it renders.
    pub html: Vec<NamedOutputExt<Html, String>>,
    /// For each view and each store, in source order, its JavaScript
    /// function.
    pub js: Vec<NamedOutputExt<Js, String>>,
}

/// The names and texts of `outputs`.
pub open spec fn named_texts<L: crate::codegen::Lang>(
    outputs: Seq<NamedOutputExt<L, String>>,
) -> Seq<(Seq<char>, Seq<char>)> {
    Seq::new(outputs.len(), |i: int| (outputs[i].name@, outputs[i].data@))
}

/// The markup outputs of a template's definitions: one for each view.
pub open spec fn html_outputs(template_name: Seq<char>, nodes: Seq<SpecTemplateNode>) -> Seq<
    (Seq<char>, Seq<char>),
>
    decreases nodes.len(),
{
    if nodes.len() == 0 {
        Seq::empty()
    } else {
        html_outputs(template_name, nodes.drop_last()) + match nodes.last() {
            SpecTemplateNode::ViewNode(name, view) => seq![
                (
                    render_output_name(
                        template_name,
                        NamedOutputType::ViewOutput,
                        name,
                        RenderLang::RenderHtml,
                    ),
                    html_actions_text(lower_nodes(view.contents)),
                ),
            ],
            SpecTemplateNode::StoreNode(_, _) => Seq::empty(),
        }
    }
}

/// The JavaScript outputs of a template's definitions: the function that
/// renders each view, and the reducer of each store.
pub open spec fn js_outputs(template_name: Seq<char>, nodes: Seq<SpecTemplateNode>) -> Seq<
    (Seq<char>, Seq<char>),
>
    decreases nodes.len(),
{
    if nodes.len() == 0 {
        Seq::empty()
    } else {
        js_outputs(template_name, nodes.drop_last()).push(
            match nodes.last() {
                SpecTemplateNode::ViewNode(name, view) => (
                    render_output_name(
                        template_name,
                        NamedOutputType::ViewOutput,
                        name,
                        RenderLang::RenderJs,
                    ),
                    js_view_text(view),
                ),
                SpecTemplateNode::StoreNode(name, store) => (
                    render_output_name(
                        template_name,
                        NamedOutputType::StoreOutput,
                        name,
                        RenderLang::RenderJs,
                    ),
                    js_store_text(store),
                ),
            },
        )
    }
}

impl TemplateNode {
    /// The name that the definition's outputs are known by.
    pub fn output_name(&self) -> (r: &str)
        ensures
            r@ == match self@ {
                SpecTemplateNode::ViewNode(name, _) => name,
                SpecTemplateNode::StoreNode(name, _) => name,
            },
    {
        match self {
            TemplateNode::ViewNode(view_name, _) => view_name.as_str(),
            TemplateNode::StoreNode(store_name, _) => store_name.as_str(),
        }
    }

    /// The kind of the definition's outputs.
    pub fn output_type(&self) -> (r: NamedOutputType)
        ensures
            r == match self@ {
                SpecTemplateNode::ViewNode(_, _) => NamedOutputType::ViewOutput,
                SpecTemplateNode::StoreNode(_, _) => NamedOutputType::StoreOutput,
            },
    {
        match self {
            TemplateNode::ViewNode(_, _) => NamedOutputType::ViewOutput,
            TemplateNode::StoreNode(_, _) => NamedOutputType::StoreOutput,
        }
    }
}

/// Renders each definition of `template` in each language it has an output
/// in.
pub fn define_lang_outputs(template: &Template) -> (r: TemplateOutputs)
    ensures
        named_texts(r.html@) == html_outputs(template@.name, template@.nodes),
        named_texts(r.js@) == js_outputs(template@.name, template@.nodes),
{
    let mut html: Vec<NamedOutputExt<Html, String>> = Vec::new();
    let mut js: Vec<NamedOutputExt<Js, String>> = Vec::new();
    let n = template.nodes.len();
    let ghost all = template@.nodes;
    let ghost template_name = template@.name;
    let mut i: usize = 0;
    assert(all.take(0) =~= Seq::empty());
    assert(named_texts(html@) =~= html_outputs(template_name, all.take(0)));
    assert(named_texts(js@) =~= js_outputs(template_name, all.take(0)));
    while i < n
        invariant
            n == template.nodes.len(),
            all == template@.nodes,
            template_name == template@.name,
            0 <= i <= n,
            named_texts(html@) == html_outputs(template_name, all.take(i as int)),
            named_texts(js@) == js_outputs(template_name, all.take(i as int)),
        decreases n - i,
    {
        let ghost html_before = named_texts(html@);
        let ghost js_before = named_texts(js@);
        let node = &template.nodes[i];
        let js_name = create_render_output_name(
            template.name.as_str(),
            node.output_type(),
            node.output_name(),
            RenderLang::RenderJs,
        );
        match node {
            TemplateNode::ViewNode(_, view) => {
                let html_name = create_render_output_name(
                    template.name.as_str(),
                    node.output_type(),
                    node.output_name(),
                    RenderLang::RenderHtml,
                );
                let html_data: String = ToData::<String, Html>::to_data(view);
                proof {
                    lemma_html_actions_strings_concat(lower_nodes(view@.contents));
                }
                let html_output = NamedOutputExt::create_named_output(
                    html_name.as_str(),
                    html_data,
                );
                html.push(html_output);
                let js_data: String = ToData::<String, Js>::to_data(view);
                proof {
                    lemma_concat_text_one(js_view_text(view@));
                }
                let js_output = NamedOutputExt::create_named_output(js_name.as_str(), js_data);
                js.push(js_output);
                assert(named_texts(html@) =~= html_before.push((html_output.name@, html_data@)));
                assert(named_texts(js@) =~= js_before.push((js_output.name@, js_data@)));
            },
            TemplateNode::StoreNode(_, store) => {
                let js_data: String = ToData::<String, Js>::to_data(store);
                proof {
                    lemma_concat_text_one(js_store_text(store@));
                }
                let js_output = NamedOutputExt::create_named_output(js_name.as_str(), js_data);
                js.push(js_output);
                assert(named_texts(js@) =~= js_before.push((js_output.name@, js_data@)));
                assert(named_texts(html@) =~= html_before + Seq::<
                    (Seq<char>, Seq<char>),
                >::empty());
            },
        }
        proof {
            let upto = all.take(i as int + 1);
            assert(upto.drop_last() =~= all.take(i as int));
            assert(upto.last() == template.nodes@[i as int]@);
            assert(named_texts(html@) =~= html_outputs(template_name, upto));
            assert(named_texts(js@) =~= js_outputs(template_name, upto));
        }
        i = i + 1;
    }
    assert(all.take(n as int) =~= all);
    TemplateOutputs { html, js }
}

/// Parses the template named `name` from `tokens` and renders its
/// definitions. A template that does not parse has no outputs; the outputs
/// of one that does can be told apart by their names.
pub fn expand_template(name: &str, tokens: Vec<Token>) -> (r: Result<TemplateOutputs, ParseError>)
    ensures
        match r {
            Ok(outputs) => spec_parse_template(views(tokens@), 0, name@) matches Ok(template)
                && named_texts(outputs.html@) == html_outputs(name@, template.nodes)
                && named_texts(outputs.js@) == js_outputs(name@, template.nodes)
                && distinct_names(named_texts(outputs.html@)) && distinct_names(
                named_texts(outputs.js@),
            ),
            Err(e) => spec_parse_template(views(tokens@), 0, name@) == Err::<
                SpecTemplate,
                SpecParseError,
            >(e@),
        },
{
    let mut parser = TokenCursor::new(tokens);
    match parse_template(&mut parser, name) {
        Err(e) => Err(e),
        Ok(template) => {
            proof {
                lemma_output_names_distinct(template@);
            }
            Ok(define_lang_outputs(&template))
        },
    }
}

/// Whether no two of `outputs` have one name.
pub open spec fn distinct_names(outputs: Seq<(Seq<char>, Seq<char>)>) -> bool {
    forall|i: int, j: int| 0 <= i < j < outputs.len() ==> outputs[i].0 != outputs[j].0
}

/// Two outputs of one template, one kind and one language have one name
/// only if their definitions have one name.
pub proof fn lemma_output_name_tells_the_definition(
    template_name: Seq<char>,
    output_type: NamedOutputType,
    a: Seq<char>,
    b: Seq<char>,
    lang: RenderLang,
)
    requires
        render_output_name(template_name, output_type, a, lang) == render_output_name(
            template_name,
            output_type,
            b,
            lang,
        ),
    ensures
        a == b,
{
    let front = "rusttemplate_render_template_"@ + template_name + "_"@ + output_type_text(
        output_type,
    ) + "_"@;
    let back = "_"@ + render_lang_text(lang);
    let with_a = render_output_name(template_name, output_type, a, lang);
    let with_b = render_output_name(template_name, output_type, b, lang);
    assert(with_a =~= front + a + back);
    assert(with_b =~= front + b + back);
    assert(a.len() == b.len());
    assert forall|i: int| 0 <= i < a.len() implies a[i] == b[i] by {
        assert(with_a[front.len() + i] == a[i]);
        assert(with_b[front.len() + i] == b[i]);
    }
    assert(a =~= b);
}

/// An output of a view and an output of a store never have one name.
pub proof fn lemma_output_name_tells_the_kind(
    template_name: Seq<char>,
    view_name: Seq<char>,
    view_lang: RenderLang,
    store_name: Seq<char>,
    store_lang: RenderLang,
)
    ensures
        render_output_name(template_name, NamedOutputType::ViewOutput, view_name, view_lang)
            != render_output_name(
            template_name,
            NamedOutputType::StoreOutput,
            store_name,
            store_lang,
        ),
{
    reveal_strlit("view");
    reveal_strlit("store");
    let front = "rusttemplate_render_template_"@ + template_name + "_"@;
    let of_view = render_output_name(
        template_name,
        NamedOutputType::ViewOutput,
        view_name,
        view_lang,
    );
    let of_store = render_output_name(
        template_name,
        NamedOutputType::StoreOutput,
        store_name,
        store_lang,
    );
    assert(of_view =~= front + "view"@ + ("_"@ + view_name + "_"@ + render_lang_text(view_lang)));
    assert(of_store =~= front + "store"@ + ("_"@ + store_name + "_"@ + render_lang_text(
        store_lang,
    )));
    assert(of_view[front.len() as int] == 'v');
    assert(of_store[front.len() as int] == 's');
}

/// The name of the JavaScript output of a definition.
pub open spec fn js_output_name(template_name: Seq<char>, node: SpecTemplateNode) -> Seq<char> {
    match node {
        SpecTemplateNode::ViewNode(name, _) => render_output_name(
            template_name,
            NamedOutputType::ViewOutput,
            name,
            RenderLang::RenderJs,
        ),
        SpecTemplateNode::StoreNode(name, _) => render_output_name(
            template_name,
            NamedOutputType::StoreOutput,
            name,
            RenderLang::RenderJs,
        ),
    }
}

/// A template has one JavaScript output for each definition, in source
/// order and under the definition's output name.
pub proof fn lemma_js_outputs_follow_the_definitions(
    template_name: Seq<char>,
    nodes: Seq<SpecTemplateNode>,
)
    ensures
        js_outputs(template_name, nodes).len() == nodes.len(),
        forall|i: int|
            0 <= i < nodes.len() ==> (#[trigger] js_outputs(template_name, nodes)[i]).0
                == js_output_name(template_name, nodes[i]),
    decreases nodes.len(),
{
    if nodes.len() > 0 {
        lemma_js_outputs_follow_the_definitions(template_name, nodes.drop_last());
        let outputs = js_outputs(template_name, nodes);
        let front = js_outputs(template_name, nodes.drop_last());
        assert forall|i: int| 0 <= i < nodes.len() implies (#[trigger] outputs[i]).0
            == js_output_name(template_name, nodes[i]) by {
            if i < nodes.len() - 1 {
                assert(outputs[i] == front[i]);
                assert(nodes.drop_last()[i] == nodes[i]);
            }
        }
    }
}

/// Each markup output of a template is the output of one of its views: the
/// last one that of the last definition, if that is a view, and every other
/// one that of an earlier definition.
proof fn lemma_html_outputs_come_from_views(
    template_name: Seq<char>,
    nodes: Seq<SpecTemplateNode>,
    i: int,
) -> (k: int)
    requires
        0 <= i < html_outputs(template_name, nodes).len(),
    ensures
        0 <= k < nodes.len(),
        nodes[k] is ViewNode,
        html_outputs(template_name, nodes)[i].0 == render_output_name(
            template_name,
            NamedOutputType::ViewOutput,
            nodes[k]->ViewNode_0,
            RenderLang::RenderHtml,
        ),
        i == html_outputs(template_name, nodes).len() - 1 && nodes.last() is ViewNode ==> k
            == nodes.len() - 1,
        !(i == html_outputs(template_name, nodes).len() - 1 && nodes.last() is ViewNode) ==> k
            < nodes.len() - 1 && i < html_outputs(template_name, nodes.drop_last()).len(),
    decreases nodes.len(),
{
    let front = html_outputs(template_name, nodes.drop_last());
    if i < front.len() {
        let k = lemma_html_outputs_come_from_views(template_name, nodes.drop_last(), i);
        assert(nodes.drop_last()[k] == nodes[k]);
        k
    } else {
        nodes.len() - 1
    }
}

/// The outputs of a template in one language can be told apart by their
/// names: where no two views of the template have one name, and no two
/// stores, no two of its markup outputs have one name, and no two of its
/// JavaScript outputs.
pub proof fn lemma_output_names_distinct(template: SpecTemplate)
    requires
        unique_names(template.nodes),
    ensures
        distinct_names(html_outputs(template.name, template.nodes)),
        distinct_names(js_outputs(template.name, template.nodes)),
    decreases template.nodes.len(),
{
    let nodes = template.nodes;
    let js = js_outputs(template.name, nodes);
    lemma_js_outputs_follow_the_definitions(template.name, nodes);
    assert forall|i: int, j: int| 0 <= i < j < js.len() implies js[i].0 != js[j].0 by {
        match (nodes[i], nodes[j]) {
            (SpecTemplateNode::ViewNode(a, _), SpecTemplateNode::ViewNode(b, _)) => {
                if js[i].0 == js[j].0 {
                    lemma_output_name_tells_the_definition(
                        template.name,
                        NamedOutputType::ViewOutput,
                        a,
                        b,
                        RenderLang::RenderJs,
                    );
                }
            },
            (SpecTemplateNode::StoreNode(a, _), SpecTemplateNode::StoreNode(b, _)) => {
                if js[i].0 == js[j].0 {
                    lemma_output_name_tells_the_definition(
                        template.name,
                        NamedOutputType::StoreOutput,
                        a,
                        b,
                        RenderLang::RenderJs,
                    );
                }
            },
            (SpecTemplateNode::ViewNode(a, _), SpecTemplateNode::StoreNode(b, _)) => {
                lemma_output_name_tells_the_kind(
                    template.name,
                    a,
                    RenderLang::RenderJs,
                    b,
                    RenderLang::RenderJs,
                );
            },
            (SpecTemplateNode::StoreNode(a, _), SpecTemplateNode::ViewNode(b, _)) => {
                lemma_output_name_tells_the_kind(
                    template.name,
                    b,
                    RenderLang::RenderJs,
                    a,
                    RenderLang::RenderJs,
                );
            },
        }
    }
    if nodes.len() > 0 {
        let front = SpecTemplate { name: template.name, nodes: nodes.drop_last() };
        assert forall|i: int, j: int| 0 <= i < j < front.nodes.len() implies match (
            #[trigger] front.nodes[i],
            #[trigger] front.nodes[j],
        ) {
            (SpecTemplateNode::ViewNode(a, _), SpecTemplateNode::ViewNode(b, _)) => a != b,
            (SpecTemplateNode::StoreNode(a, _), SpecTemplateNode::StoreNode(b, _)) => a != b,
            _ => true,
        } by {
            assert(front.nodes[i] == nodes[i]);
            assert(front.nodes[j] == nodes[j]);
        }
        lemma_output_names_distinct(front);
        let html = html_outputs(template.name, nodes);
        let html_front = html_outputs(template.name, front.nodes);
        assert forall|i: int, j: int| 0 <= i < j < html.len() implies html[i].0 != html[j].0 by {
            if j < html_front.len() {
                assert(html[i] == html_front[i]);
                assert(html[j] == html_front[j]);
            } else {
                let k = lemma_html_outputs_come_from_views(template.name, nodes, i);
                let last = lemma_html_outputs_come_from_views(template.name, nodes, j);
                assert(nodes[k] is ViewNode && nodes[last] is ViewNode);
                if html[i].0 == html[j].0 {
                    lemma_output_name_tells_the_definition(
                        template.name,
                        NamedOutputType::ViewOutput,
                        nodes[k]->ViewNode_0,
                        nodes[last]->ViewNode_0,
                        RenderLang::RenderHtml,
                    );
                }
            }
        }
    }
}

} // verus!
