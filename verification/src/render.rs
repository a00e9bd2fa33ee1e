//! The demonstration page: one fixed view, rendered as markup in the page
//! and as the script that patches it in the browser.

use vstd::prelude::*;
use vstd::string::StringExecFns;
use crate::common_write::WriteText;
use crate::html_write::{html_actions_text, WriteHtml};
use crate::js_write::WriteJsFunctions;
use crate::nodes::content_node::{
    lemma_element_node_view, ContentNode, LitValue, SpecContentNode, SpecElement, SpecLitValue,
};
use crate::nodes::element_node::Element;
use crate::nodes::view_node::{js_view_text, SpecTemplateView, TemplateView};
use crate::output_actions::lower_nodes;
use crate::token::views;

verus! {

/// An element that holds one text.
pub open spec fn text_element(tag: Seq<char>, text: Seq<char>) -> SpecContentNode {
    SpecContentNode::ElementNode(
        SpecElement {
            tag,
            contents: seq![SpecContentNode::LiteralNode(SpecLitValue::LitString(text))],
        },
    )
}

/// The view of the demonstration page: a heading and a paragraph.
pub open spec fn demo_view() -> SpecTemplateView {
    SpecTemplateView {
        name: "root"@,
        contents: seq![text_element("h1"@, "Heading"@), text_element("p"@, "testing"@)],
    }
}

/// The script that starts patching the page when the reader asks for it.
pub const ENTRY_SCRIPT: &'static str =
    "\n\n            document.addEventListener('DOMContentLoaded', function() {\n                var root = document.querySelector('#root');\n                var data = {};\n                function startRendering() {\n                    setInterval(function() {\n                        console.log('Patching IncrementalDOM');\n                        IncrementalDOM.patch(root, render_view_root, data);\n                    }, 1000);\n                };\n\n                document.querySelector('#actions .render').addEventListener('click', function() { startRendering(); });\n            });";

/// The demonstration page around the markup `html` of the view and the
/// script `js` that renders it.
pub open spec fn page_text(html: Seq<char>, js: Seq<char>) -> Seq<char> {
    "<html><head><title>incrust demo</title>"@
        + "<script src=\"/assets/js/incremental-dom.js\"></script>"@ + "<script>"@ + js
        + "</script>"@ + "<script>"@ + ENTRY_SCRIPT@ + "</script>"@ + "</head><body>"@
        + "<div id=\"root\">"@ + html + "</div>"@ + "<br /><div id=\"js-code\"><code>"@ + js
        + "</code></div>"@
        + "<br /><div id=\"actions\"><a class=\"render\" href=\"#\">start rendering</a></div>"@
        + "</body></html>"@
}

/// An element with the tag `tag` that holds the text `text`.
fn create_text_element(tag: &str, text: &str) -> (r: ContentNode)
    ensures
        r@ == text_element(tag@, text@),
{
    let mut contents: Vec<ContentNode> = Vec::new();
    contents.push(ContentNode::LiteralNode(LitValue::LitString(text.to_owned())));
    let element = Element { tag: tag.to_owned(), contents };
    proof {
        lemma_element_node_view(element);
        assert(views(element.contents@) =~= seq![
            SpecContentNode::LiteralNode(SpecLitValue::LitString(text@)),
        ]);
    }
    ContentNode::ElementNode(element)
}

/// Renders the view of the demonstration page: its function is written to
/// `js`, and its markup is returned.
pub fn render_template(js: &mut String) -> (r: String)
    ensures
        final(js)@ == old(js)@ + js_view_text(demo_view()),
        r@ == html_actions_text(lower_nodes(demo_view().contents)),
{
    let mut contents: Vec<ContentNode> = Vec::new();
    contents.push(create_text_element("h1", "Heading"));
    contents.push(create_text_element("p", "testing"));
    let view = TemplateView { name: String::from_str("root"), contents };
    proof {
        assert(views(view.contents@) =~= demo_view().contents);
        assert(view@ == demo_view());
    }
    view.write_js_functions(js);
    let mut out = String::new();
    view.write_html(&mut out);
    assert(out@ =~= html_actions_text(lower_nodes(demo_view().contents)));
    out
}

/// Writes the demonstration page to `page`.
pub fn render_page(page: &mut String)
    ensures
        final(page)@ == old(page)@ + page_text(
            html_actions_text(lower_nodes(demo_view().contents)),
            js_view_text(demo_view()),
        ),
{
    let mut js = String::new();
    let s = render_template(&mut js);
    assert(js@ =~= js_view_text(demo_view()));
    page.write_text("<html><head><title>incrust demo</title>");
    page.write_text("<script src=\"/assets/js/incremental-dom.js\"></script>");
    page.write_text("<script>");
    page.write_text(js.as_str());
    page.write_text("</script>");
    page.write_text("<script>");
    page.write_text(ENTRY_SCRIPT);
    page.write_text("</script>");
    page.write_text("</head><body>");
    page.write_text("<div id=\"root\">");
    page.write_text(s.as_str());
    page.write_text("</div>");
    page.write_text("<br /><div id=\"js-code\"><code>");
    page.write_text(js.as_str());
    page.write_text("</code></div>");
    page.write_text(
        "<br /><div id=\"actions\"><a class=\"render\" href=\"#\">start rendering</a></div>",
    );
    page.write_text("</body></html>");
    assert(page@ =~= old(page)@ + page_text(s@, js@));
}

/// The demonstration page.
pub fn render() -> (r: String)
    ensures
        r@ == page_text(
            html_actions_text(lower_nodes(demo_view().contents)),
            js_view_text(demo_view()),
        ),
{
    let mut page = String::new();
    render_page(&mut page);
    assert(page@ =~= page_text(
        html_actions_text(lower_nodes(demo_view().contents)),
        js_view_text(demo_view()),
    ));
    page
}

} // verus!
