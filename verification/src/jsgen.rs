//! JavaScript source text as a value.

use vstd::prelude::*;
use crate::js_write::{js_action_text, WriteJs};
use crate::output_actions::OutputAction;

verus! {

/// Something that becomes one JavaScript statement.
pub trait IntoJsOutputCall {
    /// The statement's text.
    spec fn js_output_call_text(&self) -> Seq<char>;

    fn into_js_output_call(&self) -> (r: String)
        ensures
            r@ == self.js_output_call_text(),
    ;
}

impl IntoJsOutputCall for OutputAction {
    open spec fn js_output_call_text(&self) -> Seq<char> {
        js_action_text(self@)
    }

    fn into_js_output_call(&self) -> (r: String) {
        let mut out = String::new();
        self.write_js(&mut out);
        assert(out@ =~= js_action_text(self@));
        out
    }
}

/// Something that becomes one JavaScript function.
pub trait IntoJsFunction {
    /// The function's text.
    spec fn js_function_source(&self) -> Seq<char>;

    fn into_js_function(&self) -> (r: String)
        ensures
            r@ == self.js_function_source(),
    ;
}

} // verus!
