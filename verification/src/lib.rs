//! A templating language that is compiled with the program that uses it.
//!
//! A template holds views and stores. A view is markup, written as nested
//! elements in brackets with texts and expressions in braces; a store is a
//! named state with a default value and the values that actions give it.
//! The library takes the tokens of a template, as the host language has cut
//! them, and works in three steps:
//!
//! 1. The parsers ([`nodes`], [`simple_expr`], [`object_expr`], [`value`])
//!    read the tokens from a [`token::TokenCursor`] into trees. A syntax
//!    error ends the parse of the whole template ([`error::ParseError`]).
//! 2. Lowering ([`output_actions`]) flattens the contents of a view into
//!    output actions, in document order ([`laws`]).
//! 3. The backends render output actions as markup ([`html_write`]) and as
//!    calls against an incremental-DOM API ([`js_write`]), and stores as
//!    reducer functions ([`nodes::store_node`]).
//!
//! [`template_syntax::expand_template`] runs all three and hands back the
//! outputs of a template under their names.
//!
//! Each data type has a mathematical value, its view, and each function says
//! in its contract what it computes as a function of those values.

pub mod codegen;
pub mod common_write;
pub mod compiled_view;
pub mod error;
pub mod expr;
pub mod html_write;
pub mod js_write;
pub mod jsgen;
pub mod laws;
pub mod nodes;
pub mod object_expr;
pub mod output;
pub mod output_actions;
pub mod render;
pub mod simple_expr;
pub mod template_syntax;
pub mod token;
pub mod unicode;
pub mod value;
