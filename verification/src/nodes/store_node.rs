//! Stores: a named state with a default value and the values that actions
//! give it.

use vstd::prelude::*;
use vstd::std_specs::cmp::PartialEqSpecImpl;
use vstd::string::StringExecFns;
use crate::common_write::WriteText;
use crate::error::{ParseError, SpecParseError};
use crate::js_write::{
    arg_texts, js_case_text, js_default_text, js_function_text, js_switch_text, JsWrite,
    JsWriteFunctions, JsWriteSwitchBody, WriteJsFunctions, WriteJsSwitchBody,
};
use crate::output_actions::{
    IntoOutputActions, OutputAction, OutputActionWrite, SpecOutputAction, WriteOutputActions,
};
use crate::token::{token_at, views, Delim, SpecCursor, SpecToken, Token, TokenCursor};
use crate::unicode::{to_uppercase, uppercase_text};
use crate::value::{
    js_value_text, lemma_value_bounds, parse_value, spec_parse_value, SpecValue, Value, WriteAs,
};

verus! {

/// One arm of a store.
#[derive(Debug)]
pub enum StoreNode {
    /// The value that the store starts with.
    DefaultExpr(Value),
    /// The value that the store takes when the named action arrives. The
    /// name is in upper case.
    ActionExpr(String, Value),
}

/// The mathematical value of a [`StoreNode`].
pub enum SpecStoreNode {
    DefaultExpr(SpecValue),
    ActionExpr(Seq<char>, SpecValue),
}

impl View for StoreNode {
    type V = SpecStoreNode;

    open spec fn view(&self) -> SpecStoreNode {
        match self {
            StoreNode::DefaultExpr(value) => SpecStoreNode::DefaultExpr(value@),
            StoreNode::ActionExpr(action, value) => SpecStoreNode::ActionExpr(action@, value@),
        }
    }
}

impl Clone for StoreNode {
    fn clone(&self) -> (r: StoreNode)
        ensures
            r@ == self@,
    {
        match self {
            StoreNode::DefaultExpr(value) => StoreNode::DefaultExpr(value.clone()),
            StoreNode::ActionExpr(action, value) => StoreNode::ActionExpr(
                action.clone(),
                value.clone(),
            ),
        }
    }
}

impl PartialEq for StoreNode {
    fn eq(&self, other: &StoreNode) -> (r: bool) {
        match self {
            StoreNode::DefaultExpr(value) => match other {
                StoreNode::DefaultExpr(v) => *value == *v,
                _ => false,
            },
            StoreNode::ActionExpr(action, value) => match other {
                StoreNode::ActionExpr(a, v) => *action == *a && *value == *v,
                _ => false,
            },
        }
    }
}

impl PartialEqSpecImpl for StoreNode {
    open spec fn obeys_eq_spec() -> bool {
        true
    }

    open spec fn eq_spec(&self, other: &StoreNode) -> bool {
        self@ == other@
    }
}

/// A store: its name and its arms in source order.
#[derive(Debug)]
pub struct Store {
    pub name: String,
    pub arms: Vec<StoreNode>,
}

/// The mathematical value of a [`Store`].
pub struct SpecStore {
    pub name: Seq<char>,
    pub arms: Seq<SpecStoreNode>,
}

impl View for Store {
    type V = SpecStore;

    open spec fn view(&self) -> SpecStore {
        SpecStore { name: self.name@, arms: views(self.arms@) }
    }
}

impl Store {
    /// The store named `name` with the arms `nodes`.
    pub fn with_nodes(name: &str, nodes: Vec<StoreNode>) -> (r: Store)
        ensures
            r@ == (SpecStore { name: name@, arms: views(nodes@) }),
    {
        Store { name: name.to_owned(), arms: nodes }
    }

    /// The store named `name` without arms.
    pub fn empty(name: &str) -> (r: Store)
        ensures
            r@ == (SpecStore { name: name@, arms: Seq::empty() }),
    {
        let r = Store { name: name.to_owned(), arms: Vec::new() };
        assert(r@.arms =~= Seq::empty());
        r
    }

    /// The name of the store.
    pub fn name(&self) -> (r: &str)
        ensures
            r@ == self@.name,
    {
        self.name.as_str()
    }
}

impl Clone for Store {
    fn clone(&self) -> (r: Store)
        ensures
            r@ == self@,
    {
        let mut arms: Vec<StoreNode> = Vec::new();
        let n = self.arms.len();
        let mut i: usize = 0;
        while i < n
            invariant
                n == self.arms.len(),
                0 <= i <= n,
                arms@.len() == i,
                forall|j: int| 0 <= j < i ==> arms@[j]@ == self.arms@[j]@,
            decreases n - i,
        {
            arms.push(self.arms[i].clone());
            i = i + 1;
        }
        assert(views(arms@) =~= views(self.arms@));
        Store { name: self.name.clone(), arms }
    }
}

impl PartialEq for Store {
    fn eq(&self, other: &Store) -> (r: bool) {
        let n = self.arms.len();
        if !(self.name == other.name) || n != other.arms.len() {
            assert(self@.name != other@.name || self@.arms.len() != other@.arms.len());
            return false;
        }
        let mut i: usize = 0;
        while i < n
            invariant
                n == self.arms.len(),
                n == other.arms.len(),
                0 <= i <= n,
                forall|j: int| 0 <= j < i ==> self.arms@[j]@ == other.arms@[j]@,
            decreases n - i,
        {
            if !(self.arms[i] == other.arms[i]) {
                assert(self@.arms[i as int] != other@.arms[i as int]);
                return false;
            }
            i = i + 1;
        }
        assert(self@.arms =~= other@.arms);
        true
    }
}

impl PartialEqSpecImpl for Store {
    open spec fn obeys_eq_spec() -> bool {
        true
    }

    open spec fn eq_spec(&self, other: &Store) -> bool {
        self@ == other@
    }
}

/// The two kinds of store arm.
#[derive(Clone, Copy, Debug, PartialEq, Eq, Structural)]
pub enum StoreArmType {
    DefaultArm,
    ActionArm,
}

/// The result of parsing one arm.
pub type ArmParse = Result<(SpecStoreNode, int), SpecParseError>;

/// The result of parsing the arms of a store: the arms and the position of
/// the brace that closes them.
pub type ArmsParse = Result<(Seq<SpecStoreNode>, int), SpecParseError>;

/// The kind of the arm that starts with the word at `pos`.
pub open spec fn spec_parse_store_arm_keyword(tokens: Seq<SpecToken>, pos: int) -> Result<
    (StoreArmType, int),
    SpecParseError,
> {
    match token_at(tokens, pos) {
        SpecToken::Ident(label) => if label == "action"@ {
            Ok((StoreArmType::ActionArm, pos + 1))
        } else if label == "default"@ {
            Ok((StoreArmType::DefaultArm, pos + 1))
        } else {
            Err(SpecParseError::UnsupportedArm { pos, label })
        },
        found => Err(SpecParseError::ExpectedIdent { pos, found }),
    }
}

/// The name of the action written at `pos`, in upper case.
pub open spec fn spec_parse_action_str(tokens: Seq<SpecToken>, pos: int) -> Result<
    (Seq<char>, int),
    SpecParseError,
> {
    match (SpecCursor { tokens, pos }).parse_ident() {
        Err(e) => Err(e),
        Ok((name, end)) => Ok((uppercase_text(name), end)),
    }
}

/// The value written as `=> value` at `pos`.
pub open spec fn spec_parse_arm_value(tokens: Seq<SpecToken>, pos: int) -> Result<
    (SpecValue, int),
    SpecParseError,
> {
    match (SpecCursor { tokens, pos }).expect(SpecToken::FatArrow) {
        Err(e) => Err(e),
        Ok(start) => spec_parse_value(tokens, start),
    }
}

/// The arm for the action `action_name`, whose value is written as
/// `=> value` at `pos`.
pub open spec fn spec_parse_action_arm(
    tokens: Seq<SpecToken>,
    pos: int,
    action_name: Seq<char>,
) -> ArmParse {
    match spec_parse_arm_value(tokens, pos) {
        Err(e) => Err(e),
        Ok((value, end)) => Ok((SpecStoreNode::ActionExpr(action_name, value), end)),
    }
}

/// The arm at `pos`: `default => value`, or `action NAME => value`.
pub open spec fn spec_parse_store_arm(tokens: Seq<SpecToken>, pos: int) -> ArmParse {
    match spec_parse_store_arm_keyword(tokens, pos) {
        Err(e) => Err(e),
        Ok((StoreArmType::ActionArm, name_pos)) => match spec_parse_action_str(tokens, name_pos) {
            Err(e) => Err(e),
            Ok((action_name, arrow)) => spec_parse_action_arm(tokens, arrow, action_name),
        },
        Ok((StoreArmType::DefaultArm, arrow)) => match spec_parse_arm_value(tokens, arrow) {
            Err(e) => Err(e),
            Ok((value, end)) => Ok((SpecStoreNode::DefaultExpr(value), end)),
        },
    }
}

/// An arm ends behind its start and within the input.
pub proof fn lemma_store_arm_bounds(tokens: Seq<SpecToken>, pos: int)
    requires
        0 <= pos <= tokens.len(),
    ensures
        spec_parse_store_arm(tokens, pos) matches Ok((_, end)) ==> pos < end <= tokens.len(),
{
    if pos + 2 < tokens.len() {
        lemma_value_bounds(tokens, pos + 2);
    }
    if pos + 3 < tokens.len() {
        lemma_value_bounds(tokens, pos + 3);
    }
}

/// `rest` with `first` put in front of its arms.
pub open spec fn with_first_arms(first: Seq<SpecStoreNode>, rest: ArmsParse) -> ArmsParse {
    match rest {
        Ok((arms, end)) => Ok((first + arms, end)),
        Err(e) => Err(e),
    }
}

/// The arms from `pos` up to the closing brace, which is left unread. Two
/// arms are separated by a semicolon, which `pos` stands at unless `first`
/// says that no arm was read yet; a semicolon may also follow the last arm.
pub open spec fn spec_parse_store_arms(tokens: Seq<SpecToken>, pos: int, first: bool) -> ArmsParse
    decreases tokens.len() - pos,
{
    if token_at(tokens, pos) == SpecToken::CloseDelim(Delim::Brace) {
        Ok((Seq::empty(), pos))
    } else {
        match (if first {
            Ok(pos)
        } else {
            (SpecCursor { tokens, pos }).expect(SpecToken::Semi)
        }) {
            Err(e) => Err(e),
            Ok(start) => if !first && token_at(tokens, start) == SpecToken::CloseDelim(
                Delim::Brace,
            ) {
                Ok((Seq::empty(), start))
            } else {
                match spec_parse_store_arm(tokens, start) {
                    Err(e) => Err(e),
                    Ok((arm, end)) => {
                        proof {
                            lemma_store_arm_bounds(tokens, start);
                        }
                        with_first_arms(seq![arm], spec_parse_store_arms(tokens, end, false))
                    },
                }
            },
        }
    }
}

/// The arms of a store end at or behind their start, at a closing brace
/// inside the input.
pub proof fn lemma_store_arms_bounds(tokens: Seq<SpecToken>, pos: int, first: bool)
    requires
        0 <= pos <= tokens.len(),
    ensures
        spec_parse_store_arms(tokens, pos, first) matches Ok((_, end)) ==> pos <= end
            < tokens.len() && tokens[end] == SpecToken::CloseDelim(Delim::Brace),
    decreases tokens.len() - pos,
{
    if token_at(tokens, pos) != SpecToken::CloseDelim(Delim::Brace) {
        let start = if first {
            pos
        } else {
            pos + 1
        };
        if (first || token_at(tokens, pos) == SpecToken::Semi) && !(!first && token_at(
            tokens,
            start,
        ) == SpecToken::CloseDelim(Delim::Brace)) {
            lemma_store_arm_bounds(tokens, start);
            match spec_parse_store_arm(tokens, start) {
                Ok((_, end)) => {
                    lemma_store_arms_bounds(tokens, end, false);
                },
                Err(_) => {},
            }
        }
    }
}

/// The store written as `name { arm; arm; .. }` at `pos`, with the position
/// behind its closing brace.
pub open spec fn spec_parse_store(tokens: Seq<SpecToken>, pos: int) -> Result<
    (SpecStore, int),
    SpecParseError,
> {
    match (SpecCursor { tokens, pos }).parse_ident() {
        Err(e) => Err(e),
        Ok((name, open)) => match (SpecCursor { tokens, pos: open }).expect(
            SpecToken::OpenDelim(Delim::Brace),
        ) {
            Err(e) => Err(e),
            Ok(inner) => match spec_parse_store_arms(tokens, inner, true) {
                Err(e) => Err(e),
                Ok((arms, close)) => match (SpecCursor { tokens, pos: close }).expect(
                    SpecToken::CloseDelim(Delim::Brace),
                ) {
                    Err(e) => Err(e),
                    Ok(end) => Ok((SpecStore { name, arms }, end)),
                },
            },
        }
    }
}

/// Reads the word that an arm starts with, `default` or `action`. Any other
/// word is an error, and the cursor stays at it.
pub fn parse_store_arm_keyword(parser: &mut TokenCursor) -> (r: Result<StoreArmType, ParseError>)
    ensures
        final(parser)@.tokens == old(parser)@.tokens,
        match r {
            Ok(arm_type) => spec_parse_store_arm_keyword(old(parser)@.tokens, old(parser)@.pos)
                == Ok::<(StoreArmType, int), SpecParseError>((arm_type, final(parser)@.pos)),
            Err(e) => spec_parse_store_arm_keyword(old(parser)@.tokens, old(parser)@.pos)
                == Err::<(StoreArmType, int), SpecParseError>(e@) && final(parser)@.pos
                == e@.position(),
        },
{
    let pos = parser.position();
    let arm_type = match parser.peek() {
        Token::Ident(ident) => {
            if *ident == String::from_str("action") {
                StoreArmType::ActionArm
            } else if *ident == String::from_str("default") {
                StoreArmType::DefaultArm
            } else {
                return Err(ParseError::UnsupportedArm { pos, label: ident.clone() });
            }
        },
        found => {
            return Err(ParseError::ExpectedIdent { pos, found: found.clone() });
        },
    };
    parser.advance();
    Ok(arm_type)
}

/// Reads the name of an action and puts it in upper case.
pub fn parse_action_str(parser: &mut TokenCursor) -> (r: Result<String, ParseError>)
    ensures
        final(parser)@.tokens == old(parser)@.tokens,
        match r {
            Ok(name) => spec_parse_action_str(old(parser)@.tokens, old(parser)@.pos) == Ok::<
                (Seq<char>, int),
                SpecParseError,
            >((name@, final(parser)@.pos)),
            Err(e) => spec_parse_action_str(old(parser)@.tokens, old(parser)@.pos) == Err::<
                (Seq<char>, int),
                SpecParseError,
            >(e@) && final(parser)@.pos == e@.position(),
        },
{
    match parser.parse_ident() {
        Err(e) => Err(e),
        Ok(ident) => Ok(to_uppercase(ident.as_str())),
    }
}

/// Parses `=> value`.
pub fn parse_arm_value(parser: &mut TokenCursor) -> (r: Result<Value, ParseError>)
    ensures
        final(parser)@.tokens == old(parser)@.tokens,
        match r {
            Ok(value) => spec_parse_arm_value(old(parser)@.tokens, old(parser)@.pos) == Ok::<
                (SpecValue, int),
                SpecParseError,
            >((value@, final(parser)@.pos)),
            Err(e) => spec_parse_arm_value(old(parser)@.tokens, old(parser)@.pos) == Err::<
                (SpecValue, int),
                SpecParseError,
            >(e@) && final(parser)@.pos == e@.position(),
        },
{
    match parser.expect(&Token::FatArrow) {
        Err(e) => {
            return Err(e);
        },
        Ok(_) => {},
    }
    parse_value(parser)
}

/// Parses the rest of the arm for the action `action_name`: `=> value`.
pub fn parse_action_arm(parser: &mut TokenCursor, action_name: String) -> (r: Result<
    StoreNode,
    ParseError,
>)
    ensures
        final(parser)@.tokens == old(parser)@.tokens,
        match r {
            Ok(arm) => spec_parse_action_arm(
                old(parser)@.tokens,
                old(parser)@.pos,
                action_name@,
            ) == Ok::<(SpecStoreNode, int), SpecParseError>((arm@, final(parser)@.pos)),
            Err(e) => spec_parse_action_arm(old(parser)@.tokens, old(parser)@.pos, action_name@)
                == Err::<(SpecStoreNode, int), SpecParseError>(e@) && final(parser)@.pos
                == e@.position(),
        },
{
    match parse_arm_value(parser) {
        Err(e) => Err(e),
        Ok(value) => Ok(StoreNode::ActionExpr(action_name, value)),
    }
}

/// Parses one arm: `default => value`, or `action NAME => value`.
pub fn parse_store_arm(parser: &mut TokenCursor) -> (r: Result<StoreNode, ParseError>)
    ensures
        final(parser)@.tokens == old(parser)@.tokens,
        match r {
            Ok(arm) => spec_parse_store_arm(old(parser)@.tokens, old(parser)@.pos) == Ok::<
                (SpecStoreNode, int),
                SpecParseError,
            >((arm@, final(parser)@.pos)),
            Err(e) => spec_parse_store_arm(old(parser)@.tokens, old(parser)@.pos) == Err::<
                (SpecStoreNode, int),
                SpecParseError,
            >(e@) && final(parser)@.pos == e@.position(),
        },
{
    let arm_type = match parse_store_arm_keyword(parser) {
        Err(e) => {
            return Err(e);
        },
        Ok(arm_type) => arm_type,
    };
    match arm_type {
        StoreArmType::ActionArm => {
            let action_str = match parse_action_str(parser) {
                Err(e) => {
                    return Err(e);
                },
                Ok(name) => name,
            };
            parse_action_arm(parser, action_str)
        },
        StoreArmType::DefaultArm => {
            match parse_arm_value(parser) {
                Err(e) => Err(e),
                Ok(value) => Ok(StoreNode::DefaultExpr(value)),
            }
        },
    }
}

/// Parses `name { arm; arm; .. }`, closing brace included. A store may have
/// any number of arms of either kind.
pub fn parse_store(parser: &mut TokenCursor) -> (r: Result<Store, ParseError>)
    ensures
        final(parser)@.tokens == old(parser)@.tokens,
        match r {
            Ok(store) => spec_parse_store(old(parser)@.tokens, old(parser)@.pos) == Ok::<
                (SpecStore, int),
                SpecParseError,
            >((store@, final(parser)@.pos)) && old(parser)@.pos < final(parser)@.pos,
            Err(e) => spec_parse_store(old(parser)@.tokens, old(parser)@.pos) == Err::<
                (SpecStore, int),
                SpecParseError,
            >(e@) && final(parser)@.pos == e@.position(),
        },
{
    let name_pos = parser.position();
    let name = match parser.parse_ident() {
        Err(e) => {
            return Err(e);
        },
        Ok(name) => name,
    };
    match parser.expect(&Token::OpenDelim(Delim::Brace)) {
        Err(e) => {
            return Err(e);
        },
        Ok(_) => {},
    }
    let mut arms: Vec<StoreNode> = Vec::new();
    let ghost tokens = parser@.tokens;
    let inner = parser.position();
    let ghost whole = spec_parse_store_arms(tokens, inner as int, true);
    let mut first = true;
    proof {
        match whole {
            Ok((all, _)) => {
                assert(views(arms@) + all =~= all);
            },
            Err(_) => {},
        }
    }
    loop
        invariant_except_break
            whole == with_first_arms(
                views(arms@),
                spec_parse_store_arms(tokens, parser@.pos, first),
            ),
        invariant
            tokens == old(parser)@.tokens,
            parser@.tokens == tokens,
            name_pos == old(parser)@.pos,
            inner == name_pos + 2,
            token_at(tokens, name_pos as int) == SpecToken::Ident(name@),
            token_at(tokens, name_pos + 1) == SpecToken::OpenDelim(Delim::Brace),
            whole == spec_parse_store_arms(tokens, inner as int, true),
            inner <= parser@.pos <= tokens.len(),
        ensures
            whole == Ok::<(Seq<SpecStoreNode>, int), SpecParseError>(
                (views(arms@), parser@.pos),
            ),
        decreases tokens.len() - parser@.pos,
    {
        let ghost read = views(arms@);
        let ghost pos = parser@.pos;
        let ghost was_first = first;
        if *parser.peek() == Token::CloseDelim(Delim::Brace) {
            assert(read + Seq::<SpecStoreNode>::empty() =~= read);
            break ;
        }
        if !first {
            match parser.expect(&Token::Semi) {
                Err(e) => {
                    return Err(e);
                },
                Ok(_) => {},
            }
            if *parser.peek() == Token::CloseDelim(Delim::Brace) {
                assert(read + Seq::<SpecStoreNode>::empty() =~= read);
                break ;
            }
        }
        first = false;
        let ghost start = parser@.pos;
        let arm = match parse_store_arm(parser) {
            Err(e) => {
                return Err(e);
            },
            Ok(arm) => arm,
        };
        arms.push(arm);
        proof {
            lemma_store_arm_bounds(tokens, start);
            let after = spec_parse_store_arms(tokens, parser@.pos, false);
            let next = seq![arm@];
            assert(views(arms@) =~= read + next);
            assert(spec_parse_store_arms(tokens, pos, was_first) == with_first_arms(next, after));
            match after {
                Ok((more, _)) => {
                    assert((read + next) + more =~= read + (next + more));
                },
                Err(_) => {},
            }
        }
    }
    proof {
        lemma_store_arms_bounds(tokens, inner as int, true);
    }
    match parser.expect(&Token::CloseDelim(Delim::Brace)) {
        Err(e) => {
            return Err(e);
        },
        Ok(_) => {},
    }
    Ok(Store { name, arms })
}

impl WriteOutputActions for Store {
    /// A store renders nothing: it has no part in a view's markup.
    open spec fn output_actions(&self) -> Seq<SpecOutputAction> {
        Seq::empty()
    }

    fn write_output_actions<W: OutputActionWrite>(&self, w: &mut W) {
        assert(w.actions() =~= old(w).actions() + Seq::<SpecOutputAction>::empty());
    }
}

impl IntoOutputActions for Store {
    fn into_output_actions(&self) -> (r: Vec<OutputAction>) {
        let actions: Vec<OutputAction> = Vec::new();
        assert(views(actions@) =~= Seq::<SpecOutputAction>::empty());
        actions
    }
}

/// The `case` arms of a store's reducer: one for each action arm, in source
/// order.
pub open spec fn js_case_arms_text(arms: Seq<SpecStoreNode>) -> Seq<char>
    decreases arms.len(),
{
    if arms.len() == 0 {
        Seq::empty()
    } else {
        js_case_arms_text(arms.drop_last()) + match arms.last() {
            SpecStoreNode::ActionExpr(action, value) => js_case_text(action, js_value_text(value)),
            SpecStoreNode::DefaultExpr(_) => Seq::empty(),
        }
    }
}

/// The value of the first default arm among `arms`, if there is one.
pub open spec fn first_default(arms: Seq<SpecStoreNode>) -> Option<SpecValue>
    decreases arms.len(),
{
    if arms.len() == 0 {
        None
    } else {
        match arms.first() {
            SpecStoreNode::DefaultExpr(value) => Some(value),
            SpecStoreNode::ActionExpr(_, _) => first_default(arms.drop_first()),
        }
    }
}

/// The `default` arm of a store's reducer. It returns the value of the
/// store's first default arm; a store without one keeps its state.
pub open spec fn js_default_arm_text(arms: Seq<SpecStoreNode>) -> Seq<char> {
    match first_default(arms) {
        Some(value) => js_default_text(js_value_text(value)),
        None => "default: return state; "@,
    }
}

/// The name of the reducer of the store named `name`.
pub open spec fn store_handler_name(name: Seq<char>) -> Seq<char> {
    "store_handler_"@ + name
}

/// The reducer of a store: a function of the state and an action that
/// switches on the action's type. The `case` arms stand in source order, and
/// the `default` arm behind them.
pub open spec fn js_store_text(store: SpecStore) -> Seq<char> {
    js_function_text(
        store_handler_name(store.name),
        seq!["state"@, "action"@],
        js_switch_text(
            "action.type"@,
            js_case_arms_text(store.arms) + js_default_arm_text(store.arms),
        ),
    )
}

impl WriteJsSwitchBody for StoreNode {
    open spec fn js_switch_body_text(&self) -> Seq<char> {
        match self@ {
            SpecStoreNode::ActionExpr(action, value) => js_case_text(action, js_value_text(value)),
            SpecStoreNode::DefaultExpr(value) => js_default_text(js_value_text(value)),
        }
    }

    fn write_js_switch_body<W: JsWriteSwitchBody>(&self, switch: &mut W) {
        let mut v = String::new();
        match self {
            StoreNode::ActionExpr(act, value) => {
                value.write_to(&mut v);
                assert(v@ =~= js_value_text(value@));
                switch.case_str(act.as_str(), v.as_str());
            },
            StoreNode::DefaultExpr(value) => {
                value.write_to(&mut v);
                assert(v@ =~= js_value_text(value@));
                switch.default_case(v.as_str());
            },
        }
    }
}

impl Store {
    /// The value of the first default arm, if the store has one.
    pub fn default_value(&self) -> (r: Option<&Value>)
        ensures
            match r {
                Some(value) => first_default(self@.arms) == Some(value@),
                None => first_default(self@.arms) is None,
            },
    {
        let n = self.arms.len();
        let ghost arms = self@.arms;
        let mut j: usize = 0;
        assert(arms.skip(0) =~= arms);
        while j < n
            invariant
                n == self.arms.len(),
                arms == self@.arms,
                0 <= j <= n,
                first_default(arms) == first_default(arms.skip(j as int)),
            decreases n - j,
        {
            proof {
                assert(arms.skip(j as int).first() == self.arms@[j as int]@);
                assert(arms.skip(j as int).drop_first() =~= arms.skip(j as int + 1));
            }
            match &self.arms[j] {
                StoreNode::DefaultExpr(value) => {
                    return Some(value);
                },
                StoreNode::ActionExpr(_, _) => {},
            }
            j = j + 1;
        }
        None
    }
}

impl WriteJsFunctions for Store {
    open spec fn js_functions_text(&self) -> Seq<char> {
        js_store_text(self@)
    }

    fn write_js_functions<W: JsWriteFunctions>(&self, js: &mut W) {
        let mut func_name = String::from_str("store_handler_");
        func_name.append(self.name.as_str());
        let mut body = String::new();
        let n = self.arms.len();
        let ghost arms = self@.arms;
        let mut i: usize = 0;
        assert(arms.take(0) =~= Seq::empty());
        assert(body@ =~= js_case_arms_text(arms.take(0)));
        while i < n
            invariant
                n == self.arms.len(),
                arms == self@.arms,
                0 <= i <= n,
                body@ == js_case_arms_text(arms.take(i as int)),
            decreases n - i,
        {
            let ghost before = body@;
            match &self.arms[i] {
                StoreNode::ActionExpr(_, _) => {
                    self.arms[i].write_js_switch_body(&mut body);
                },
                StoreNode::DefaultExpr(_) => {
                    assert(body@ =~= before + Seq::<char>::empty());
                },
            }
            proof {
                let upto = arms.take(i as int + 1);
                assert(upto.drop_last() =~= arms.take(i as int));
                assert(upto.last() == self.arms@[i as int]@);
            }
            i = i + 1;
        }
        assert(arms.take(n as int) =~= arms);
        match self.default_value() {
            Some(value) => {
                let mut v = String::new();
                value.write_to(&mut v);
                assert(v@ =~= js_value_text(value@));
                body.default_case(v.as_str());
            },
            None => {
                body.write_text("default: return state; ");
            },
        }
        let mut switch = String::new();
        switch.switch_expr_simple("action.type", body.as_str());
        let args: Vec<&str> = vec!["state", "action"];
        assert(arg_texts(args@) =~= seq!["state"@, "action"@]);
        js.function(func_name.as_str(), args, switch.as_str());
    }
}

} // verus!
