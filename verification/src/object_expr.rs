//! Object expressions: a class name and the fields it is given, as in
//! `Counter { value: (value + 1) }`.

use vstd::prelude::*;
use vstd::std_specs::cmp::PartialEqSpecImpl;
use crate::error::{ParseError, SpecParseError};
use crate::simple_expr::{
    lemma_paren_expr_bounds, parse_simple_expr_in_parens, spec_parse_paren_expr, SimpleExpr,
    SpecSimpleExprToken,
};
use crate::token::{token_at, views, Delim, SpecCursor, SpecToken, Token, TokenCursor};
use crate::unicode::{starts_uppercase, starts_with_uppercase};

verus! {

/// The value that an object expression gives to one field.
#[derive(Debug)]
pub enum ObjectExprAssignment {
    /// The field gets a value that does not depend on its old one.
    NewSimpleExprValue(String, SimpleExpr),
    /// The field's value is computed from the state before.
    UpdateSimpleExprValue(String, SimpleExpr),
}

/// The mathematical value of an [`ObjectExprAssignment`].
pub enum SpecObjectExprAssignment {
    NewSimpleExprValue(Seq<char>, Seq<SpecSimpleExprToken>),
    UpdateSimpleExprValue(Seq<char>, Seq<SpecSimpleExprToken>),
}

impl View for ObjectExprAssignment {
    type V = SpecObjectExprAssignment;

    open spec fn view(&self) -> SpecObjectExprAssignment {
        match self {
            ObjectExprAssignment::NewSimpleExprValue(name, expr) => {
                SpecObjectExprAssignment::NewSimpleExprValue(name@, expr@)
            },
            ObjectExprAssignment::UpdateSimpleExprValue(name, expr) => {
                SpecObjectExprAssignment::UpdateSimpleExprValue(name@, expr@)
            },
        }
    }
}

impl Clone for ObjectExprAssignment {
    fn clone(&self) -> (r: ObjectExprAssignment)
        ensures
            r@ == self@,
    {
        match self {
            ObjectExprAssignment::NewSimpleExprValue(name, expr) => {
                ObjectExprAssignment::NewSimpleExprValue(name.clone(), expr.clone())
            },
            ObjectExprAssignment::UpdateSimpleExprValue(name, expr) => {
                ObjectExprAssignment::UpdateSimpleExprValue(name.clone(), expr.clone())
            },
        }
    }
}

impl PartialEq for ObjectExprAssignment {
    fn eq(&self, other: &ObjectExprAssignment) -> (r: bool) {
        match self {
            ObjectExprAssignment::NewSimpleExprValue(name, expr) => match other {
                ObjectExprAssignment::NewSimpleExprValue(n, e) => *name == *n && *expr == *e,
                _ => false,
            },
            ObjectExprAssignment::UpdateSimpleExprValue(name, expr) => match other {
                ObjectExprAssignment::UpdateSimpleExprValue(n, e) => *name == *n && *expr == *e,
                _ => false,
            },
        }
    }
}

impl PartialEqSpecImpl for ObjectExprAssignment {
    open spec fn obeys_eq_spec() -> bool {
        true
    }

    open spec fn eq_spec(&self, other: &ObjectExprAssignment) -> bool {
        self@ == other@
    }
}

/// An object expression.
#[derive(Debug)]
pub struct ObjectExpr {
    pub class_name: String,
    pub assignments: Vec<ObjectExprAssignment>,
}

/// The mathematical value of an [`ObjectExpr`].
pub struct SpecObjectExpr {
    pub class_name: Seq<char>,
    pub assignments: Seq<SpecObjectExprAssignment>,
}

impl View for ObjectExpr {
    type V = SpecObjectExpr;

    open spec fn view(&self) -> SpecObjectExpr {
        SpecObjectExpr { class_name: self.class_name@, assignments: views(self.assignments@) }
    }
}

impl ObjectExpr {
    /// The name of the class.
    pub fn cls_name(&self) -> (r: &str)
        ensures
            r@ == self@.class_name,
    {
        self.class_name.as_str()
    }

    /// The assignments, in source order.
    pub fn assignments(&self) -> (r: &[ObjectExprAssignment])
        ensures
            views(r@) == self@.assignments,
    {
        self.assignments.as_slice()
    }
}

impl Clone for ObjectExpr {
    fn clone(&self) -> (r: ObjectExpr)
        ensures
            r@ == self@,
    {
        let mut assignments: Vec<ObjectExprAssignment> = Vec::new();
        let n = self.assignments.len();
        let mut i: usize = 0;
        while i < n
            invariant
                n == self.assignments.len(),
                0 <= i <= n,
                assignments@.len() == i,
                forall|j: int| 0 <= j < i ==> assignments@[j]@ == self.assignments@[j]@,
            decreases n - i,
        {
            assignments.push(self.assignments[i].clone());
            i = i + 1;
        }
        assert(views(assignments@) =~= views(self.assignments@));
        ObjectExpr { class_name: self.class_name.clone(), assignments }
    }
}

impl PartialEq for ObjectExpr {
    fn eq(&self, other: &ObjectExpr) -> (r: bool) {
        let n = self.assignments.len();
        if !(self.class_name == other.class_name) || n != other.assignments.len() {
            assert(self@.class_name != other@.class_name || self@.assignments.len()
                != other@.assignments.len());
            return false;
        }
        let mut i: usize = 0;
        while i < n
            invariant
                n == self.assignments.len(),
                n == other.assignments.len(),
                0 <= i <= n,
                forall|j: int| 0 <= j < i ==> self.assignments@[j]@ == other.assignments@[j]@,
            decreases n - i,
        {
            if !(self.assignments[i] == other.assignments[i]) {
                assert(self@.assignments[i as int] != other@.assignments[i as int]);
                return false;
            }
            i = i + 1;
        }
        assert(self@.assignments =~= other@.assignments);
        true
    }
}

impl PartialEqSpecImpl for ObjectExpr {
    open spec fn obeys_eq_spec() -> bool {
        true
    }

    open spec fn eq_spec(&self, other: &ObjectExpr) -> bool {
        self@ == other@
    }
}

/// The result of parsing one assignment.
pub type AssignmentParse = Result<(SpecObjectExprAssignment, int), SpecParseError>;

/// The result of parsing a list of assignments: the assignments and the
/// position of the brace that closes them.
pub type AssignmentsParse = Result<(Seq<SpecObjectExprAssignment>, int), SpecParseError>;

/// The result of parsing an object expression.
pub type ObjectExprParse = Result<(SpecObjectExpr, int), SpecParseError>;

/// The assignment written as `field: (expression)` at `pos`. The expression
/// ends at the `)` that matches the first one.
pub open spec fn spec_parse_object_expr_assignment(
    tokens: Seq<SpecToken>,
    pos: int,
) -> AssignmentParse {
    match (SpecCursor { tokens, pos }).parse_ident() {
        Err(e) => Err(e),
        Ok((field, colon)) => match (SpecCursor { tokens, pos: colon }).expect(SpecToken::Colon) {
            Err(e) => Err(e),
            Ok(open) => match (SpecCursor { tokens, pos: open }).expect(
                SpecToken::OpenDelim(Delim::Paren),
            ) {
                Err(e) => Err(e),
                Ok(inner) => match spec_parse_paren_expr(tokens, inner, 0) {
                    Err(e) => Err(e),
                    Ok((expr, close)) => match (SpecCursor { tokens, pos: close }).expect(
                        SpecToken::CloseDelim(Delim::Paren),
                    ) {
                        Err(e) => Err(e),
                        Ok(end) => Ok(
                            (SpecObjectExprAssignment::UpdateSimpleExprValue(field, expr), end),
                        ),
                    },
                },
            },
        },
    }
}

/// An assignment ends behind its start and within the input.
pub proof fn lemma_assignment_bounds(tokens: Seq<SpecToken>, pos: int)
    requires
        0 <= pos <= tokens.len(),
    ensures
        spec_parse_object_expr_assignment(tokens, pos) matches Ok((_, end)) ==> pos < end
            <= tokens.len(),
{
    lemma_paren_expr_bounds(tokens, pos + 3, 0);
}

/// `rest` with `first` put in front of its assignments.
pub open spec fn with_first_assignments(
    first: Seq<SpecObjectExprAssignment>,
    rest: AssignmentsParse,
) -> AssignmentsParse {
    match rest {
        Ok((assignments, end)) => Ok((first + assignments, end)),
        Err(e) => Err(e),
    }
}

/// The assignments from `pos` up to the closing brace, which is left
/// unread. Two assignments are separated by a comma, which `pos` stands at
/// unless `first` says that no assignment was read yet; a comma may also
/// follow the last one.
pub open spec fn spec_parse_assignments(
    tokens: Seq<SpecToken>,
    pos: int,
    first: bool,
) -> AssignmentsParse
    decreases tokens.len() - pos,
{
    if token_at(tokens, pos) == SpecToken::CloseDelim(Delim::Brace) {
        Ok((Seq::empty(), pos))
    } else {
        match (if first {
            Ok(pos)
        } else {
            (SpecCursor { tokens, pos }).expect(SpecToken::Comma)
        }) {
            Err(e) => Err(e),
            Ok(start) => if !first && token_at(tokens, start) == SpecToken::CloseDelim(
                Delim::Brace,
            ) {
                Ok((Seq::empty(), start))
            } else {
                match spec_parse_object_expr_assignment(tokens, start) {
                    Err(e) => Err(e),
                    Ok((assignment, end)) => {
                        proof {
                            lemma_assignment_bounds(tokens, start);
                        }
                        with_first_assignments(
                            seq![assignment],
                            spec_parse_assignments(tokens, end, false),
                        )
                    },
                }
            },
        }
    }
}

/// A list of assignments ends at or behind its start, at a closing brace
/// inside the input.
pub proof fn lemma_assignments_bounds(tokens: Seq<SpecToken>, pos: int, first: bool)
    requires
        0 <= pos <= tokens.len(),
    ensures
        spec_parse_assignments(tokens, pos, first) matches Ok((_, end)) ==> pos <= end
            < tokens.len() && tokens[end] == SpecToken::CloseDelim(Delim::Brace),
    decreases tokens.len() - pos,
{
    if token_at(tokens, pos) != SpecToken::CloseDelim(Delim::Brace) {
        let start = if first {
            pos
        } else {
            pos + 1
        };
        if (first || token_at(tokens, pos) == SpecToken::Comma) && !(!first && token_at(
            tokens,
            start,
        ) == SpecToken::CloseDelim(Delim::Brace)) {
            lemma_assignment_bounds(tokens, start);
            match spec_parse_object_expr_assignment(tokens, start) {
                Ok((_, end)) => {
                    lemma_assignments_bounds(tokens, end, false);
                },
                Err(_) => {},
            }
        }
    }
}

/// The object expression at `pos`, where `starts_upper` says whether its
/// class name starts with an uppercase letter: the class name and the
/// assignments in braces if it does; if not, that is the error.
pub open spec fn spec_parse_object_expr_body(
    tokens: Seq<SpecToken>,
    pos: int,
    starts_upper: bool,
) -> ObjectExprParse {
    match (SpecCursor { tokens, pos }).parse_ident() {
        Err(e) => Err(e),
        Ok((class_name, open)) => if !starts_upper {
            Err(SpecParseError::InvalidClassName { pos, name: class_name })
        } else {
            match (SpecCursor { tokens, pos: open }).expect(SpecToken::OpenDelim(Delim::Brace)) {
                Err(e) => Err(e),
                Ok(inner) => match spec_parse_assignments(tokens, inner, true) {
                    Err(e) => Err(e),
                    Ok((assignments, close)) => match (SpecCursor { tokens, pos: close }).expect(
                        SpecToken::CloseDelim(Delim::Brace),
                    ) {
                        Err(e) => Err(e),
                        Ok(end) => Ok((SpecObjectExpr { class_name, assignments }, end)),
                    },
                },
            }
        },
    }
}

/// The object expression written as `ClassName { field: (expression), .. }`
/// at `pos`.
pub open spec fn spec_parse_object_expr(tokens: Seq<SpecToken>, pos: int) -> ObjectExprParse {
    spec_parse_object_expr_body(
        tokens,
        pos,
        match token_at(tokens, pos) {
            SpecToken::Ident(class_name) => starts_with_uppercase(class_name),
            _ => false,
        },
    )
}

/// An object expression ends behind its start and within the input.
pub proof fn lemma_object_expr_bounds(tokens: Seq<SpecToken>, pos: int)
    requires
        0 <= pos <= tokens.len(),
    ensures
        spec_parse_object_expr(tokens, pos) matches Ok((_, end)) ==> pos < end <= tokens.len(),
{
    if pos + 1 < tokens.len() {
        lemma_assignments_bounds(tokens, pos + 2, true);
    }
}

/// Parses `field: (expression)`.
pub fn parse_object_expr_assignment(parser: &mut TokenCursor) -> (r: Result<
    ObjectExprAssignment,
    ParseError,
>)
    ensures
        final(parser)@.tokens == old(parser)@.tokens,
        match r {
            Ok(assignment) => spec_parse_object_expr_assignment(
                old(parser)@.tokens,
                old(parser)@.pos,
            ) == Ok::<(SpecObjectExprAssignment, int), SpecParseError>(
                (assignment@, final(parser)@.pos),
            ),
            Err(e) => spec_parse_object_expr_assignment(old(parser)@.tokens, old(parser)@.pos)
                == Err::<(SpecObjectExprAssignment, int), SpecParseError>(e@)
                && final(parser)@.pos == e@.position(),
        },
{
    let field_name = match parser.parse_ident() {
        Err(e) => {
            return Err(e);
        },
        Ok(name) => name,
    };
    match parser.expect(&Token::Colon) {
        Err(e) => {
            return Err(e);
        },
        Ok(_) => {},
    }
    match parser.expect(&Token::OpenDelim(Delim::Paren)) {
        Err(e) => {
            return Err(e);
        },
        Ok(_) => {},
    }
    let simple_expr = match parse_simple_expr_in_parens(parser) {
        Err(e) => {
            return Err(e);
        },
        Ok(expr) => expr,
    };
    match parser.expect(&Token::CloseDelim(Delim::Paren)) {
        Err(e) => {
            return Err(e);
        },
        Ok(_) => {},
    }
    Ok(ObjectExprAssignment::UpdateSimpleExprValue(field_name, simple_expr))
}

/// Parses an object expression, where `starts_upper` says whether the
/// identifier that the cursor stands at starts with an uppercase letter. If
/// it does not, that is the error; else the class name and the assignments
/// in braces are read.
pub fn parse_object_expr_body(parser: &mut TokenCursor, starts_upper: bool) -> (r: Result<
    ObjectExpr,
    ParseError,
>)
    ensures
        final(parser)@.tokens == old(parser)@.tokens,
        match r {
            Ok(object_expr) => spec_parse_object_expr_body(
                old(parser)@.tokens,
                old(parser)@.pos,
                starts_upper,
            ) == Ok::<(SpecObjectExpr, int), SpecParseError>(
                (object_expr@, final(parser)@.pos),
            ),
            Err(e) => spec_parse_object_expr_body(
                old(parser)@.tokens,
                old(parser)@.pos,
                starts_upper,
            ) == Err::<(SpecObjectExpr, int), SpecParseError>(e@) && final(parser)@.pos
                == e@.position(),
        },
{
    let name_pos = parser.position();
    let class_name = match parser.peek() {
        Token::Ident(name) => name.clone(),
        found => {
            return Err(ParseError::ExpectedIdent { pos: name_pos, found: found.clone() });
        },
    };
    if !starts_upper {
        return Err(ParseError::InvalidClassName { pos: name_pos, name: class_name });
    }
    parser.advance();
    match parser.expect(&Token::OpenDelim(Delim::Brace)) {
        Err(e) => {
            return Err(e);
        },
        Ok(_) => {},
    }
    let mut assignments: Vec<ObjectExprAssignment> = Vec::new();
    let ghost tokens = parser@.tokens;
    let inner = parser.position();
    let ghost whole = spec_parse_assignments(tokens, inner as int, true);
    let mut first = true;
    proof {
        match whole {
            Ok((all, _)) => {
                assert(views(assignments@) + all =~= all);
            },
            Err(_) => {},
        }
    }
    loop
        invariant_except_break
            whole == with_first_assignments(
                views(assignments@),
                spec_parse_assignments(tokens, parser@.pos, first),
            ),
        invariant
            tokens == old(parser)@.tokens,
            parser@.tokens == tokens,
            starts_upper,
            name_pos == old(parser)@.pos,
            inner == name_pos + 2,
            token_at(tokens, name_pos as int) is Ident,
            token_at(tokens, name_pos + 1) == SpecToken::OpenDelim(Delim::Brace),
            whole == spec_parse_assignments(tokens, inner as int, true),
            inner <= parser@.pos <= tokens.len(),
        ensures
            whole == Ok::<(Seq<SpecObjectExprAssignment>, int), SpecParseError>(
                (views(assignments@), parser@.pos),
            ),
        decreases tokens.len() - parser@.pos,
    {
        let ghost read = views(assignments@);
        let ghost pos = parser@.pos;
        let ghost was_first = first;
        if *parser.peek() == Token::CloseDelim(Delim::Brace) {
            assert(read + Seq::<SpecObjectExprAssignment>::empty() =~= read);
            break ;
        }
        if !first {
            match parser.expect(&Token::Comma) {
                Err(e) => {
                    return Err(e);
                },
                Ok(_) => {},
            }
            if *parser.peek() == Token::CloseDelim(Delim::Brace) {
                assert(read + Seq::<SpecObjectExprAssignment>::empty() =~= read);
                break ;
            }
        }
        first = false;
        let ghost start = parser@.pos;
        let assignment = match parse_object_expr_assignment(parser) {
            Err(e) => {
                return Err(e);
            },
            Ok(assignment) => assignment,
        };
        assignments.push(assignment);
        proof {
            lemma_assignment_bounds(tokens, start);
            let after = spec_parse_assignments(tokens, parser@.pos, false);
            let next = seq![assignment@];
            assert(views(assignments@) =~= read + next);
            assert(spec_parse_assignments(tokens, pos, was_first) == with_first_assignments(
                next,
                after,
            ));
            match after {
                Ok((more, _)) => {
                    assert((read + next) + more =~= read + (next + more));
                },
                Err(_) => {},
            }
        }
    }
    proof {
        lemma_assignments_bounds(tokens, inner as int, true);
    }
    match parser.expect(&Token::CloseDelim(Delim::Brace)) {
        Err(e) => {
            return Err(e);
        },
        Ok(_) => {},
    }
    Ok(ObjectExpr { class_name, assignments })
}

/// Parses `ClassName { field: (expression), .. }`. The class name must
/// start with an uppercase letter.
pub fn parse_object_expr(parser: &mut TokenCursor) -> (r: Result<ObjectExpr, ParseError>)
    ensures
        final(parser)@.tokens == old(parser)@.tokens,
        match r {
            Ok(object_expr) => spec_parse_object_expr(old(parser)@.tokens, old(parser)@.pos)
                == Ok::<(SpecObjectExpr, int), SpecParseError>(
                (object_expr@, final(parser)@.pos),
            ),
            Err(e) => spec_parse_object_expr(old(parser)@.tokens, old(parser)@.pos) == Err::<
                (SpecObjectExpr, int),
                SpecParseError,
            >(e@) && final(parser)@.pos == e@.position(),
        },
{
    let starts_upper = match parser.peek() {
        Token::Ident(class_name) => starts_uppercase(class_name.as_str()),
        _ => false,
    };
    parse_object_expr_body(parser, starts_upper)
}

} // verus!
