//! The parser: consumes the lexeme stream and builds exactly one expression
//! tree, honoring the precedence chain
//! `logical → equality → comparison → additive → factor → unary → primary`.
//!
//! `and`/`or` and `+`/`-` are left-associative; `==`/`!=` and the order
//! comparisons bind at most once; a parenthesized sub-expression restarts
//! the chain.  On malformed input parsing fails with a `RuleSyntaxError`
//! naming the nearest lexeme's position, or `EOF` when the input was
//! truncated; no partial tree is ever returned.

use vstd::prelude::*;
use vstd::string::*;
use crate::ast::{
    AdditiveExpression,
    ComparisonExpression,
    EqualityExpression,
    Expression,
    FactorExpression,
    LogicalExpression,
    PrimaryExpression,
    SpecAdditive,
    SpecComparison,
    SpecEquality,
    SpecExpression,
    SpecFactor,
    SpecLogical,
    SpecPrimary,
    SpecStatement,
    SpecUnary,
    Statement,
    UnaryExpression,
    Value,
};
use crate::engine::Context;
use crate::errors::{EngineError, ErrorKind, ParseError, RuleSyntaxError, Token, names_position};
use crate::lexer::{Lexeme, SpecToken, TokKind, lexemes_views, spec_tokenize, tokenize};
use crate::utils::clone_strings;

verus! {

// ---------------------------------------------------------------------------
// The grammar as spec functions
// ---------------------------------------------------------------------------
pub open spec fn spec_parse_primary(toks: Seq<SpecToken>, i: nat) -> Option<(SpecPrimary, nat)>
    decreases toks.len() - i, 0int,
{
    if i >= toks.len() {
        None
    } else {
        match toks[i as int] {
            SpecToken::Float { units, scale } => Some((SpecPrimary::Float { units, scale }, i + 1)),
            SpecToken::Integer(v) => Some((SpecPrimary::Integer(v), i + 1)),
            SpecToken::True => Some((SpecPrimary::True, i + 1)),
            SpecToken::False => Some((SpecPrimary::False, i + 1)),
            SpecToken::StrLit(s) => Some((SpecPrimary::String(s), i + 1)),
            SpecToken::Symbol(s) => Some((SpecPrimary::Symbol(s), i + 1)),
            SpecToken::Attribute(ks) => Some((SpecPrimary::Attribute(ks), i + 1)),
            SpecToken::LParen => match spec_parse_logical(toks, i + 1) {
                None => None,
                Some((inner, j)) => {
                    if j < toks.len() && toks[j as int] is RParen {
                        Some((SpecPrimary::Paren(Box::new(inner)), j + 1))
                    } else {
                        None
                    }
                },
            },
            _ => None,
        }
    }
}

pub open spec fn spec_parse_unary(toks: Seq<SpecToken>, i: nat) -> Option<(SpecUnary, nat)>
    decreases toks.len() - i, 1int,
{
    if i < toks.len() && toks[i as int] is Not {
        match spec_parse_primary(toks, i + 1) {
            None => None,
            Some((p, j)) => Some((SpecUnary::Not(p), j)),
        }
    } else if i < toks.len() && toks[i as int] is Minus {
        match spec_parse_primary(toks, i + 1) {
            None => None,
            Some((p, j)) => Some((SpecUnary::Minus(p), j)),
        }
    } else {
        match spec_parse_primary(toks, i) {
            None => None,
            Some((p, j)) => Some((SpecUnary::Primary(p), j)),
        }
    }
}

pub open spec fn spec_parse_factor(toks: Seq<SpecToken>, i: nat) -> Option<(SpecFactor, nat)>
    decreases toks.len() - i, 2int,
{
    match spec_parse_unary(toks, i) {
        None => None,
        Some((u, j)) => Some((SpecFactor::Unary(u), j)),
    }
}

pub open spec fn spec_parse_additive_rest(
    toks: Seq<SpecToken>,
    i: nat,
    acc: SpecAdditive,
) -> Option<(SpecAdditive, nat)>
    decreases toks.len() - i, 4int,
{
    if i < toks.len() && (toks[i as int] is Plus || toks[i as int] is Minus) {
        match spec_parse_factor(toks, i + 1) {
            None => None,
            Some((f, j)) => {
                if j > i && j <= toks.len() {
                    if toks[i as int] is Plus {
                        spec_parse_additive_rest(toks, j, SpecAdditive::Add(Box::new(acc), f))
                    } else {
                        spec_parse_additive_rest(toks, j, SpecAdditive::Subtract(Box::new(acc), f))
                    }
                } else {
                    None
                }
            },
        }
    } else {
        Some((acc, i))
    }
}

pub open spec fn spec_parse_additive(toks: Seq<SpecToken>, i: nat) -> Option<(SpecAdditive, nat)>
    decreases toks.len() - i, 3int,
{
    match spec_parse_factor(toks, i) {
        None => None,
        Some((f, j)) => {
            if j > i && j <= toks.len() {
                spec_parse_additive_rest(toks, j, SpecAdditive::Factor(f))
            } else {
                None
            }
        },
    }
}

pub open spec fn spec_parse_comparison(toks: Seq<SpecToken>, i: nat) -> Option<
    (SpecComparison, nat),
>
    decreases toks.len() - i, 5int,
{
    match spec_parse_additive(toks, i) {
        None => None,
        Some((a, j)) => {
            if j > i && j < toks.len() && (toks[j as int] is Gt || toks[j as int] is Ge
                || toks[j as int] is Lt || toks[j as int] is Le) {
                match spec_parse_additive(toks, j + 1) {
                    None => None,
                    Some((b, k)) => {
                        if toks[j as int] is Gt {
                            Some((SpecComparison::GreaterThan(Box::new(a), Box::new(b)), k))
                        } else if toks[j as int] is Ge {
                            Some(
                                (SpecComparison::GreaterThanOrEqual(Box::new(a), Box::new(b)), k),
                            )
                        } else if toks[j as int] is Lt {
                            Some((SpecComparison::LessThan(Box::new(a), Box::new(b)), k))
                        } else {
                            Some((SpecComparison::LessThanOrEqual(Box::new(a), Box::new(b)), k))
                        }
                    },
                }
            } else {
                Some((SpecComparison::Additive(a), j))
            }
        },
    }
}

pub open spec fn spec_parse_equality(toks: Seq<SpecToken>, i: nat) -> Option<(SpecEquality, nat)>
    decreases toks.len() - i, 6int,
{
    match spec_parse_comparison(toks, i) {
        None => None,
        Some((c, j)) => {
            if j > i && j < toks.len() && (toks[j as int] is EqEq || toks[j as int] is NotEq) {
                match spec_parse_comparison(toks, j + 1) {
                    None => None,
                    Some((d, k)) => {
                        if toks[j as int] is EqEq {
                            Some((SpecEquality::Equal(Box::new(c), Box::new(d)), k))
                        } else {
                            Some((SpecEquality::NotEqual(Box::new(c), Box::new(d)), k))
                        }
                    },
                }
            } else {
                Some((SpecEquality::Comparison(c), j))
            }
        },
    }
}

pub open spec fn spec_parse_logical_rest(
    toks: Seq<SpecToken>,
    i: nat,
    acc: SpecLogical,
) -> Option<(SpecLogical, nat)>
    decreases toks.len() - i, 8int,
{
    if i < toks.len() && (toks[i as int] is And || toks[i as int] is Or) {
        match spec_parse_equality(toks, i + 1) {
            None => None,
            Some((e, j)) => {
                if j > i && j <= toks.len() {
                    if toks[i as int] is And {
                        spec_parse_logical_rest(toks, j, SpecLogical::And(Box::new(acc), Box::new(
                            e,
                        )))
                    } else {
                        spec_parse_logical_rest(toks, j, SpecLogical::Or(Box::new(acc), Box::new(
                            e,
                        )))
                    }
                } else {
                    None
                }
            },
        }
    } else {
        Some((acc, i))
    }
}

pub open spec fn spec_parse_logical(toks: Seq<SpecToken>, i: nat) -> Option<(SpecLogical, nat)>
    decreases toks.len() - i, 7int,
{
    match spec_parse_equality(toks, i) {
        None => None,
        Some((e, j)) => {
            if j > i && j <= toks.len() {
                spec_parse_logical_rest(toks, j, SpecLogical::Equality(e))
            } else {
                None
            }
        },
    }
}

/// A whole statement: one logical expression consuming every lexeme.
pub open spec fn spec_parse_statement(toks: Seq<SpecToken>) -> Option<SpecStatement> {
    match spec_parse_logical(toks, 0) {
        None => None,
        Some((l, j)) => {
            if j == toks.len() {
                Some(SpecStatement::Expression(SpecExpression::Logical(l)))
            } else {
                None
            }
        },
    }
}

/// The tree a rule text parses to, if it both lexes and parses.
pub open spec fn spec_parse_text(s: Seq<char>) -> Option<SpecStatement> {
    match spec_tokenize(s) {
        None => None,
        Some(toks) => spec_parse_statement(toks),
    }
}

/// A text is a syntactically valid rule exactly when it parses.
pub open spec fn spec_valid_rule(s: Seq<char>) -> bool {
    spec_parse_text(s) is Some
}

// ---------------------------------------------------------------------------
// The exec parser
// ---------------------------------------------------------------------------
/// The syntax error for an unexpected lexeme at `i`, or for a truncated
/// input.
fn syntax_error_at(toks: &Vec<Lexeme>, i: usize, message: &str) -> (e: RuleSyntaxError)
    ensures
        names_position(e),
{
    if i < toks.len() {
        let e = RuleSyntaxError::new(
            message,
            Some(Token { lineno: toks[i].lineno, lexpos: toks[i].lexpos }),
        );
        proof {
            assert(e.position@ == crate::errors::position_string(
                toks@[i as int].lineno as nat,
                toks@[i as int].lexpos as nat,
            ));
        }
        e
    } else {
        RuleSyntaxError::new(message, None)
    }
}

#[verifier::rlimit(100)]
fn parse_primary(toks: &Vec<Lexeme>, i: usize) -> (r: Result<
    (PrimaryExpression, usize),
    RuleSyntaxError,
>)
    ensures
        match spec_parse_primary(lexemes_views(toks@), i as nat) {
            Some((sn, j)) => r matches Ok((node, jj)) && node.model() == sn && jj == j && i < jj
                <= toks@.len(),
            None => r matches Err(e) && names_position(e),
        },
    decreases toks@.len() - i, 0int,
{
    let ghost tv = lexemes_views(toks@);
    if i >= toks.len() {
        return Err(RuleSyntaxError::new("unexpected end of expression", None));
    }
    proof {
        assert(tv[i as int] == toks@[i as int]@);
    }
    match &toks[i].kind {
        TokKind::Float(d) => Ok((PrimaryExpression::Float(*d), i + 1)),
        TokKind::Integer(v) => Ok((PrimaryExpression::Integer(*v), i + 1)),
        TokKind::True => Ok((PrimaryExpression::True, i + 1)),
        TokKind::False => Ok((PrimaryExpression::False, i + 1)),
        TokKind::StrLit(s) => Ok((PrimaryExpression::String(s.clone()), i + 1)),
        TokKind::Symbol(s) => Ok((PrimaryExpression::Symbol(s.clone()), i + 1)),
        TokKind::Attribute(v) => Ok((PrimaryExpression::Attribute(clone_strings(v)), i + 1)),
        TokKind::LParen => {
            match parse_logical(toks, i + 1) {
                Err(e) => Err(e),
                Ok((inner, j)) => {
                    proof {
                        if j < toks@.len() {
                            assert(tv[j as int] == toks@[j as int]@);
                        }
                    }
                    if j < toks.len() && matches!(&toks[j].kind, TokKind::RParen) {
                        Ok((PrimaryExpression::Paren(Box::new(inner)), j + 1))
                    } else {
                        Err(syntax_error_at(toks, j, "expected closing parenthesis"))
                    }
                },
            }
        },
        _ => Err(syntax_error_at(toks, i, "unexpected token")),
    }
}

fn parse_unary(toks: &Vec<Lexeme>, i: usize) -> (r: Result<
    (UnaryExpression, usize),
    RuleSyntaxError,
>)
    ensures
        match spec_parse_unary(lexemes_views(toks@), i as nat) {
            Some((sn, j)) => r matches Ok((node, jj)) && node.model() == sn && jj == j && i < jj
                <= toks@.len(),
            None => r matches Err(e) && names_position(e),
        },
    decreases toks@.len() - i, 1int,
{
    let ghost tv = lexemes_views(toks@);
    proof {
        if (i as nat) < tv.len() {
            assert(tv[i as int] == toks@[i as int]@);
        }
    }
    if i < toks.len() && matches!(&toks[i].kind, TokKind::Not) {
        match parse_primary(toks, i + 1) {
            Err(e) => Err(e),
            Ok((p, j)) => Ok((UnaryExpression::Not(p), j)),
        }
    } else if i < toks.len() && matches!(&toks[i].kind, TokKind::Minus) {
        match parse_primary(toks, i + 1) {
            Err(e) => Err(e),
            Ok((p, j)) => Ok((UnaryExpression::Minus(p), j)),
        }
    } else {
        match parse_primary(toks, i) {
            Err(e) => Err(e),
            Ok((p, j)) => Ok((UnaryExpression::Primary(p), j)),
        }
    }
}

fn parse_factor(toks: &Vec<Lexeme>, i: usize) -> (r: Result<
    (FactorExpression, usize),
    RuleSyntaxError,
>)
    ensures
        match spec_parse_factor(lexemes_views(toks@), i as nat) {
            Some((sn, j)) => r matches Ok((node, jj)) && node.model() == sn && jj == j && i < jj
                <= toks@.len(),
            None => r matches Err(e) && names_position(e),
        },
    decreases toks@.len() - i, 2int,
{
    match parse_unary(toks, i) {
        Err(e) => Err(e),
        Ok((u, j)) => Ok((FactorExpression::Unary(u), j)),
    }
}

fn parse_additive_rest(toks: &Vec<Lexeme>, i: usize, acc: AdditiveExpression) -> (r: Result<
    (AdditiveExpression, usize),
    RuleSyntaxError,
>)
    requires
        i <= toks@.len(),
    ensures
        match spec_parse_additive_rest(lexemes_views(toks@), i as nat, acc.model()) {
            Some((sn, j)) => r matches Ok((node, jj)) && node.model() == sn && jj == j && i <= jj
                <= toks@.len(),
            None => r matches Err(e) && names_position(e),
        },
    decreases toks@.len() - i, 4int,
{
    let ghost tv = lexemes_views(toks@);
    proof {
        if (i as nat) < tv.len() {
            assert(tv[i as int] == toks@[i as int]@);
        }
    }
    if i < toks.len() && matches!(&toks[i].kind, TokKind::Plus) {
        match parse_factor(toks, i + 1) {
            Err(e) => Err(e),
            Ok((f, j)) => parse_additive_rest(
                toks,
                j,
                AdditiveExpression::Add(Box::new(acc), f),
            ),
        }
    } else if i < toks.len() && matches!(&toks[i].kind, TokKind::Minus) {
        match parse_factor(toks, i + 1) {
            Err(e) => Err(e),
            Ok((f, j)) => parse_additive_rest(
                toks,
                j,
                AdditiveExpression::Subtract(Box::new(acc), f),
            ),
        }
    } else {
        Ok((acc, i))
    }
}

fn parse_additive(toks: &Vec<Lexeme>, i: usize) -> (r: Result<
    (AdditiveExpression, usize),
    RuleSyntaxError,
>)
    ensures
        match spec_parse_additive(lexemes_views(toks@), i as nat) {
            Some((sn, j)) => r matches Ok((node, jj)) && node.model() == sn && jj == j && i < jj
                <= toks@.len(),
            None => r matches Err(e) && names_position(e),
        },
    decreases toks@.len() - i, 3int,
{
    match parse_factor(toks, i) {
        Err(e) => Err(e),
        Ok((f, j)) => parse_additive_rest(toks, j, AdditiveExpression::Factor(f)),
    }
}

fn parse_comparison(toks: &Vec<Lexeme>, i: usize) -> (r: Result<
    (ComparisonExpression, usize),
    RuleSyntaxError,
>)
    ensures
        match spec_parse_comparison(lexemes_views(toks@), i as nat) {
            Some((sn, j)) => r matches Ok((node, jj)) && node.model() == sn && jj == j && i < jj
                <= toks@.len(),
            None => r matches Err(e) && names_position(e),
        },
    decreases toks@.len() - i, 5int,
{
    let ghost tv = lexemes_views(toks@);
    match parse_additive(toks, i) {
        Err(e) => Err(e),
        Ok((a, j)) => {
            proof {
                if (j as nat) < tv.len() {
                    assert(tv[j as int] == toks@[j as int]@);
                }
            }
            if j < toks.len() && matches!(&toks[j].kind, TokKind::Gt) {
                match parse_additive(toks, j + 1) {
                    Err(e) => Err(e),
                    Ok((b, k)) => Ok(
                        (ComparisonExpression::GreaterThan(Box::new(a), Box::new(b)), k),
                    ),
                }
            } else if j < toks.len() && matches!(&toks[j].kind, TokKind::Ge) {
                match parse_additive(toks, j + 1) {
                    Err(e) => Err(e),
                    Ok((b, k)) => Ok(
                        (ComparisonExpression::GreaterThanOrEqual(Box::new(a), Box::new(b)), k),
                    ),
                }
            } else if j < toks.len() && matches!(&toks[j].kind, TokKind::Lt) {
                match parse_additive(toks, j + 1) {
                    Err(e) => Err(e),
                    Ok((b, k)) => Ok(
                        (ComparisonExpression::LessThan(Box::new(a), Box::new(b)), k),
                    ),
                }
            } else if j < toks.len() && matches!(&toks[j].kind, TokKind::Le) {
                match parse_additive(toks, j + 1) {
                    Err(e) => Err(e),
                    Ok((b, k)) => Ok(
                        (ComparisonExpression::LessThanOrEqual(Box::new(a), Box::new(b)), k),
                    ),
                }
            } else {
                Ok((ComparisonExpression::Additive(a), j))
            }
        },
    }
}

fn parse_equality(toks: &Vec<Lexeme>, i: usize) -> (r: Result<
    (EqualityExpression, usize),
    RuleSyntaxError,
>)
    ensures
        match spec_parse_equality(lexemes_views(toks@), i as nat) {
            Some((sn, j)) => r matches Ok((node, jj)) && node.model() == sn && jj == j && i < jj
                <= toks@.len(),
            None => r matches Err(e) && names_position(e),
        },
    decreases toks@.len() - i, 6int,
{
    let ghost tv = lexemes_views(toks@);
    match parse_comparison(toks, i) {
        Err(e) => Err(e),
        Ok((c, j)) => {
            proof {
                if (j as nat) < tv.len() {
                    assert(tv[j as int] == toks@[j as int]@);
                }
            }
            if j < toks.len() && matches!(&toks[j].kind, TokKind::EqEq) {
                match parse_comparison(toks, j + 1) {
                    Err(e) => Err(e),
                    Ok((d, k)) => Ok((EqualityExpression::Equal(Box::new(c), Box::new(d)), k)),
                }
            } else if j < toks.len() && matches!(&toks[j].kind, TokKind::NotEq) {
                match parse_comparison(toks, j + 1) {
                    Err(e) => Err(e),
                    Ok((d, k)) => Ok((EqualityExpression::NotEqual(Box::new(c), Box::new(d)), k)),
                }
            } else {
                Ok((EqualityExpression::Comparison(c), j))
            }
        },
    }
}

fn parse_logical_rest(toks: &Vec<Lexeme>, i: usize, acc: LogicalExpression) -> (r: Result<
    (LogicalExpression, usize),
    RuleSyntaxError,
>)
    requires
        i <= toks@.len(),
    ensures
        match spec_parse_logical_rest(lexemes_views(toks@), i as nat, acc.model()) {
            Some((sn, j)) => r matches Ok((node, jj)) && node.model() == sn && jj == j && i <= jj
                <= toks@.len(),
            None => r matches Err(e) && names_position(e),
        },
    decreases toks@.len() - i, 8int,
{
    let ghost tv = lexemes_views(toks@);
    proof {
        if (i as nat) < tv.len() {
            assert(tv[i as int] == toks@[i as int]@);
        }
    }
    if i < toks.len() && matches!(&toks[i].kind, TokKind::And) {
        match parse_equality(toks, i + 1) {
            Err(e) => Err(e),
            Ok((eq, j)) => parse_logical_rest(
                toks,
                j,
                LogicalExpression::And(Box::new(acc), Box::new(eq)),
            ),
        }
    } else if i < toks.len() && matches!(&toks[i].kind, TokKind::Or) {
        match parse_equality(toks, i + 1) {
            Err(e) => Err(e),
            Ok((eq, j)) => parse_logical_rest(
                toks,
                j,
                LogicalExpression::Or(Box::new(acc), Box::new(eq)),
            ),
        }
    } else {
        Ok((acc, i))
    }
}

fn parse_logical(toks: &Vec<Lexeme>, i: usize) -> (r: Result<
    (LogicalExpression, usize),
    RuleSyntaxError,
>)
    ensures
        match spec_parse_logical(lexemes_views(toks@), i as nat) {
            Some((sn, j)) => r matches Ok((node, jj)) && node.model() == sn && jj == j && i < jj
                <= toks@.len(),
            None => r matches Err(e) && names_position(e),
        },
    decreases toks@.len() - i, 7int,
{
    match parse_equality(toks, i) {
        Err(e) => Err(e),
        Ok((eq, j)) => parse_logical_rest(toks, j, LogicalExpression::Equality(eq)),
    }
}

/// Parses a whole lexeme stream into one statement, demanding that every
/// lexeme is consumed.
fn parse_statement(toks: &Vec<Lexeme>) -> (r: Result<Statement, RuleSyntaxError>)
    ensures
        match spec_parse_statement(lexemes_views(toks@)) {
            Some(sn) => r matches Ok(st) && st.model() == sn,
            None => r matches Err(e) && names_position(e),
        },
{
    match parse_logical(toks, 0) {
        Err(e) => Err(e),
        Ok((l, j)) => {
            if j == toks.len() {
                Ok(Statement::Expression(Expression::Logical(l)))
            } else {
                Err(syntax_error_at(toks, j, "unexpected trailing token"))
            }
        },
    }
}

/// Lexes and parses a rule text into a statement, or reports the syntax
/// error.
pub fn parse_text(text: &str) -> (r: Result<Statement, RuleSyntaxError>)
    ensures
        match spec_parse_text(text@) {
            Some(sn) => r matches Ok(st) && st.model() == sn,
            None => r matches Err(e) && names_position(e),
        },
{
    match tokenize(text) {
        Err(e) => Err(e),
        Ok(toks) => parse_statement(&toks),
    }
}

/// The parser the engine surface holds; the grammar tables live in the
/// functions above, so it needs no state of its own.
pub struct Parser {}

impl Parser {
    pub fn new() -> (r: Self) {
        Parser {  }
    }

    /// Parses a rule text into a statement, wrapping any syntax error's
    /// message for the embedding surface.
    pub fn parse_internal(&self, text: String) -> (r: Result<Statement, ParseError>)
        ensures
            match r {
                Ok(st) => spec_parse_text(text@) == Some(st.model()),
                Err(_) => spec_parse_text(text@) is None,
            },
    {
        match parse_text(text.as_str()) {
            Ok(st) => Ok(st),
            Err(e) => {
                let mut m = String::from_str("Failed to parse expression: ");
                m.append(e.message.as_str());
                Err(ParseError::new(m.as_str()))
            },
        }
    }

    /// Parses a rule text and immediately evaluates it, with no record, in
    /// the given context.
    pub fn parse(&self, text: String, context: &Context) -> (r: Result<Value, EngineError>)
        ensures
            match spec_parse_text(text@) {
                Some(sn) => crate::ast::eval_result_view(r) == crate::ast::spec_eval_statement(
                    sn,
                    context.assignments@,
                    None,
                ),
                None => r matches Err(e) && e@ == ErrorKind::RuleSyntax,
            },
    {
        match parse_text(text.as_str()) {
            Ok(st) => st.evaluate(context, None),
            Err(e) => Err(EngineError::RuleSyntaxError(e)),
        }
    }
}

} // verus!
