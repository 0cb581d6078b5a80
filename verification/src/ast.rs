//! The evaluation values and the abstract syntax tree.
//!
//! A rule text parses into one `Statement`, a tree with one enum per
//! precedence level.  Evaluating the tree against a context and a record
//! yields a scalar `Value` or an `EngineError`; evaluation never mutates the
//! tree, the context or the record.

use vstd::prelude::*;
use vstd::string::*;
use crate::engine::{Context, spec_record_opt, spec_resolve, spec_resolve_attribute};
use crate::errors::{EngineError, ErrorKind, EvaluationError};
use crate::number::{Decimal, lemma_pow10_zero, num_eq, num_lt, num_le, max_scale, pow10, sum_units, diff_units};
use crate::record::Record;
use crate::utils::keys_views;

verus! {

/// The mathematical model of a scalar value: booleans, exact decimals
/// (mantissa and base-ten scale), unbounded integers and character strings.
pub enum SpecValue {
    Boolean(bool),
    Float { units: int, scale: nat },
    Integer(int),
    String(Seq<char>),
}

/// A scalar evaluation result.  Containers are never evaluation results,
/// only traversal targets.
#[derive(Debug)]
pub enum Value {
    Boolean(bool),
    Float(Decimal),
    Integer(i64),
    String(String),
}

impl View for Value {
    type V = SpecValue;

    open spec fn view(&self) -> SpecValue {
        match self {
            Value::Boolean(b) => SpecValue::Boolean(*b),
            Value::Float(d) => SpecValue::Float { units: d.spec_units(), scale: d.spec_scale() },
            Value::Integer(i) => SpecValue::Integer(*i as int),
            Value::String(s) => SpecValue::String(s@),
        }
    }
}

/// What evaluating an expression yields: a scalar value or the first error
/// met on a depth-first walk.
pub type EvalResult = Result<Value, EngineError>;

/// The model of an evaluation outcome: the value's model on success, the
/// error's kind on failure.
pub open spec fn eval_result_view(r: EvalResult) -> Result<SpecValue, ErrorKind> {
    match r {
        Ok(v) => Ok(v@),
        Err(e) => Err(e@),
    }
}

/// The truthiness table: a boolean is itself; a float is true unless zero;
/// an integer is true unless zero; a string is true unless empty.
pub open spec fn spec_truthy(v: SpecValue) -> bool {
    match v {
        SpecValue::Boolean(b) => b,
        SpecValue::Float { units, scale } => units != 0,
        SpecValue::Integer(i) => i != 0,
        SpecValue::String(s) => s.len() != 0,
    }
}

/// Value equality as the host-facing `==` sees it: numeric values compare by
/// exact magnitude across the integer/float divide, equal kinds compare
/// directly, and any other pairing is simply unequal.
pub open spec fn spec_value_peq(l: SpecValue, r: SpecValue) -> bool {
    match (l, r) {
        (SpecValue::Boolean(a), SpecValue::Boolean(b)) => a == b,
        (SpecValue::Float { units: u1, scale: s1 }, SpecValue::Float { units: u2, scale: s2 }) =>
            num_eq(u1, s1, u2, s2),
        (SpecValue::Integer(a), SpecValue::Float { units: u2, scale: s2 }) => num_eq(a, 0, u2, s2),
        (SpecValue::Float { units: u1, scale: s1 }, SpecValue::Integer(b)) => num_eq(u1, s1, b, 0),
        (SpecValue::Integer(a), SpecValue::Integer(b)) => a == b,
        (SpecValue::String(a), SpecValue::String(b)) => a == b,
        _ => false,
    }
}

impl Value {
    /// Coerces the value to a boolean for convenience matching.
    pub fn is_truthy(&self) -> (r: bool)
        ensures
            r == spec_truthy(self@),
    {
        match self {
            Value::Boolean(value) => *value,
            Value::Float(value) => !value.is_zero(),
            Value::Integer(value) => *value != 0,
            Value::String(value) => !value.as_str().is_empty(),
        }
    }
}

impl Clone for Value {
    fn clone(&self) -> (r: Self)
        ensures
            r@ == self@,
    {
        match self {
            Value::Boolean(b) => Value::Boolean(*b),
            Value::Float(d) => Value::Float(*d),
            Value::Integer(i) => Value::Integer(*i),
            Value::String(s) => Value::String(s.clone()),
        }
    }
}

impl PartialEq for Value {
    fn eq(&self, other: &Self) -> (r: bool) {
        match (self, other) {
            (Value::Boolean(lhs), Value::Boolean(rhs)) => *lhs == *rhs,
            (Value::Float(lhs), Value::Float(rhs)) => lhs.eq_value(rhs),
            (Value::Integer(lhs), Value::Float(rhs)) => Decimal::from_int(*lhs).eq_value(rhs),
            (Value::Float(lhs), Value::Integer(rhs)) => lhs.eq_value(&Decimal::from_int(*rhs)),
            (Value::Integer(lhs), Value::Integer(rhs)) => *lhs == *rhs,
            (Value::String(lhs), Value::String(rhs)) => crate::utils::str_equal(
                lhs.as_str(),
                rhs.as_str(),
            ),
            _ => false,
        }
    }
}

impl vstd::std_specs::cmp::PartialEqSpecImpl for Value {
    open spec fn obeys_eq_spec() -> bool {
        true
    }

    open spec fn eq_spec(&self, other: &Value) -> bool {
        spec_value_peq(self@, other@)
    }
}

// ---------------------------------------------------------------------------
// The abstract syntax tree, one enum per precedence level
// ---------------------------------------------------------------------------
#[derive(Debug)]
pub enum Statement {
    Expression(Expression),
}

#[derive(Debug)]
pub enum Expression {
    Logical(LogicalExpression),
}

#[derive(Debug)]
pub enum LogicalExpression {
    And(Box<LogicalExpression>, Box<EqualityExpression>),
    Or(Box<LogicalExpression>, Box<EqualityExpression>),
    Equality(EqualityExpression),
}

#[derive(Debug)]
pub enum EqualityExpression {
    Equal(Box<ComparisonExpression>, Box<ComparisonExpression>),
    NotEqual(Box<ComparisonExpression>, Box<ComparisonExpression>),
    Comparison(ComparisonExpression),
}

#[derive(Debug)]
pub enum ComparisonExpression {
    GreaterThan(Box<AdditiveExpression>, Box<AdditiveExpression>),
    GreaterThanOrEqual(Box<AdditiveExpression>, Box<AdditiveExpression>),
    LessThan(Box<AdditiveExpression>, Box<AdditiveExpression>),
    LessThanOrEqual(Box<AdditiveExpression>, Box<AdditiveExpression>),
    Additive(AdditiveExpression),
}

#[derive(Debug)]
pub enum AdditiveExpression {
    Add(Box<AdditiveExpression>, FactorExpression),
    Subtract(Box<AdditiveExpression>, FactorExpression),
    Factor(FactorExpression),
}

#[derive(Debug)]
pub enum FactorExpression {
    Unary(UnaryExpression),
}

#[derive(Debug)]
pub enum UnaryExpression {
    Not(PrimaryExpression),
    Minus(PrimaryExpression),
    Primary(PrimaryExpression),
}

#[derive(Debug)]
pub enum PrimaryExpression {
    Float(Decimal),
    Integer(i64),
    True,
    False,
    Symbol(String),
    Attribute(Vec<String>),
    String(String),
    Paren(Box<LogicalExpression>),
}

// ---------------------------------------------------------------------------
// The mathematical mirror of the tree
// ---------------------------------------------------------------------------
pub enum SpecStatement {
    Expression(SpecExpression),
}

pub enum SpecExpression {
    Logical(SpecLogical),
}

pub enum SpecLogical {
    And(Box<SpecLogical>, Box<SpecEquality>),
    Or(Box<SpecLogical>, Box<SpecEquality>),
    Equality(SpecEquality),
}

pub enum SpecEquality {
    Equal(Box<SpecComparison>, Box<SpecComparison>),
    NotEqual(Box<SpecComparison>, Box<SpecComparison>),
    Comparison(SpecComparison),
}

pub enum SpecComparison {
    GreaterThan(Box<SpecAdditive>, Box<SpecAdditive>),
    GreaterThanOrEqual(Box<SpecAdditive>, Box<SpecAdditive>),
    LessThan(Box<SpecAdditive>, Box<SpecAdditive>),
    LessThanOrEqual(Box<SpecAdditive>, Box<SpecAdditive>),
    Additive(SpecAdditive),
}

pub enum SpecAdditive {
    Add(Box<SpecAdditive>, SpecFactor),
    Subtract(Box<SpecAdditive>, SpecFactor),
    Factor(SpecFactor),
}

pub enum SpecFactor {
    Unary(SpecUnary),
}

pub enum SpecUnary {
    Not(SpecPrimary),
    Minus(SpecPrimary),
    Primary(SpecPrimary),
}

pub enum SpecPrimary {
    Float { units: int, scale: nat },
    Integer(int),
    True,
    False,
    Symbol(Seq<char>),
    Attribute(Seq<Seq<char>>),
    String(Seq<char>),
    Paren(Box<SpecLogical>),
}

impl Statement {
    pub open spec fn model(&self) -> SpecStatement
        decreases self,
    {
        match self {
            Statement::Expression(e) => SpecStatement::Expression(e.model()),
        }
    }
}

impl Expression {
    pub open spec fn model(&self) -> SpecExpression
        decreases self,
    {
        match self {
            Expression::Logical(l) => SpecExpression::Logical(l.model()),
        }
    }
}

impl LogicalExpression {
    pub open spec fn model(&self) -> SpecLogical
        decreases self,
    {
        match self {
            LogicalExpression::And(l, r) => SpecLogical::And(Box::new(l.model()), Box::new(
                r.model(),
            )),
            LogicalExpression::Or(l, r) => SpecLogical::Or(Box::new(l.model()), Box::new(
                r.model(),
            )),
            LogicalExpression::Equality(e) => SpecLogical::Equality(e.model()),
        }
    }
}

impl EqualityExpression {
    pub open spec fn model(&self) -> SpecEquality
        decreases self,
    {
        match self {
            EqualityExpression::Equal(l, r) => SpecEquality::Equal(Box::new(l.model()), Box::new(
                r.model(),
            )),
            EqualityExpression::NotEqual(l, r) => SpecEquality::NotEqual(Box::new(l.model()),
            Box::new(r.model())),
            EqualityExpression::Comparison(c) => SpecEquality::Comparison(c.model()),
        }
    }
}

impl ComparisonExpression {
    pub open spec fn model(&self) -> SpecComparison
        decreases self,
    {
        match self {
            ComparisonExpression::GreaterThan(l, r) => SpecComparison::GreaterThan(Box::new(
                l.model(),
            ), Box::new(r.model())),
            ComparisonExpression::GreaterThanOrEqual(l, r) => SpecComparison::GreaterThanOrEqual(
                Box::new(l.model()),
                Box::new(r.model()),
            ),
            ComparisonExpression::LessThan(l, r) => SpecComparison::LessThan(Box::new(l.model()),
            Box::new(r.model())),
            ComparisonExpression::LessThanOrEqual(l, r) => SpecComparison::LessThanOrEqual(
                Box::new(l.model()),
                Box::new(r.model()),
            ),
            ComparisonExpression::Additive(a) => SpecComparison::Additive(a.model()),
        }
    }
}

impl AdditiveExpression {
    pub open spec fn model(&self) -> SpecAdditive
        decreases self,
    {
        match self {
            AdditiveExpression::Add(l, r) => SpecAdditive::Add(Box::new(l.model()), r.model()),
            AdditiveExpression::Subtract(l, r) => SpecAdditive::Subtract(Box::new(l.model()),
            r.model()),
            AdditiveExpression::Factor(f) => SpecAdditive::Factor(f.model()),
        }
    }
}

impl FactorExpression {
    pub open spec fn model(&self) -> SpecFactor
        decreases self,
    {
        match self {
            FactorExpression::Unary(u) => SpecFactor::Unary(u.model()),
        }
    }
}

impl UnaryExpression {
    pub open spec fn model(&self) -> SpecUnary
        decreases self,
    {
        match self {
            UnaryExpression::Not(p) => SpecUnary::Not(p.model()),
            UnaryExpression::Minus(p) => SpecUnary::Minus(p.model()),
            UnaryExpression::Primary(p) => SpecUnary::Primary(p.model()),
        }
    }
}

impl PrimaryExpression {
    pub open spec fn model(&self) -> SpecPrimary
        decreases self,
    {
        match self {
            PrimaryExpression::Float(d) => SpecPrimary::Float {
                units: d.spec_units(),
                scale: d.spec_scale(),
            },
            PrimaryExpression::Integer(i) => SpecPrimary::Integer(*i as int),
            PrimaryExpression::True => SpecPrimary::True,
            PrimaryExpression::False => SpecPrimary::False,
            PrimaryExpression::Symbol(s) => SpecPrimary::Symbol(s@),
            PrimaryExpression::Attribute(v) => SpecPrimary::Attribute(keys_views(v@)),
            PrimaryExpression::String(s) => SpecPrimary::String(s@),
            PrimaryExpression::Paren(b) => SpecPrimary::Paren(Box::new(b.model())),
        }
    }
}

// ---------------------------------------------------------------------------
// Evaluation semantics
// ---------------------------------------------------------------------------
/// The numeric reading of a pair of values, promoting integers to exact
/// decimals; `None` when either side is not numeric.
pub open spec fn spec_num_pair(a: SpecValue, b: SpecValue) -> Option<(int, nat, int, nat)> {
    match (a, b) {
        (SpecValue::Float { units: u1, scale: s1 }, SpecValue::Float { units: u2, scale: s2 }) =>
            Some((u1, s1, u2, s2)),
        (SpecValue::Integer(i), SpecValue::Float { units: u2, scale: s2 }) => Some(
            (i, 0, u2, s2),
        ),
        (SpecValue::Float { units: u1, scale: s1 }, SpecValue::Integer(j)) => Some(
            (u1, s1, j, 0),
        ),
        (SpecValue::Integer(i), SpecValue::Integer(j)) => Some((i, 0, j, 0)),
        _ => None,
    }
}

/// What `==` and `!=` return: numeric pairs compare by exact magnitude,
/// booleans and strings compare directly, and any other pairing fails.
pub open spec fn spec_compare_values(a: SpecValue, b: SpecValue, equal: bool) -> Result<
    SpecValue,
    ErrorKind,
> {
    match (a, b) {
        (SpecValue::Boolean(x), SpecValue::Boolean(y)) => Ok(
            SpecValue::Boolean(if equal {
                x == y
            } else {
                x != y
            }),
        ),
        (SpecValue::String(x), SpecValue::String(y)) => Ok(
            SpecValue::Boolean(if equal {
                x == y
            } else {
                x != y
            }),
        ),
        _ => match spec_num_pair(a, b) {
            Some((u1, s1, u2, s2)) => Ok(
                SpecValue::Boolean(if equal {
                    num_eq(u1, s1, u2, s2)
                } else {
                    !num_eq(u1, s1, u2, s2)
                }),
            ),
            None => Err(ErrorKind::Evaluation),
        },
    }
}

/// What `+` returns: the exact sum over numeric pairs, a float whenever
/// either side is one, an integer otherwise; any other pairing or an
/// overflowing mantissa fails.
pub open spec fn spec_add_values(a: SpecValue, b: SpecValue) -> Result<SpecValue, ErrorKind> {
    match (a, b) {
        (SpecValue::Integer(i), SpecValue::Integer(j)) => {
            if i64::MIN <= i + j <= i64::MAX {
                Ok(SpecValue::Integer(i + j))
            } else {
                Err(ErrorKind::Evaluation)
            }
        },
        _ => match spec_num_pair(a, b) {
            Some((u1, s1, u2, s2)) => {
                if i64::MIN <= sum_units(u1, s1, u2, s2) <= i64::MAX {
                    Ok(
                        SpecValue::Float {
                            units: sum_units(u1, s1, u2, s2),
                            scale: max_scale(s1, s2),
                        },
                    )
                } else {
                    Err(ErrorKind::Evaluation)
                }
            },
            None => Err(ErrorKind::Evaluation),
        },
    }
}

/// What `-` returns, under the same pairing rules as `+`.
pub open spec fn spec_sub_values(a: SpecValue, b: SpecValue) -> Result<SpecValue, ErrorKind> {
    match (a, b) {
        (SpecValue::Integer(i), SpecValue::Integer(j)) => {
            if i64::MIN <= i - j <= i64::MAX {
                Ok(SpecValue::Integer(i - j))
            } else {
                Err(ErrorKind::Evaluation)
            }
        },
        _ => match spec_num_pair(a, b) {
            Some((u1, s1, u2, s2)) => {
                if i64::MIN <= diff_units(u1, s1, u2, s2) <= i64::MAX {
                    Ok(
                        SpecValue::Float {
                            units: diff_units(u1, s1, u2, s2),
                            scale: max_scale(s1, s2),
                        },
                    )
                } else {
                    Err(ErrorKind::Evaluation)
                }
            },
            None => Err(ErrorKind::Evaluation),
        },
    }
}

/// What `>` returns over a numeric pairing.
pub open spec fn spec_gt_values(a: SpecValue, b: SpecValue) -> Result<SpecValue, ErrorKind> {
    match spec_num_pair(a, b) {
        Some((u1, s1, u2, s2)) => Ok(SpecValue::Boolean(num_lt(u2, s2, u1, s1))),
        None => Err(ErrorKind::Evaluation),
    }
}

/// What `>=` returns over a numeric pairing.
pub open spec fn spec_ge_values(a: SpecValue, b: SpecValue) -> Result<SpecValue, ErrorKind> {
    match spec_num_pair(a, b) {
        Some((u1, s1, u2, s2)) => Ok(SpecValue::Boolean(num_le(u2, s2, u1, s1))),
        None => Err(ErrorKind::Evaluation),
    }
}

/// What `<` returns over a numeric pairing.
pub open spec fn spec_lt_values(a: SpecValue, b: SpecValue) -> Result<SpecValue, ErrorKind> {
    match spec_num_pair(a, b) {
        Some((u1, s1, u2, s2)) => Ok(SpecValue::Boolean(num_lt(u1, s1, u2, s2))),
        None => Err(ErrorKind::Evaluation),
    }
}

/// What `<=` returns over a numeric pairing.
pub open spec fn spec_le_values(a: SpecValue, b: SpecValue) -> Result<SpecValue, ErrorKind> {
    match spec_num_pair(a, b) {
        Some((u1, s1, u2, s2)) => Ok(SpecValue::Boolean(num_le(u1, s1, u2, s2))),
        None => Err(ErrorKind::Evaluation),
    }
}

pub open spec fn spec_eval_statement(
    st: SpecStatement,
    asg: Seq<(String, Value)>,
    rec: Option<Record>,
) -> Result<SpecValue, ErrorKind>
    decreases st,
{
    match st {
        SpecStatement::Expression(e) => spec_eval_expression(e, asg, rec),
    }
}

pub open spec fn spec_eval_expression(
    e: SpecExpression,
    asg: Seq<(String, Value)>,
    rec: Option<Record>,
) -> Result<SpecValue, ErrorKind>
    decreases e,
{
    match e {
        SpecExpression::Logical(l) => spec_eval_logical(l, asg, rec),
    }
}

/// `and`/`or` evaluate both operands, propagate the first error, and
/// demand that both operands are booleans; a non-boolean operand fails
/// with an evaluation error.  Truthiness plays no part here — it serves
/// only the convenience `matches` operation.
pub open spec fn spec_eval_logical(
    l: SpecLogical,
    asg: Seq<(String, Value)>,
    rec: Option<Record>,
) -> Result<SpecValue, ErrorKind>
    decreases l,
{
    match l {
        SpecLogical::And(lhs, rhs) => match spec_eval_logical(*lhs, asg, rec) {
            Err(e) => Err(e),
            Ok(lv) => match spec_eval_equality(*rhs, asg, rec) {
                Err(e) => Err(e),
                Ok(rv) => spec_and_values(lv, rv),
            },
        },
        SpecLogical::Or(lhs, rhs) => match spec_eval_logical(*lhs, asg, rec) {
            Err(e) => Err(e),
            Ok(lv) => match spec_eval_equality(*rhs, asg, rec) {
                Err(e) => Err(e),
                Ok(rv) => spec_or_values(lv, rv),
            },
        },
        SpecLogical::Equality(e) => spec_eval_equality(e, asg, rec),
    }
}

pub open spec fn spec_eval_equality(
    e: SpecEquality,
    asg: Seq<(String, Value)>,
    rec: Option<Record>,
) -> Result<SpecValue, ErrorKind>
    decreases e,
{
    match e {
        SpecEquality::Equal(lhs, rhs) => match spec_eval_comparison(*lhs, asg, rec) {
            Err(er) => Err(er),
            Ok(lv) => match spec_eval_comparison(*rhs, asg, rec) {
                Err(er) => Err(er),
                Ok(rv) => spec_compare_values(lv, rv, true),
            },
        },
        SpecEquality::NotEqual(lhs, rhs) => match spec_eval_comparison(*lhs, asg, rec) {
            Err(er) => Err(er),
            Ok(lv) => match spec_eval_comparison(*rhs, asg, rec) {
                Err(er) => Err(er),
                Ok(rv) => spec_compare_values(lv, rv, false),
            },
        },
        SpecEquality::Comparison(c) => spec_eval_comparison(c, asg, rec),
    }
}

/// Order comparisons are defined over numeric pairings only.
pub open spec fn spec_eval_comparison(
    c: SpecComparison,
    asg: Seq<(String, Value)>,
    rec: Option<Record>,
) -> Result<SpecValue, ErrorKind>
    decreases c,
{
    match c {
        SpecComparison::GreaterThan(lhs, rhs) => match spec_eval_additive(*lhs, asg, rec) {
            Err(er) => Err(er),
            Ok(lv) => match spec_eval_additive(*rhs, asg, rec) {
                Err(er) => Err(er),
                Ok(rv) => spec_gt_values(lv, rv),
            },
        },
        SpecComparison::GreaterThanOrEqual(lhs, rhs) => match spec_eval_additive(*lhs, asg, rec) {
            Err(er) => Err(er),
            Ok(lv) => match spec_eval_additive(*rhs, asg, rec) {
                Err(er) => Err(er),
                Ok(rv) => spec_ge_values(lv, rv),
            },
        },
        SpecComparison::LessThan(lhs, rhs) => match spec_eval_additive(*lhs, asg, rec) {
            Err(er) => Err(er),
            Ok(lv) => match spec_eval_additive(*rhs, asg, rec) {
                Err(er) => Err(er),
                Ok(rv) => spec_lt_values(lv, rv),
            },
        },
        SpecComparison::LessThanOrEqual(lhs, rhs) => match spec_eval_additive(*lhs, asg, rec) {
            Err(er) => Err(er),
            Ok(lv) => match spec_eval_additive(*rhs, asg, rec) {
                Err(er) => Err(er),
                Ok(rv) => spec_le_values(lv, rv),
            },
        },
        SpecComparison::Additive(a) => spec_eval_additive(a, asg, rec),
    }
}

pub open spec fn spec_eval_additive(
    a: SpecAdditive,
    asg: Seq<(String, Value)>,
    rec: Option<Record>,
) -> Result<SpecValue, ErrorKind>
    decreases a,
{
    match a {
        SpecAdditive::Add(lhs, rhs) => match spec_eval_additive(*lhs, asg, rec) {
            Err(er) => Err(er),
            Ok(lv) => match spec_eval_factor(rhs, asg, rec) {
                Err(er) => Err(er),
                Ok(rv) => spec_add_values(lv, rv),
            },
        },
        SpecAdditive::Subtract(lhs, rhs) => match spec_eval_additive(*lhs, asg, rec) {
            Err(er) => Err(er),
            Ok(lv) => match spec_eval_factor(rhs, asg, rec) {
                Err(er) => Err(er),
                Ok(rv) => spec_sub_values(lv, rv),
            },
        },
        SpecAdditive::Factor(f) => spec_eval_factor(f, asg, rec),
    }
}

pub open spec fn spec_eval_factor(
    f: SpecFactor,
    asg: Seq<(String, Value)>,
    rec: Option<Record>,
) -> Result<SpecValue, ErrorKind>
    decreases f,
{
    match f {
        SpecFactor::Unary(u) => spec_eval_unary(u, asg, rec),
    }
}

/// What `and` returns: the conjunction of two boolean operands; a
/// non-boolean operand is an evaluation error, never coerced.
pub open spec fn spec_and_values(a: SpecValue, b: SpecValue) -> Result<SpecValue, ErrorKind> {
    match (a, b) {
        (SpecValue::Boolean(x), SpecValue::Boolean(y)) => Ok(SpecValue::Boolean(x && y)),
        _ => Err(ErrorKind::Evaluation),
    }
}

/// What `or` returns: the disjunction of two boolean operands; a
/// non-boolean operand is an evaluation error, never coerced.
pub open spec fn spec_or_values(a: SpecValue, b: SpecValue) -> Result<SpecValue, ErrorKind> {
    match (a, b) {
        (SpecValue::Boolean(x), SpecValue::Boolean(y)) => Ok(SpecValue::Boolean(x || y)),
        _ => Err(ErrorKind::Evaluation),
    }
}

/// What `not` returns: the negated boolean; anything else fails.
pub open spec fn spec_not_value(v: SpecValue) -> Result<SpecValue, ErrorKind> {
    match v {
        SpecValue::Boolean(b) => Ok(SpecValue::Boolean(!b)),
        _ => Err(ErrorKind::Evaluation),
    }
}

/// What unary minus returns: the negated number, unless the mantissa is the
/// one value whose negation does not fit; anything non-numeric fails.
pub open spec fn spec_neg_value(v: SpecValue) -> Result<SpecValue, ErrorKind> {
    match v {
        SpecValue::Float { units, scale } => {
            if units == i64::MIN {
                Err(ErrorKind::Evaluation)
            } else {
                Ok(SpecValue::Float { units: -units, scale })
            }
        },
        SpecValue::Integer(i) => {
            if i == i64::MIN {
                Err(ErrorKind::Evaluation)
            } else {
                Ok(SpecValue::Integer(-i))
            }
        },
        _ => Err(ErrorKind::Evaluation),
    }
}

/// `not` demands a boolean; unary minus demands a number, and fails on the
/// one mantissa whose negation does not fit.
pub open spec fn spec_eval_unary(
    u: SpecUnary,
    asg: Seq<(String, Value)>,
    rec: Option<Record>,
) -> Result<SpecValue, ErrorKind>
    decreases u,
{
    match u {
        SpecUnary::Not(p) => match spec_eval_primary(p, asg, rec) {
            Err(er) => Err(er),
            Ok(v) => spec_not_value(v),
        },
        SpecUnary::Minus(p) => match spec_eval_primary(p, asg, rec) {
            Err(er) => Err(er),
            Ok(v) => spec_neg_value(v),
        },
        SpecUnary::Primary(p) => spec_eval_primary(p, asg, rec),
    }
}

/// Literals evaluate to themselves; symbols and attribute paths go through
/// the context's resolution.
pub open spec fn spec_eval_primary(
    p: SpecPrimary,
    asg: Seq<(String, Value)>,
    rec: Option<Record>,
) -> Result<SpecValue, ErrorKind>
    decreases p,
{
    match p {
        SpecPrimary::Float { units, scale } => Ok(SpecValue::Float { units, scale }),
        SpecPrimary::Integer(i) => Ok(SpecValue::Integer(i)),
        SpecPrimary::True => Ok(SpecValue::Boolean(true)),
        SpecPrimary::False => Ok(SpecValue::Boolean(false)),
        SpecPrimary::Symbol(name) => spec_resolve(asg, name, rec),
        SpecPrimary::Attribute(keys) => spec_resolve_attribute(keys, rec),
        SpecPrimary::String(s) => Ok(SpecValue::String(s)),
        SpecPrimary::Paren(inner) => spec_eval_logical(*inner, asg, rec),
    }
}

// ---------------------------------------------------------------------------
// Laws of the evaluation semantics
// ---------------------------------------------------------------------------
/// A statement built from literals alone: no symbol and no attribute path.
pub open spec fn literal_only_statement(st: SpecStatement) -> bool
    decreases st,
{
    match st {
        SpecStatement::Expression(e) => literal_only_expression(e),
    }
}

pub open spec fn literal_only_expression(e: SpecExpression) -> bool
    decreases e,
{
    match e {
        SpecExpression::Logical(l) => literal_only_logical(l),
    }
}

pub open spec fn literal_only_logical(l: SpecLogical) -> bool
    decreases l,
{
    match l {
        SpecLogical::And(lhs, rhs) => literal_only_logical(*lhs) && literal_only_equality(*rhs),
        SpecLogical::Or(lhs, rhs) => literal_only_logical(*lhs) && literal_only_equality(*rhs),
        SpecLogical::Equality(e) => literal_only_equality(e),
    }
}

pub open spec fn literal_only_equality(e: SpecEquality) -> bool
    decreases e,
{
    match e {
        SpecEquality::Equal(l, r) => literal_only_comparison(*l) && literal_only_comparison(*r),
        SpecEquality::NotEqual(l, r) => literal_only_comparison(*l) && literal_only_comparison(
            *r,
        ),
        SpecEquality::Comparison(c) => literal_only_comparison(c),
    }
}

pub open spec fn literal_only_comparison(c: SpecComparison) -> bool
    decreases c,
{
    match c {
        SpecComparison::GreaterThan(l, r) => literal_only_additive(*l) && literal_only_additive(
            *r,
        ),
        SpecComparison::GreaterThanOrEqual(l, r) => literal_only_additive(*l)
            && literal_only_additive(*r),
        SpecComparison::LessThan(l, r) => literal_only_additive(*l) && literal_only_additive(*r),
        SpecComparison::LessThanOrEqual(l, r) => literal_only_additive(*l)
            && literal_only_additive(*r),
        SpecComparison::Additive(a) => literal_only_additive(a),
    }
}

pub open spec fn literal_only_additive(a: SpecAdditive) -> bool
    decreases a,
{
    match a {
        SpecAdditive::Add(l, r) => literal_only_additive(*l) && literal_only_factor(r),
        SpecAdditive::Subtract(l, r) => literal_only_additive(*l) && literal_only_factor(r),
        SpecAdditive::Factor(f) => literal_only_factor(f),
    }
}

pub open spec fn literal_only_factor(f: SpecFactor) -> bool
    decreases f,
{
    match f {
        SpecFactor::Unary(u) => literal_only_unary(u),
    }
}

pub open spec fn literal_only_unary(u: SpecUnary) -> bool
    decreases u,
{
    match u {
        SpecUnary::Not(p) => literal_only_primary(p),
        SpecUnary::Minus(p) => literal_only_primary(p),
        SpecUnary::Primary(p) => literal_only_primary(p),
    }
}

pub open spec fn literal_only_primary(p: SpecPrimary) -> bool
    decreases p,
{
    match p {
        SpecPrimary::Symbol(_) => false,
        SpecPrimary::Attribute(_) => false,
        SpecPrimary::Paren(inner) => literal_only_logical(*inner),
        _ => true,
    }
}

/// A literal-only statement evaluates identically under every context and
/// every record: literal expressions are deterministic.
pub proof fn lemma_literal_statement_deterministic(
    st: SpecStatement,
    a1: Seq<(String, Value)>,
    r1: Option<Record>,
    a2: Seq<(String, Value)>,
    r2: Option<Record>,
)
    requires
        literal_only_statement(st),
    ensures
        spec_eval_statement(st, a1, r1) == spec_eval_statement(st, a2, r2),
    decreases st,
{
    match st {
        SpecStatement::Expression(e) => {
            match e {
                SpecExpression::Logical(l) => lemma_literal_logical_deterministic(
                    l,
                    a1,
                    r1,
                    a2,
                    r2,
                ),
            }
        },
    }
}

pub proof fn lemma_literal_logical_deterministic(
    l: SpecLogical,
    a1: Seq<(String, Value)>,
    r1: Option<Record>,
    a2: Seq<(String, Value)>,
    r2: Option<Record>,
)
    requires
        literal_only_logical(l),
    ensures
        spec_eval_logical(l, a1, r1) == spec_eval_logical(l, a2, r2),
    decreases l,
{
    match l {
        SpecLogical::And(lhs, rhs) => {
            lemma_literal_logical_deterministic(*lhs, a1, r1, a2, r2);
            lemma_literal_equality_deterministic(*rhs, a1, r1, a2, r2);
        },
        SpecLogical::Or(lhs, rhs) => {
            lemma_literal_logical_deterministic(*lhs, a1, r1, a2, r2);
            lemma_literal_equality_deterministic(*rhs, a1, r1, a2, r2);
        },
        SpecLogical::Equality(e) => lemma_literal_equality_deterministic(e, a1, r1, a2, r2),
    }
}

pub proof fn lemma_literal_equality_deterministic(
    e: SpecEquality,
    a1: Seq<(String, Value)>,
    r1: Option<Record>,
    a2: Seq<(String, Value)>,
    r2: Option<Record>,
)
    requires
        literal_only_equality(e),
    ensures
        spec_eval_equality(e, a1, r1) == spec_eval_equality(e, a2, r2),
    decreases e,
{
    match e {
        SpecEquality::Equal(l, r) => {
            lemma_literal_comparison_deterministic(*l, a1, r1, a2, r2);
            lemma_literal_comparison_deterministic(*r, a1, r1, a2, r2);
        },
        SpecEquality::NotEqual(l, r) => {
            lemma_literal_comparison_deterministic(*l, a1, r1, a2, r2);
            lemma_literal_comparison_deterministic(*r, a1, r1, a2, r2);
        },
        SpecEquality::Comparison(c) => lemma_literal_comparison_deterministic(c, a1, r1, a2, r2),
    }
}

pub proof fn lemma_literal_comparison_deterministic(
    c: SpecComparison,
    a1: Seq<(String, Value)>,
    r1: Option<Record>,
    a2: Seq<(String, Value)>,
    r2: Option<Record>,
)
    requires
        literal_only_comparison(c),
    ensures
        spec_eval_comparison(c, a1, r1) == spec_eval_comparison(c, a2, r2),
    decreases c,
{
    match c {
        SpecComparison::GreaterThan(l, r) => {
            lemma_literal_additive_deterministic(*l, a1, r1, a2, r2);
            lemma_literal_additive_deterministic(*r, a1, r1, a2, r2);
        },
        SpecComparison::GreaterThanOrEqual(l, r) => {
            lemma_literal_additive_deterministic(*l, a1, r1, a2, r2);
            lemma_literal_additive_deterministic(*r, a1, r1, a2, r2);
        },
        SpecComparison::LessThan(l, r) => {
            lemma_literal_additive_deterministic(*l, a1, r1, a2, r2);
            lemma_literal_additive_deterministic(*r, a1, r1, a2, r2);
        },
        SpecComparison::LessThanOrEqual(l, r) => {
            lemma_literal_additive_deterministic(*l, a1, r1, a2, r2);
            lemma_literal_additive_deterministic(*r, a1, r1, a2, r2);
        },
        SpecComparison::Additive(a) => lemma_literal_additive_deterministic(a, a1, r1, a2, r2),
    }
}

pub proof fn lemma_literal_additive_deterministic(
    a: SpecAdditive,
    a1: Seq<(String, Value)>,
    r1: Option<Record>,
    a2: Seq<(String, Value)>,
    r2: Option<Record>,
)
    requires
        literal_only_additive(a),
    ensures
        spec_eval_additive(a, a1, r1) == spec_eval_additive(a, a2, r2),
    decreases a,
{
    match a {
        SpecAdditive::Add(l, r) => {
            lemma_literal_additive_deterministic(*l, a1, r1, a2, r2);
            lemma_literal_factor_deterministic(r, a1, r1, a2, r2);
        },
        SpecAdditive::Subtract(l, r) => {
            lemma_literal_additive_deterministic(*l, a1, r1, a2, r2);
            lemma_literal_factor_deterministic(r, a1, r1, a2, r2);
        },
        SpecAdditive::Factor(f) => lemma_literal_factor_deterministic(f, a1, r1, a2, r2),
    }
}

pub proof fn lemma_literal_factor_deterministic(
    f: SpecFactor,
    a1: Seq<(String, Value)>,
    r1: Option<Record>,
    a2: Seq<(String, Value)>,
    r2: Option<Record>,
)
    requires
        literal_only_factor(f),
    ensures
        spec_eval_factor(f, a1, r1) == spec_eval_factor(f, a2, r2),
    decreases f,
{
    match f {
        SpecFactor::Unary(u) => {
            match u {
                SpecUnary::Not(p) => lemma_literal_primary_deterministic(p, a1, r1, a2, r2),
                SpecUnary::Minus(p) => lemma_literal_primary_deterministic(p, a1, r1, a2, r2),
                SpecUnary::Primary(p) => lemma_literal_primary_deterministic(p, a1, r1, a2, r2),
            }
        },
    }
}

pub proof fn lemma_literal_primary_deterministic(
    p: SpecPrimary,
    a1: Seq<(String, Value)>,
    r1: Option<Record>,
    a2: Seq<(String, Value)>,
    r2: Option<Record>,
)
    requires
        literal_only_primary(p),
    ensures
        spec_eval_primary(p, a1, r1) == spec_eval_primary(p, a2, r2),
    decreases p,
{
    match p {
        SpecPrimary::Paren(inner) => lemma_literal_logical_deterministic(*inner, a1, r1, a2, r2),
        _ => {},
    }
}

/// Mixed integer/float equality and comparison promote without precision
/// loss: comparing the integer `i` against a float is exactly comparing the
/// float of magnitude `i` against it, and the equality holds precisely when
/// the two magnitudes agree as exact rationals.
pub proof fn lemma_numeric_promotion_exact(i: int, u: int, s: nat, equal: bool)
    ensures
        spec_compare_values(SpecValue::Integer(i), SpecValue::Float { units: u, scale: s }, equal)
            == spec_compare_values(
            SpecValue::Float { units: i, scale: 0 },
            SpecValue::Float { units: u, scale: s },
            equal,
        ),
        spec_lt_values(SpecValue::Integer(i), SpecValue::Float { units: u, scale: s })
            == spec_lt_values(
            SpecValue::Float { units: i, scale: 0 },
            SpecValue::Float { units: u, scale: s },
        ),
        num_eq(i, 0, u, s) == (i * crate::number::pow10(s) == u),
{
    lemma_pow10_zero();
    assert(u * crate::number::pow10(0) == u);
    assert(num_eq(i, 0, u, s) == (i * crate::number::pow10(s) == u));
}

/// Whether `==`/`!=` is defined on a pair of values: matching booleans,
/// matching strings, or any numeric pairing.
pub open spec fn eq_comparable(a: SpecValue, b: SpecValue) -> bool {
    match (a, b) {
        (SpecValue::Boolean(_), SpecValue::Boolean(_)) => true,
        (SpecValue::String(_), SpecValue::String(_)) => true,
        _ => spec_num_pair(a, b) is Some,
    }
}

/// Cross-type operations that are not explicitly defined always fail with
/// an evaluation error — they are never silently coerced to `false`: an
/// undefined equality pairing, any non-numeric order comparison, and any
/// non-numeric addition or subtraction all report `ErrorKind::Evaluation`.
pub proof fn lemma_undefined_cross_type_operations_fail(a: SpecValue, b: SpecValue, equal: bool)
    ensures
        !eq_comparable(a, b) ==> spec_compare_values(a, b, equal) == Err::<SpecValue, ErrorKind>(
            ErrorKind::Evaluation,
        ),
        spec_num_pair(a, b) is None ==> {
            &&& spec_gt_values(a, b) == Err::<SpecValue, ErrorKind>(ErrorKind::Evaluation)
            &&& spec_ge_values(a, b) == Err::<SpecValue, ErrorKind>(ErrorKind::Evaluation)
            &&& spec_lt_values(a, b) == Err::<SpecValue, ErrorKind>(ErrorKind::Evaluation)
            &&& spec_le_values(a, b) == Err::<SpecValue, ErrorKind>(ErrorKind::Evaluation)
            &&& spec_add_values(a, b) == Err::<SpecValue, ErrorKind>(ErrorKind::Evaluation)
            &&& spec_sub_values(a, b) == Err::<SpecValue, ErrorKind>(ErrorKind::Evaluation)
        },
{
}

// ---------------------------------------------------------------------------
// The exec evaluator
// ---------------------------------------------------------------------------
/// The exact sum of two values under the numeric pairing rules.
#[verifier::rlimit(60)]
fn add_values(lhs: Value, rhs: Value) -> (r: EvalResult)
    ensures
        eval_result_view(r) == spec_add_values(lhs@, rhs@),
{
    match (lhs, rhs) {
        (Value::Float(a), Value::Float(b)) => {
            match a.checked_add(&b) {
                Some(d) => {
                    proof {
                        d.lemma_units_range();
                    }
                    Ok(Value::Float(d))
                },
                None => Err(
                    EngineError::EvaluationError(EvaluationError::new("Numeric overflow")),
                ),
            }
        },
        (Value::Float(a), Value::Integer(b)) => {
            match a.checked_add(&Decimal::from_int(b)) {
                Some(d) => {
                    proof {
                        d.lemma_units_range();
                    }
                    Ok(Value::Float(d))
                },
                None => Err(
                    EngineError::EvaluationError(EvaluationError::new("Numeric overflow")),
                ),
            }
        },
        (Value::Integer(a), Value::Float(b)) => {
            match Decimal::from_int(a).checked_add(&b) {
                Some(d) => {
                    proof {
                        d.lemma_units_range();
                    }
                    Ok(Value::Float(d))
                },
                None => Err(
                    EngineError::EvaluationError(EvaluationError::new("Numeric overflow")),
                ),
            }
        },
        (Value::Integer(a), Value::Integer(b)) => {
            let s: i128 = a as i128 + b as i128;
            if i64::MIN as i128 <= s && s <= i64::MAX as i128 {
                Ok(Value::Integer(s as i64))
            } else {
                Err(EngineError::EvaluationError(EvaluationError::new("Numeric overflow")))
            }
        },
        _ => Err(EngineError::EvaluationError(EvaluationError::new("Cannot add different types"))),
    }
}

/// The exact difference of two values under the numeric pairing rules.
#[verifier::rlimit(60)]
fn sub_values(lhs: Value, rhs: Value) -> (r: EvalResult)
    ensures
        eval_result_view(r) == spec_sub_values(lhs@, rhs@),
{
    match (lhs, rhs) {
        (Value::Float(a), Value::Float(b)) => {
            match a.checked_sub(&b) {
                Some(d) => {
                    proof {
                        d.lemma_units_range();
                    }
                    Ok(Value::Float(d))
                },
                None => Err(
                    EngineError::EvaluationError(EvaluationError::new("Numeric overflow")),
                ),
            }
        },
        (Value::Float(a), Value::Integer(b)) => {
            match a.checked_sub(&Decimal::from_int(b)) {
                Some(d) => {
                    proof {
                        d.lemma_units_range();
                    }
                    Ok(Value::Float(d))
                },
                None => Err(
                    EngineError::EvaluationError(EvaluationError::new("Numeric overflow")),
                ),
            }
        },
        (Value::Integer(a), Value::Float(b)) => {
            match Decimal::from_int(a).checked_sub(&b) {
                Some(d) => {
                    proof {
                        d.lemma_units_range();
                    }
                    Ok(Value::Float(d))
                },
                None => Err(
                    EngineError::EvaluationError(EvaluationError::new("Numeric overflow")),
                ),
            }
        },
        (Value::Integer(a), Value::Integer(b)) => {
            let s: i128 = a as i128 - b as i128;
            if i64::MIN as i128 <= s && s <= i64::MAX as i128 {
                Ok(Value::Integer(s as i64))
            } else {
                Err(EngineError::EvaluationError(EvaluationError::new("Numeric overflow")))
            }
        },
        _ => Err(
            EngineError::EvaluationError(EvaluationError::new("Cannot subtract different types")),
        ),
    }
}

/// `>` on already-evaluated operands.
fn gt_values(lhs: Value, rhs: Value) -> (r: EvalResult)
    ensures
        eval_result_view(r) == spec_gt_values(lhs@, rhs@),
{
    proof {
        lemma_pow10_zero();
    }
    match (lhs, rhs) {
        (Value::Float(a), Value::Float(b)) => Ok(Value::Boolean(b.lt_value(&a))),
        (Value::Integer(a), Value::Float(b)) => Ok(
            Value::Boolean(b.lt_value(&Decimal::from_int(a))),
        ),
        (Value::Float(a), Value::Integer(b)) => Ok(
            Value::Boolean(Decimal::from_int(b).lt_value(&a)),
        ),
        (Value::Integer(a), Value::Integer(b)) => {
            proof {
                assert(num_lt(b as int, 0, a as int, 0) == (a > b));
            }
            Ok(Value::Boolean(a > b))
        },
        _ => Err(
            EngineError::EvaluationError(EvaluationError::new("Cannot compare different types")),
        ),
    }
}

/// `>=` on already-evaluated operands.
fn ge_values(lhs: Value, rhs: Value) -> (r: EvalResult)
    ensures
        eval_result_view(r) == spec_ge_values(lhs@, rhs@),
{
    proof {
        lemma_pow10_zero();
    }
    match (lhs, rhs) {
        (Value::Float(a), Value::Float(b)) => Ok(Value::Boolean(b.le_value(&a))),
        (Value::Integer(a), Value::Float(b)) => Ok(
            Value::Boolean(b.le_value(&Decimal::from_int(a))),
        ),
        (Value::Float(a), Value::Integer(b)) => Ok(
            Value::Boolean(Decimal::from_int(b).le_value(&a)),
        ),
        (Value::Integer(a), Value::Integer(b)) => {
            proof {
                assert(num_le(b as int, 0, a as int, 0) == (a >= b));
            }
            Ok(Value::Boolean(a >= b))
        },
        _ => Err(
            EngineError::EvaluationError(EvaluationError::new("Cannot compare different types")),
        ),
    }
}

/// `<` on already-evaluated operands.
fn lt_values(lhs: Value, rhs: Value) -> (r: EvalResult)
    ensures
        eval_result_view(r) == spec_lt_values(lhs@, rhs@),
{
    proof {
        lemma_pow10_zero();
    }
    match (lhs, rhs) {
        (Value::Float(a), Value::Float(b)) => Ok(Value::Boolean(a.lt_value(&b))),
        (Value::Integer(a), Value::Float(b)) => Ok(
            Value::Boolean(Decimal::from_int(a).lt_value(&b)),
        ),
        (Value::Float(a), Value::Integer(b)) => Ok(
            Value::Boolean(a.lt_value(&Decimal::from_int(b))),
        ),
        (Value::Integer(a), Value::Integer(b)) => {
            proof {
                assert(num_lt(a as int, 0, b as int, 0) == (a < b));
            }
            Ok(Value::Boolean(a < b))
        },
        _ => Err(
            EngineError::EvaluationError(EvaluationError::new("Cannot compare different types")),
        ),
    }
}

/// `<=` on already-evaluated operands.
fn le_values(lhs: Value, rhs: Value) -> (r: EvalResult)
    ensures
        eval_result_view(r) == spec_le_values(lhs@, rhs@),
{
    proof {
        lemma_pow10_zero();
    }
    match (lhs, rhs) {
        (Value::Float(a), Value::Float(b)) => Ok(Value::Boolean(a.le_value(&b))),
        (Value::Integer(a), Value::Float(b)) => Ok(
            Value::Boolean(Decimal::from_int(a).le_value(&b)),
        ),
        (Value::Float(a), Value::Integer(b)) => Ok(
            Value::Boolean(a.le_value(&Decimal::from_int(b))),
        ),
        (Value::Integer(a), Value::Integer(b)) => {
            proof {
                assert(num_le(a as int, 0, b as int, 0) == (a <= b));
            }
            Ok(Value::Boolean(a <= b))
        },
        _ => Err(
            EngineError::EvaluationError(EvaluationError::new("Cannot compare different types")),
        ),
    }
}

/// `and` on already-evaluated operands.
fn and_values(lhs: Value, rhs: Value) -> (r: EvalResult)
    ensures
        eval_result_view(r) == spec_and_values(lhs@, rhs@),
{
    match (lhs, rhs) {
        (Value::Boolean(a), Value::Boolean(b)) => Ok(Value::Boolean(a && b)),
        _ => Err(
            EngineError::EvaluationError(EvaluationError::new("Cannot compare different types")),
        ),
    }
}

/// `or` on already-evaluated operands.
fn or_values(lhs: Value, rhs: Value) -> (r: EvalResult)
    ensures
        eval_result_view(r) == spec_or_values(lhs@, rhs@),
{
    match (lhs, rhs) {
        (Value::Boolean(a), Value::Boolean(b)) => Ok(Value::Boolean(a || b)),
        _ => Err(
            EngineError::EvaluationError(EvaluationError::new("Cannot compare different types")),
        ),
    }
}

/// `not` on an already-evaluated operand.
fn not_value(pv: Value) -> (r: EvalResult)
    ensures
        eval_result_view(r) == spec_not_value(pv@),
{
    match pv {
        Value::Boolean(value) => Ok(Value::Boolean(!value)),
        _ => Err(
            EngineError::EvaluationError(EvaluationError::new("Cannot negate non-boolean value")),
        ),
    }
}

/// Unary minus on an already-evaluated operand.
fn neg_value(pv: Value) -> (r: EvalResult)
    ensures
        eval_result_view(r) == spec_neg_value(pv@),
{
    match pv {
        Value::Float(value) => {
            match value.checked_neg() {
                Some(d) => {
                    proof {
                        d.lemma_units_range();
                    }
                    Ok(Value::Float(d))
                },
                None => Err(
                    EngineError::EvaluationError(EvaluationError::new("Numeric overflow")),
                ),
            }
        },
        Value::Integer(value) => {
            if value == i64::MIN {
                Err(EngineError::EvaluationError(EvaluationError::new("Numeric overflow")))
            } else {
                Ok(Value::Integer(-value))
            }
        },
        _ => Err(
            EngineError::EvaluationError(EvaluationError::new("Cannot negate non-numeric value")),
        ),
    }
}

impl Statement {
    pub fn evaluate(&self, ctx: &Context, thing: Option<&Record>) -> (r: EvalResult)
        ensures
            eval_result_view(r) == spec_eval_statement(self.model(), ctx.assignments@,
            spec_record_opt(thing)),
        decreases self,
    {
        match self {
            Statement::Expression(expr) => expr.evaluate(ctx, thing),
        }
    }
}

impl Expression {
    pub fn evaluate(&self, ctx: &Context, thing: Option<&Record>) -> (r: EvalResult)
        ensures
            eval_result_view(r) == spec_eval_expression(self.model(), ctx.assignments@,
            spec_record_opt(thing)),
        decreases self,
    {
        match self {
            Expression::Logical(expr) => expr.evaluate(ctx, thing),
        }
    }
}

impl LogicalExpression {
    pub fn evaluate(&self, ctx: &Context, thing: Option<&Record>) -> (r: EvalResult)
        ensures
            eval_result_view(r) == spec_eval_logical(self.model(), ctx.assignments@,
            spec_record_opt(thing)),
        decreases self,
    {
        match self {
            LogicalExpression::And(lhs, rhs) => {
                let lv = match lhs.evaluate(ctx, thing) {
                    Ok(v) => v,
                    Err(e) => {
                        return Err(e);
                    },
                };
                let rv = match rhs.evaluate(ctx, thing) {
                    Ok(v) => v,
                    Err(e) => {
                        return Err(e);
                    },
                };
                and_values(lv, rv)
            },
            LogicalExpression::Or(lhs, rhs) => {
                let lv = match lhs.evaluate(ctx, thing) {
                    Ok(v) => v,
                    Err(e) => {
                        return Err(e);
                    },
                };
                let rv = match rhs.evaluate(ctx, thing) {
                    Ok(v) => v,
                    Err(e) => {
                        return Err(e);
                    },
                };
                or_values(lv, rv)
            },
            LogicalExpression::Equality(eq) => eq.evaluate(ctx, thing),
        }
    }
}

impl EqualityExpression {
    /// `==`/`!=` on already-evaluated operands.
    #[verifier::rlimit(60)]
    fn compare_eval_results(&self, lhs: Value, rhs: Value, equal: bool) -> (r: EvalResult)
        ensures
            eval_result_view(r) == spec_compare_values(lhs@, rhs@, equal),
    {
        proof {
            lemma_pow10_zero();
        }
        let result: bool = match (&lhs, &rhs) {
            (Value::Float(a), Value::Float(b)) => a.eq_value(b),
            (Value::Integer(a), Value::Float(b)) => Decimal::from_int(*a).eq_value(b),
            (Value::Float(a), Value::Integer(b)) => a.eq_value(&Decimal::from_int(*b)),
            (Value::Integer(a), Value::Integer(b)) => {
                proof {
                    assert(num_eq(*a as int, 0, *b as int, 0) == (*a == *b));
                }
                *a == *b
            },
            (Value::Boolean(a), Value::Boolean(b)) => *a == *b,
            (Value::String(a), Value::String(b)) => crate::utils::str_equal(
                a.as_str(),
                b.as_str(),
            ),
            _ => {
                return Err(
                    EngineError::EvaluationError(
                        EvaluationError::new("Cannot compare different types"),
                    ),
                );
            },
        };
        Ok(Value::Boolean(if equal {
            result
        } else {
            !result
        }))
    }

    pub fn evaluate(&self, ctx: &Context, thing: Option<&Record>) -> (r: EvalResult)
        ensures
            eval_result_view(r) == spec_eval_equality(self.model(), ctx.assignments@,
            spec_record_opt(thing)),
        decreases self,
    {
        match self {
            EqualityExpression::Equal(lhs, rhs) => {
                let lv = match lhs.evaluate(ctx, thing) {
                    Ok(v) => v,
                    Err(e) => {
                        return Err(e);
                    },
                };
                let rv = match rhs.evaluate(ctx, thing) {
                    Ok(v) => v,
                    Err(e) => {
                        return Err(e);
                    },
                };
                self.compare_eval_results(lv, rv, true)
            },
            EqualityExpression::NotEqual(lhs, rhs) => {
                let lv = match lhs.evaluate(ctx, thing) {
                    Ok(v) => v,
                    Err(e) => {
                        return Err(e);
                    },
                };
                let rv = match rhs.evaluate(ctx, thing) {
                    Ok(v) => v,
                    Err(e) => {
                        return Err(e);
                    },
                };
                self.compare_eval_results(lv, rv, false)
            },
            EqualityExpression::Comparison(comp) => comp.evaluate(ctx, thing),
        }
    }
}

impl ComparisonExpression {
    #[verifier::rlimit(100)]
    pub fn evaluate(&self, ctx: &Context, thing: Option<&Record>) -> (r: EvalResult)
        ensures
            eval_result_view(r) == spec_eval_comparison(self.model(), ctx.assignments@,
            spec_record_opt(thing)),
        decreases self,
    {
        match self {
            ComparisonExpression::GreaterThan(lhs, rhs) => {
                let lv = match lhs.evaluate(ctx, thing) {
                    Ok(v) => v,
                    Err(e) => {
                        return Err(e);
                    },
                };
                let rv = match rhs.evaluate(ctx, thing) {
                    Ok(v) => v,
                    Err(e) => {
                        return Err(e);
                    },
                };
                gt_values(lv, rv)
            },
            ComparisonExpression::GreaterThanOrEqual(lhs, rhs) => {
                let lv = match lhs.evaluate(ctx, thing) {
                    Ok(v) => v,
                    Err(e) => {
                        return Err(e);
                    },
                };
                let rv = match rhs.evaluate(ctx, thing) {
                    Ok(v) => v,
                    Err(e) => {
                        return Err(e);
                    },
                };
                ge_values(lv, rv)
            },
            ComparisonExpression::LessThan(lhs, rhs) => {
                let lv = match lhs.evaluate(ctx, thing) {
                    Ok(v) => v,
                    Err(e) => {
                        return Err(e);
                    },
                };
                let rv = match rhs.evaluate(ctx, thing) {
                    Ok(v) => v,
                    Err(e) => {
                        return Err(e);
                    },
                };
                lt_values(lv, rv)
            },
            ComparisonExpression::LessThanOrEqual(lhs, rhs) => {
                let lv = match lhs.evaluate(ctx, thing) {
                    Ok(v) => v,
                    Err(e) => {
                        return Err(e);
                    },
                };
                let rv = match rhs.evaluate(ctx, thing) {
                    Ok(v) => v,
                    Err(e) => {
                        return Err(e);
                    },
                };
                le_values(lv, rv)
            },
            ComparisonExpression::Additive(additive) => additive.evaluate(ctx, thing),
        }
    }
}

impl AdditiveExpression {
    pub fn evaluate(&self, ctx: &Context, thing: Option<&Record>) -> (r: EvalResult)
        ensures
            eval_result_view(r) == spec_eval_additive(self.model(), ctx.assignments@,
            spec_record_opt(thing)),
        decreases self,
    {
        match self {
            AdditiveExpression::Add(lhs, rhs) => {
                let lv = match lhs.evaluate(ctx, thing) {
                    Ok(v) => v,
                    Err(e) => {
                        return Err(e);
                    },
                };
                let rv = match rhs.evaluate(ctx, thing) {
                    Ok(v) => v,
                    Err(e) => {
                        return Err(e);
                    },
                };
                add_values(lv, rv)
            },
            AdditiveExpression::Subtract(lhs, rhs) => {
                let lv = match lhs.evaluate(ctx, thing) {
                    Ok(v) => v,
                    Err(e) => {
                        return Err(e);
                    },
                };
                let rv = match rhs.evaluate(ctx, thing) {
                    Ok(v) => v,
                    Err(e) => {
                        return Err(e);
                    },
                };
                sub_values(lv, rv)
            },
            AdditiveExpression::Factor(factor) => factor.evaluate(ctx, thing),
        }
    }
}

impl FactorExpression {
    pub fn evaluate(&self, ctx: &Context, thing: Option<&Record>) -> (r: EvalResult)
        ensures
            eval_result_view(r) == spec_eval_factor(self.model(), ctx.assignments@,
            spec_record_opt(thing)),
        decreases self,
    {
        match self {
            FactorExpression::Unary(unary) => unary.evaluate(ctx, thing),
        }
    }
}

impl UnaryExpression {
    pub fn evaluate(&self, ctx: &Context, thing: Option<&Record>) -> (r: EvalResult)
        ensures
            eval_result_view(r) == spec_eval_unary(self.model(), ctx.assignments@,
            spec_record_opt(thing)),
        decreases self,
    {
        match self {
            UnaryExpression::Not(primary) => {
                let pv = match primary.evaluate(ctx, thing) {
                    Ok(v) => v,
                    Err(e) => {
                        return Err(e);
                    },
                };
                not_value(pv)
            },
            UnaryExpression::Minus(primary) => {
                let pv = match primary.evaluate(ctx, thing) {
                    Ok(v) => v,
                    Err(e) => {
                        return Err(e);
                    },
                };
                neg_value(pv)
            },
            UnaryExpression::Primary(primary) => primary.evaluate(ctx, thing),
        }
    }
}

impl PrimaryExpression {
    pub fn evaluate(&self, ctx: &Context, thing: Option<&Record>) -> (r: EvalResult)
        ensures
            eval_result_view(r) == spec_eval_primary(self.model(), ctx.assignments@,
            spec_record_opt(thing)),
        decreases self,
    {
        match self {
            PrimaryExpression::Float(value) => Ok(Value::Float(*value)),
            PrimaryExpression::Integer(value) => Ok(Value::Integer(*value)),
            PrimaryExpression::True => Ok(Value::Boolean(true)),
            PrimaryExpression::False => Ok(Value::Boolean(false)),
            PrimaryExpression::Symbol(name) => {
                match ctx.resolve(name, thing) {
                    Ok(v) => Ok(v),
                    Err(e) => Err(EngineError::SymbolResolutionError(e)),
                }
            },
            PrimaryExpression::Attribute(keys) => ctx.resolve_attribute(keys, thing),
            PrimaryExpression::String(value) => Ok(Value::String(value.clone())),
            PrimaryExpression::Paren(inner) => inner.evaluate(ctx, thing),
        }
    }
}

} // verus!
