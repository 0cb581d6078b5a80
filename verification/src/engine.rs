//! The engine surface: evaluation contexts and symbol resolution.
//!
//! A `Context` holds immutable named-value bindings.  Symbol resolution
//! looks a name up among the bindings first — bindings shadow record
//! attributes of the same name — and falls back to the record's top level.
//! Attribute resolution traverses the record along a dotted path, applying
//! a trailing builtin after the rest of the path has been resolved.

use vstd::prelude::*;
use vstd::string::*;
use crate::ast::{
    EvalResult,
    SpecValue,
    Statement,
    Value,
    eval_result_view,
    spec_eval_statement,
    spec_truthy,
};
use crate::builtins::{apply_builtin, resolve_builtin_methods, spec_apply_builtin, spec_builtin_of};
use crate::errors::{
    AttributeResolutionError,
    EngineError,
    ErrorKind,
    RuleSyntaxError,
    SymbolResolutionError,
    names_position,
};
use crate::record::{
    Record,
    RecordNode,
    get_value_from_record,
    get_value_from_record_prefix,
    spec_get_value,
};
use crate::parser::{Parser, parse_text, spec_parse_text, spec_valid_rule};
use crate::utils::{join_keys, keys_views};

verus! {

/// Immutable named-value bindings supplied alongside a record at evaluation
/// time.
#[derive(Debug)]
pub struct Context {
    pub assignments: Vec<(String, Value)>,
}

/// Front-first lookup of a name among the context's bindings.
pub open spec fn spec_assignments_lookup(asg: Seq<(String, Value)>, name: Seq<char>) -> Option<
    Value,
>
    decreases asg.len(),
{
    if asg.len() == 0 {
        None
    } else if asg[0].0@ == name {
        Some(asg[0].1)
    } else {
        spec_assignments_lookup(asg.drop_first(), name)
    }
}

/// The record argument as the specifications see it.
pub open spec fn spec_record_opt(thing: Option<&Record>) -> Option<Record> {
    match thing {
        Some(r) => Some(*r),
        None => None,
    }
}

/// What resolving a bare symbol returns: the context binding if there is
/// one, else the record's top-level value of that name, else a symbol
/// resolution error.  A top-level name bound to a nested mapping cannot
/// become a scalar and is a resolution error as well.
pub open spec fn spec_resolve(
    asg: Seq<(String, Value)>,
    name: Seq<char>,
    rec: Option<Record>,
) -> Result<SpecValue, ErrorKind> {
    match spec_assignments_lookup(asg, name) {
        Some(v) => Ok(v@),
        None => match rec {
            Some(r) => match spec_get_value(RecordNode::Nested(r), seq![name]) {
                Ok(Some(v)) => Ok(v@),
                Ok(None) => Err(ErrorKind::SymbolResolution),
                Err(()) => Err(ErrorKind::SymbolResolution),
            },
            None => Err(ErrorKind::SymbolResolution),
        },
    }
}

/// What resolving a dotted attribute path returns.
///
/// If the final segment names a registered builtin, the rest of the path is
/// resolved recursively and the builtin applied to the result.  Otherwise
/// the record is traversed along the whole path: a missing key is an
/// attribute resolution error, a path ending on a nested mapping is an
/// attribute type error, and with no record at hand nothing can resolve.
pub open spec fn spec_resolve_attribute(keys: Seq<Seq<char>>, rec: Option<Record>) -> Result<
    SpecValue,
    ErrorKind,
>
    decreases keys.len(),
{
    if keys.len() == 0 {
        Err(ErrorKind::SymbolResolution)
    } else {
        match spec_builtin_of(keys.last()) {
            Some(b) => match spec_resolve_attribute(keys.drop_last(), rec) {
                Ok(v) => spec_apply_builtin(b, v),
                Err(k) => Err(k),
            },
            None => match rec {
                Some(r) => match spec_get_value(RecordNode::Nested(r), keys) {
                    Ok(Some(v)) => Ok(v@),
                    Ok(None) => Err(ErrorKind::AttributeResolution),
                    Err(()) => Err(ErrorKind::AttributeType),
                },
                None => Err(ErrorKind::SymbolResolution),
            },
        }
    }
}

/// Context bindings shadow record attributes: when a name is bound in the
/// context, resolution returns that binding whatever any record holds.
pub proof fn lemma_assignment_shadows_record(
    asg: Seq<(String, Value)>,
    name: Seq<char>,
    rec1: Option<Record>,
    rec2: Option<Record>,
)
    requires
        spec_assignments_lookup(asg, name) is Some,
    ensures
        spec_resolve(asg, name, rec1) == spec_resolve(asg, name, rec2),
        spec_resolve(asg, name, rec1) == Ok::<SpecValue, ErrorKind>(
            spec_assignments_lookup(asg, name)->Some_0@,
        ),
{
}

impl Context {
    /// A context over the given bindings, or an empty one.
    pub fn new(assignments: Option<Vec<(String, Value)>>) -> (r: Context)
        ensures
            match assignments {
                Some(a) => r.assignments@ == a@,
                None => r.assignments@ =~= Seq::<(String, Value)>::empty(),
            },
    {
        match assignments {
            Some(a) => Context { assignments: a },
            None => Context { assignments: Vec::new() },
        }
    }

    /// Finds the binding of a name, if the context holds one.
    fn get_assignment(&self, name: &str) -> (r: Option<&Value>)
        ensures
            match spec_assignments_lookup(self.assignments@, name@) {
                Some(v) => r matches Some(p) && *p == v,
                None => r is None,
            },
    {
        proof {
            assert(self.assignments@.subrange(0, self.assignments@.len() as int)
                =~= self.assignments@);
        }
        let mut j: usize = 0;
        while j < self.assignments.len()
            invariant
                j <= self.assignments@.len(),
                spec_assignments_lookup(self.assignments@, name@) == spec_assignments_lookup(
                    self.assignments@.subrange(j as int, self.assignments@.len() as int),
                    name@,
                ),
            decreases self.assignments@.len() - j,
        {
            proof {
                let tail = self.assignments@.subrange(j as int, self.assignments@.len() as int);
                assert(tail[0] == self.assignments@[j as int]);
                assert(tail.drop_first() =~= self.assignments@.subrange(
                    j + 1 as int,
                    self.assignments@.len() as int,
                ));
            }
            if crate::utils::str_equal(self.assignments[j].0.as_str(), name) {
                return Some(&self.assignments[j].1);
            }
            j = j + 1;
        }
        proof {
            assert(self.assignments@.subrange(j as int, self.assignments@.len() as int).len()
                == 0);
        }
        None
    }

    /// Resolves a bare symbol: context bindings first (they shadow record
    /// attributes), then the record's top level.
    pub fn resolve(&self, name: &String, thing: Option<&Record>) -> (r: Result<
        Value,
        SymbolResolutionError,
    >)
        ensures
            match r {
                Ok(rv) => spec_resolve(self.assignments@, name@, spec_record_opt(thing)) == Ok::<
                    SpecValue,
                    ErrorKind,
                >(rv@),
                Err(_) => spec_resolve(self.assignments@, name@, spec_record_opt(thing)) is Err,
            },
    {
        match self.get_assignment(name.as_str()) {
            Some(value) => {
                return Ok(value.clone());
            },
            None => {},
        }
        if let Some(dict) = thing {
            let mut keys: Vec<String> = Vec::new();
            keys.push(name.clone());
            proof {
                assert(keys_views(keys@) =~= seq![name@]);
            }
            match get_value_from_record(dict, &keys) {
                Ok(Some(value)) => {
                    return Ok(value);
                },
                Err(_) => {
                    return Err(
                        SymbolResolutionError::new(name.as_str(), None, "record", Some(
                            "Failed to get value",
                        )),
                    );
                },
                Ok(None) => {},
            }
        }
        Err(SymbolResolutionError::new(name.as_str(), None, "context", None))
    }

    /// Resolves the first `end` segments of an attribute path.
    fn resolve_attribute_prefix(&self, keys: &Vec<String>, end: usize, thing: Option<&Record>) -> (
    r: Result<Value, EngineError>)
        requires
            end <= keys@.len(),
        ensures
            match spec_resolve_attribute(keys_views(keys@).subrange(0, end as int),
            spec_record_opt(thing)) {
                Ok(v) => r matches Ok(rv) && rv@ == v,
                Err(k) => r matches Err(e) && e@ == k,
            },
        decreases end,
    {
        let ghost kv = keys_views(keys@).subrange(0, end as int);
        if end == 0 {
            // An attribute path always has at least one segment; an empty
            // prefix can only arise from a path made of builtin names
            // alone, which resolves nothing.
            return Err(
                EngineError::SymbolResolutionError(
                    SymbolResolutionError::new("", None, "context", None),
                ),
            );
        }
        proof {
            assert(kv.last() == keys@[end - 1]@);
            assert(kv.drop_last() =~= keys_views(keys@).subrange(0, end - 1 as int));
        }
        match resolve_builtin_methods(keys[end - 1].as_str()) {
            Ok(builtin_method) => {
                match self.resolve_attribute_prefix(keys, end - 1, thing) {
                    Ok(value) => apply_builtin(&builtin_method, value),
                    Err(e) => Err(e),
                }
            },
            Err(_) => {
                if let Some(dict) = thing {
                    match get_value_from_record_prefix(dict, keys, end) {
                        Ok(Some(value)) => Ok(value),
                        Ok(None) => {
                            let path = join_keys(keys);
                            Err(
                                EngineError::AttributeResolutionError(
                                    AttributeResolutionError::new(
                                        path.as_str(),
                                        "record",
                                        "record",
                                        None,
                                    ),
                                ),
                            )
                        },
                        Err(e) => Err(EngineError::AttributeTypeError(e)),
                    }
                } else {
                    let path = join_keys(keys);
                    Err(
                        EngineError::SymbolResolutionError(
                            SymbolResolutionError::new(path.as_str(), None, "context", None),
                        ),
                    )
                }
            },
        }
    }

    /// Resolves a dotted attribute path, applying a trailing builtin after
    /// the rest of the path has been resolved.
    pub fn resolve_attribute(&self, keys: &Vec<String>, thing: Option<&Record>) -> (r: Result<
        Value,
        EngineError,
    >)
        ensures
            match spec_resolve_attribute(keys_views(keys@), spec_record_opt(thing)) {
                Ok(v) => r matches Ok(rv) && rv@ == v,
                Err(k) => r matches Err(e) && e@ == k,
            },
    {
        let end = keys.len();
        proof {
            assert(keys_views(keys@).subrange(0, end as int) =~= keys_views(keys@));
        }
        self.resolve_attribute_prefix(keys, end, thing)
    }
}

/// The bindings an optional context supplies: none means an empty context.
pub open spec fn spec_ctx_assignments(ctx: Option<&Context>) -> Seq<(String, Value)> {
    match ctx {
        Some(c) => c.assignments@,
        None => Seq::<(String, Value)>::empty(),
    }
}

/// A compiled, immutable rule, ready for repeated evaluation against
/// records.
pub struct Rule {
    pub parser: Parser,
    pub statement: Statement,
}

impl Rule {
    /// Compiles a rule text.  Compilation succeeds exactly on syntactically
    /// valid texts and yields the text's parse tree; a malformed text is
    /// rejected with a syntax error naming a position or `EOF`, and no
    /// partial rule ever exists.  Number literals carry at most eighteen
    /// digits, so that every literal's value is held exactly; longer
    /// literals are syntax errors.
    pub fn new(text: String) -> (r: Result<Rule, RuleSyntaxError>)
        ensures
            match r {
                Ok(rule) => spec_parse_text(text@) == Some(rule.statement.model()),
                Err(e) => !spec_valid_rule(text@) && names_position(e),
            },
    {
        let parser = Parser::new();
        match parse_text(text.as_str()) {
            Ok(statement) => Ok(Rule { parser, statement }),
            Err(e) => Err(e),
        }
    }

    /// Tests whether a rule text is syntactically correct: exactly when
    /// parsing succeeds, with no evaluation performed.
    pub fn is_valid(text: String, _ctx: Option<&Context>) -> (r: bool)
        ensures
            r == spec_valid_rule(text@),
    {
        let cls_parser = Parser::new();
        let statement = cls_parser.parse_internal(text);
        match statement {
            Ok(_) => true,
            Err(_) => false,
        }
    }

    /// Evaluates the rule against a record, under the given context or an
    /// empty one.
    pub fn evaluate(&self, thing: Option<&Record>, ctx: Option<&Context>) -> (r: EvalResult)
        ensures
            eval_result_view(r) == spec_eval_statement(self.statement.model(),
            spec_ctx_assignments(ctx), spec_record_opt(thing)),
    {
        match ctx {
            Some(c) => self.statement.evaluate(c, thing),
            None => {
                let empty = Context::new(None);
                self.statement.evaluate(&empty, thing)
            },
        }
    }

    /// Evaluates the rule with an empty context and coerces the outcome to
    /// a boolean: the truthiness of a successful result, and `false` for
    /// any error.  `matches` never propagates a failure.
    pub fn matches(&self, thing: Option<&Record>) -> (r: bool)
        ensures
            r == (match spec_eval_statement(self.statement.model(), Seq::<(String,
            Value)>::empty(), spec_record_opt(thing)) {
                Ok(v) => spec_truthy(v),
                Err(_) => false,
            }),
    {
        match self.evaluate(thing, None) {
            Ok(result) => result.is_truthy(),
            Err(_) => false,
        }
    }
}

} // verus!
