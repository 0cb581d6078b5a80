//! The error taxonomy shared by every layer of the engine.
//!
//! Each error kind carries the minimal facts needed to localize and explain a
//! failure: the offending symbol or attribute name, the scope, the expected
//! and actual type, and an optional "did you mean" suggestion.  All errors
//! are returned values, never used for control flow elsewhere in a tree.

use vstd::prelude::*;
use vstd::string::*;
use crate::utils::{format_usize, nat_to_string};

verus! {

/// A source position, as the lexer reports it: the line of the offending
/// lexeme and its absolute character offset in the rule text.
#[derive(Clone, Copy, Debug, PartialEq, Eq, Structural)]
pub struct Token {
    pub lineno: usize,
    pub lexpos: usize,
}

/// The kind of an engine error, used by the specifications: contracts pin
/// down which kind of error a function returns, while the message strings
/// carried by the concrete error values stay presentation detail.
pub enum ErrorKind {
    Evaluation,
    Syntax,
    DatetimeSyntax,
    FloatSyntax,
    TimedeltaSyntax,
    RegexSyntax,
    RuleSyntax,
    AttributeResolution,
    AttributeType,
    Lookup,
    SymbolResolution,
    SymbolType,
    FunctionCall,
}

/// The view of an optional owned string: its character sequence, if present.
pub open spec fn opt_view(o: Option<String>) -> Option<Seq<char>> {
    match o {
        Some(s) => Some(s@),
        None => None,
    }
}

/// The view of an optional borrowed string: its character sequence, if
/// present.
pub open spec fn opt_ref_view(o: Option<&str>) -> Option<Seq<char>> {
    match o {
        Some(s) => Some(s@),
        None => None,
    }
}

/// The "line l:p" rendering of a source position.
pub open spec fn position_string(line: nat, pos: nat) -> Seq<char> {
    "line "@ + nat_to_string(line) + ":"@ + nat_to_string(pos)
}

/// A syntax error's position names either a concrete line and offset, or
/// the end of the input.
pub open spec fn names_position(e: RuleSyntaxError) -> bool {
    e.position@ == "EOF"@ || exists|l: nat, p: nat| e.position@ == position_string(l, p)
}

/// A sentinel marking a value as not defined at all, distinct from any real
/// value the engine can produce.
#[derive(Debug)]
pub struct Undefined;

impl Undefined {
    pub fn new() -> (r: Self) {
        Undefined
    }
}

/// A generic operator or type-mismatch failure during tree evaluation.
#[derive(Debug)]
pub struct EvaluationError {
    pub message: String,
}

impl EvaluationError {
    pub fn new(message: &str) -> (r: Self)
        ensures
            r.message@ == message@,
    {
        EvaluationError { message: String::from_str(message) }
    }
}

/// A malformed token stream or grammar violation.
#[derive(Debug)]
pub struct SyntaxError {
    pub message: String,
}

impl SyntaxError {
    pub fn new(message: &str) -> (r: Self)
        ensures
            r.message@ == message@,
    {
        SyntaxError { message: String::from_str(message) }
    }
}

/// A malformed datetime literal.
#[derive(Debug)]
pub struct DatetimeSyntaxError {
    pub message: String,
    pub value: String,
}

impl DatetimeSyntaxError {
    pub fn new(message: &str, value: &str) -> (r: Self)
        ensures
            r.message@ == message@,
            r.value@ == value@,
    {
        DatetimeSyntaxError {
            message: String::from_str(message),
            value: String::from_str(value),
        }
    }
}

/// A malformed floating point literal.
#[derive(Debug)]
pub struct FloatSyntaxError {
    pub message: String,
    pub value: String,
}

impl FloatSyntaxError {
    pub fn new(message: &str, value: &str) -> (r: Self)
        ensures
            r.message@ == message@,
            r.value@ == value@,
    {
        FloatSyntaxError {
            message: String::from_str(message),
            value: String::from_str(value),
        }
    }
}

/// A malformed timedelta literal.
#[derive(Debug)]
pub struct TimedeltaSyntaxError {
    pub message: String,
    pub value: String,
}

impl TimedeltaSyntaxError {
    pub fn new(message: &str, value: &str) -> (r: Self)
        ensures
            r.message@ == message@,
            r.value@ == value@,
    {
        TimedeltaSyntaxError {
            message: String::from_str(message),
            value: String::from_str(value),
        }
    }
}

/// A malformed regular expression literal.
#[derive(Debug)]
pub struct RegexSyntaxError {
    pub message: String,
    pub error: String,
    pub value: String,
}

impl RegexSyntaxError {
    pub fn new(message: &str, error: &str, value: &str) -> (r: Self)
        ensures
            r.message@ == message@,
            r.error@ == error@,
            r.value@ == value@,
    {
        RegexSyntaxError {
            message: String::from_str(message),
            error: String::from_str(error),
            value: String::from_str(value),
        }
    }
}

/// A rule text that does not follow the grammar.  The position names either
/// the line and character offset of the offending lexeme, or "EOF" when the
/// input ended too early.
#[derive(Debug)]
pub struct RuleSyntaxError {
    pub message: String,
    pub position: String,
}

impl RuleSyntaxError {
    pub fn new(message: &str, token: Option<Token>) -> (r: Self)
        ensures
            match token {
                Some(t) => r.position@ == position_string(t.lineno as nat, t.lexpos as nat),
                None => r.position@ == "EOF"@,
            },
            r.message@ == message@ + " at: "@ + r.position@,
    {
        let position: String = match token {
            Some(t) => {
                let mut p = String::from_str("line ");
                p.append(format_usize(t.lineno).as_str());
                p.append(":");
                p.append(format_usize(t.lexpos).as_str());
                proof {
                    assert(p@ =~= position_string(t.lineno as nat, t.lexpos as nat));
                }
                p
            },
            None => String::from_str("EOF"),
        };
        let mut message_full = String::from_str(message);
        message_full.append(" at: ");
        message_full.append(position.as_str());
        proof {
            assert(message_full@ =~= message@ + " at: "@ + position@);
        }
        RuleSyntaxError { message: message_full, position }
    }
}

/// An intermediate key that is missing while traversing a record.
#[derive(Debug)]
pub struct AttributeResolutionError {
    pub attribute_name: String,
    pub object_: String,
    pub thing: String,
    pub suggestion: Option<String>,
}

impl AttributeResolutionError {
    pub fn new(attribute_name: &str, object_: &str, thing: &str, suggestion: Option<&str>) -> (r:
        Self)
        ensures
            r.attribute_name@ == attribute_name@,
            r.object_@ == object_@,
            r.thing@ == thing@,
            opt_view(r.suggestion) == opt_ref_view(suggestion),
    {
        AttributeResolutionError {
            attribute_name: String::from_str(attribute_name),
            object_: String::from_str(object_),
            thing: String::from_str(thing),
            suggestion: match suggestion {
                Some(s) => Some(String::from_str(s)),
                None => None,
            },
        }
    }
}

/// A record leaf whose runtime type disagrees with what the attribute path
/// asked for.
#[derive(Debug)]
pub struct AttributeTypeError {
    pub attribute_name: String,
    pub object_type: String,
    pub is_value: String,
    pub is_type: String,
    pub expected_type: String,
}

impl AttributeTypeError {
    pub fn new(
        attribute_name: &str,
        object_type: &str,
        is_value: &str,
        is_type: &str,
        expected_type: &str,
    ) -> (r: Self)
        ensures
            r.attribute_name@ == attribute_name@,
            r.object_type@ == object_type@,
            r.is_value@ == is_value@,
            r.is_type@ == is_type@,
            r.expected_type@ == expected_type@,
    {
        AttributeTypeError {
            attribute_name: String::from_str(attribute_name),
            object_type: String::from_str(object_type),
            is_value: String::from_str(is_value),
            is_type: String::from_str(is_type),
            expected_type: String::from_str(expected_type),
        }
    }
}

/// An item that is absent from a container.
#[derive(Debug)]
pub struct LookupError {
    pub container: String,
    pub item: String,
}

impl LookupError {
    pub fn new(container: &str, item: &str) -> (r: Self)
        ensures
            r.container@ == container@,
            r.item@ == item@,
    {
        LookupError { container: String::from_str(container), item: String::from_str(item) }
    }
}

/// A symbol or attribute path that could not be resolved anywhere, with an
/// optional "did you mean" suggestion.
#[derive(Debug)]
pub struct SymbolResolutionError {
    pub symbol_name: String,
    pub symbol_scope: Option<String>,
    pub thing: String,
    pub suggestion: Option<String>,
}

impl SymbolResolutionError {
    pub fn new(
        symbol_name: &str,
        symbol_scope: Option<&str>,
        thing: &str,
        suggestion: Option<&str>,
    ) -> (r: Self)
        ensures
            r.symbol_name@ == symbol_name@,
            opt_view(r.symbol_scope) == opt_ref_view(symbol_scope),
            r.thing@ == thing@,
            opt_view(r.suggestion) == opt_ref_view(suggestion),
    {
        SymbolResolutionError {
            symbol_name: String::from_str(symbol_name),
            symbol_scope: match symbol_scope {
                Some(s) => Some(String::from_str(s)),
                None => None,
            },
            thing: String::from_str(thing),
            suggestion: match suggestion {
                Some(s) => Some(String::from_str(s)),
                None => None,
            },
        }
    }
}

/// A resolved symbol whose runtime type disagrees with a statically declared
/// type.
#[derive(Debug)]
pub struct SymbolTypeError {
    pub symbol_name: String,
    pub is_value: String,
    pub is_type: String,
    pub expected_type: String,
}

impl SymbolTypeError {
    pub fn new(symbol_name: &str, is_value: &str, is_type: &str, expected_type: &str) -> (r: Self)
        ensures
            r.symbol_name@ == symbol_name@,
            r.is_value@ == is_value@,
            r.is_type@ == is_type@,
            r.expected_type@ == expected_type@,
    {
        SymbolTypeError {
            symbol_name: String::from_str(symbol_name),
            is_value: String::from_str(is_value),
            is_type: String::from_str(is_type),
            expected_type: String::from_str(expected_type),
        }
    }
}

/// A builtin that rejected its input type or failed internally.
#[derive(Debug)]
pub struct FunctionCallError {
    pub message: String,
    pub error: Option<String>,
    pub function_name: Option<String>,
}

impl FunctionCallError {
    pub fn new(message: &str, error: Option<&str>, function_name: Option<&str>) -> (r: Self)
        ensures
            r.message@ == message@,
            opt_view(r.error) == opt_ref_view(error),
            opt_view(r.function_name) == opt_ref_view(function_name),
    {
        FunctionCallError {
            message: String::from_str(message),
            error: match error {
                Some(s) => Some(String::from_str(s)),
                None => None,
            },
            function_name: match function_name {
                Some(s) => Some(String::from_str(s)),
                None => None,
            },
        }
    }
}

/// A parser failure as the embedding surface reports it.
#[derive(Debug)]
pub struct ParseError {
    pub message: String,
}

impl ParseError {
    pub fn new(message: &str) -> (r: Self)
        ensures
            r.message@ == message@,
    {
        ParseError { message: String::from_str(message) }
    }
}

/// The taxonomy: any error the engine can produce, at parse or evaluation
/// time.  Every failure travels as its own typed variant; there is no
/// untyped, message-only engine error, so callers can always tell the
/// kinds apart.
#[derive(Debug)]
pub enum EngineError {
    EvaluationError(EvaluationError),
    SyntaxError(SyntaxError),
    DatetimeSyntaxError(DatetimeSyntaxError),
    FloatSyntaxError(FloatSyntaxError),
    TimedeltaSyntaxError(TimedeltaSyntaxError),
    RegexSyntaxError(RegexSyntaxError),
    RuleSyntaxError(RuleSyntaxError),
    AttributeResolutionError(AttributeResolutionError),
    AttributeTypeError(AttributeTypeError),
    LookupError(LookupError),
    SymbolResolutionError(SymbolResolutionError),
    SymbolTypeError(SymbolTypeError),
    FunctionCallError(FunctionCallError),
}

impl View for EngineError {
    type V = ErrorKind;

    open spec fn view(&self) -> ErrorKind {
        match self {
            EngineError::EvaluationError(_) => ErrorKind::Evaluation,
            EngineError::SyntaxError(_) => ErrorKind::Syntax,
            EngineError::DatetimeSyntaxError(_) => ErrorKind::DatetimeSyntax,
            EngineError::FloatSyntaxError(_) => ErrorKind::FloatSyntax,
            EngineError::TimedeltaSyntaxError(_) => ErrorKind::TimedeltaSyntax,
            EngineError::RegexSyntaxError(_) => ErrorKind::RegexSyntax,
            EngineError::RuleSyntaxError(_) => ErrorKind::RuleSyntax,
            EngineError::AttributeResolutionError(_) => ErrorKind::AttributeResolution,
            EngineError::AttributeTypeError(_) => ErrorKind::AttributeType,
            EngineError::LookupError(_) => ErrorKind::Lookup,
            EngineError::SymbolResolutionError(_) => ErrorKind::SymbolResolution,
            EngineError::SymbolTypeError(_) => ErrorKind::SymbolType,
            EngineError::FunctionCallError(_) => ErrorKind::FunctionCall,
        }
    }
}

} // verus!
