//! The builtin registry: named pure functions that an attribute path may
//! invoke as its trailing step.
//!
//! The registry is fixed at compile time; extending it means adding a
//! variant here, not mutating anything at evaluation time.

use vstd::prelude::*;
use vstd::string::*;
use crate::ast::{EvalResult, SpecValue, Value, eval_result_view};
use crate::errors::{EngineError, ErrorKind, FunctionCallError, SymbolResolutionError};
use crate::utils::str_equal;

verus! {

/// What `str::to_lowercase` returns for a given character sequence.
pub uninterp spec fn lower_of(s: Seq<char>) -> Seq<char>;

/// The canonical primary language subtag that `unic_langid` extracts from a
/// language tag, if the tag parses.
pub uninterp spec fn langid_primary(s: Seq<char>) -> Option<Seq<char>>;

/// Relies on `str::to_lowercase`: the result depends on the characters
/// alone, and an empty string stays empty.
#[verifier::external_body]
fn lowercase(s: &str) -> (r: String)
    ensures
        r@ == lower_of(s@),
        s@.len() == 0 ==> r@.len() == 0,
{
    s.to_lowercase()
}

/// Relies on `unic_langid::LanguageIdentifier::from_str` and on the
/// rendering of its `language` field: both are pure functions of the input
/// bytes, so the primary subtag of a tag depends on the tag alone.
#[verifier::external_body]
fn language_primary_subtag(s: &str) -> (r: Option<String>)
    ensures
        match r {
            Some(t) => langid_primary(s@) == Some(t@),
            None => langid_primary(s@) is None,
        },
{
    match <unic_langid::LanguageIdentifier as core::str::FromStr>::from_str(s) {
        Ok(l) => Some(l.language.to_string()),
        Err(_) => None,
    }
}

/// A builtin that can terminate an attribute path.
#[derive(Clone, Copy, Debug, PartialEq, Eq, Structural)]
pub enum Builtin {
    AsLower,
    LanguageCode,
}

/// The name-to-builtin table.
pub open spec fn spec_builtin_of(id: Seq<char>) -> Option<Builtin> {
    if id == "as_lower"@ {
        Some(Builtin::AsLower)
    } else if id == "language_code"@ {
        Some(Builtin::LanguageCode)
    } else {
        None
    }
}

/// Looks a builtin up by name; an unregistered name is a resolution error.
pub fn resolve_builtin_methods(identifier: &str) -> (r: Result<Builtin, SymbolResolutionError>)
    ensures
        match r {
            Ok(b) => spec_builtin_of(identifier@) == Some(b),
            Err(_) => spec_builtin_of(identifier@) is None,
        },
{
    if str_equal(identifier, "as_lower") {
        Ok(Builtin::AsLower)
    } else if str_equal(identifier, "language_code") {
        Ok(Builtin::LanguageCode)
    } else {
        Err(SymbolResolutionError::new(identifier, None, "builtins", None))
    }
}

/// What `as_lower` returns: the lowercased string, or a function-call error
/// on any non-string input.
pub open spec fn spec_as_lower(v: SpecValue) -> Result<SpecValue, ErrorKind> {
    match v {
        SpecValue::String(s) => Ok(SpecValue::String(lower_of(s))),
        _ => Err(ErrorKind::FunctionCall),
    }
}

/// The index of the first `'-'` in a character sequence, or its length.
pub open spec fn dash_index(s: Seq<char>) -> nat
    decreases s.len(),
{
    if s.len() == 0 {
        0
    } else if s[0] == '-' {
        0
    } else {
        1 + dash_index(s.drop_first())
    }
}

/// The part of a language tag before its first `'-'`.
pub open spec fn spec_dash_prefix(s: Seq<char>) -> Seq<char> {
    s.subrange(0, dash_index(s) as int)
}

/// What `language_code` returns: the primary subtag of the tag, falling
/// back to the part before the first dash, or a resolution error when
/// neither parses or the input is not a string.
pub open spec fn spec_language_code(v: SpecValue) -> Result<SpecValue, ErrorKind> {
    match v {
        SpecValue::String(s) => match langid_primary(s) {
            Some(t) => Ok(SpecValue::String(t)),
            None => match langid_primary(spec_dash_prefix(s)) {
                Some(t) => Ok(SpecValue::String(t)),
                None => Err(ErrorKind::SymbolResolution),
            },
        },
        _ => Err(ErrorKind::SymbolResolution),
    }
}

/// What applying a builtin to a value returns.
pub open spec fn spec_apply_builtin(b: Builtin, v: SpecValue) -> Result<SpecValue, ErrorKind> {
    match b {
        Builtin::AsLower => spec_as_lower(v),
        Builtin::LanguageCode => spec_language_code(v),
    }
}

/// A position `i` with no dash before it and a dash (or the end) at it is
/// exactly where `dash_index` points.
proof fn lemma_dash_index(s: Seq<char>, i: nat)
    requires
        i <= s.len(),
        forall|j: int| 0 <= j < i ==> s[j] != '-',
        i == s.len() || s[i as int] == '-',
    ensures
        dash_index(s) == i,
    decreases i,
{
    if s.len() == 0 {
    } else if i == 0 {
    } else {
        assert(s[0] != '-');
        lemma_dash_index(s.drop_first(), (i - 1) as nat);
    }
}

/// The part of a string before its first `'-'`, as a new string.
fn dash_prefix(s: &String) -> (r: String)
    ensures
        r@ == spec_dash_prefix(s@),
{
    let n: usize = s.as_str().unicode_len();
    let mut i: usize = 0;
    while i < n
        invariant
            n == s@.len(),
            i <= n,
            forall|j: int| 0 <= j < i ==> s@[j] != '-',
        decreases n - i,
    {
        if s.as_str().get_char(i) == '-' {
            proof {
                lemma_dash_index(s@, i as nat);
            }
            let p = s.as_str().substring_char(0, i);
            return String::from_str(p);
        }
        i = i + 1;
    }
    proof {
        lemma_dash_index(s@, n as nat);
        assert(s@.subrange(0, n as int) =~= s@);
    }
    String::from_str(s.as_str())
}

/// Lowercases a string value; any other input is rejected with a
/// function-call error.
pub fn as_lower(value: Value) -> (r: EvalResult)
    ensures
        eval_result_view(r) == spec_as_lower(value@),
{
    match value {
        Value::String(s) => Ok(Value::String(lowercase(s.as_str()))),
        _ => Err(
            EngineError::FunctionCallError(
                FunctionCallError::new("Expected string", None, Some("as_lower")),
            ),
        ),
    }
}

/// Extracts the ISO primary language subtag from a language tag such as
/// `en-US`, retrying with the part before the first dash; any failure is a
/// resolution error.
pub fn language_code(eval_result: Value) -> (r: EvalResult)
    ensures
        eval_result_view(r) == spec_language_code(eval_result@),
{
    match eval_result {
        Value::String(value) => {
            match language_primary_subtag(value.as_str()) {
                Some(t) => Ok(Value::String(t)),
                None => {
                    let prefix = dash_prefix(&value);
                    match language_primary_subtag(prefix.as_str()) {
                        Some(t) => Ok(Value::String(t)),
                        None => Err(
                            EngineError::SymbolResolutionError(
                                SymbolResolutionError::new(
                                    value.as_str(),
                                    None,
                                    "language_code",
                                    None,
                                ),
                            ),
                        ),
                    }
                },
            }
        },
        _ => Err(
            EngineError::SymbolResolutionError(
                SymbolResolutionError::new("language_code", None, "builtins", Some(
                    "Expected string",
                )),
            ),
        ),
    }
}

/// Applies a builtin to an already-resolved value.
pub fn apply_builtin(b: &Builtin, value: Value) -> (r: EvalResult)
    ensures
        eval_result_view(r) == spec_apply_builtin(*b, value@),
{
    match b {
        Builtin::AsLower => as_lower(value),
        Builtin::LanguageCode => language_code(value),
    }
}

/// Relies on `rand::random`: a uniformly distributed value, of which the
/// contract claims nothing.
pub assume_specification<T>[ rand::random::<T> ]() -> (r: T)
    where
        rand::distr::StandardUniform: rand::distr::Distribution<T>,
;

/// A random integer, reduced below the bound when one is given.
pub fn builtin_random(boundary: Option<u32>) -> (r: u32)
    ensures
        boundary matches Some(b) ==> r <= b,
{
    let draw: u32 = rand::random::<u32>();
    match boundary {
        Some(b) => {
            if b == u32::MAX {
                draw
            } else {
                draw % (b + 1)
            }
        },
        None => draw,
    }
}

} // verus!
