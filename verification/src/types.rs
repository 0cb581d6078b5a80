//! The static type system: scalar and parametric data types, value-to-type
//! inference, and type compatibility, used for optional validation before
//! evaluation.

use vstd::prelude::*;
use vstd::string::*;
use crate::ast::{SpecValue, Value};
use crate::record::RecordNode;
use crate::utils::str_equal;

verus! {

/// A static data type.  Parametric variants carry their element, key and
/// value subtypes; `Undefined` unifies with everything.
#[derive(Debug, PartialEq)]
pub enum DataType {
    Array(Box<DataType>),
    Boolean,
    Datetime,
    Float,
    Function(Box<FunctionSignature>),
    Mapping(Box<DataType>, Box<DataType>),
    Null,
    SetOf(Box<DataType>),
    String,
    Timedelta,
    Undefined,
}

/// A function type: its return type, its argument types in order, and the
/// least number of arguments it accepts.
#[derive(Debug, PartialEq)]
pub struct FunctionSignature {
    pub return_type: DataType,
    pub argument_types: ArgumentTypes,
    pub minimum_arguments: usize,
}

/// The ordered argument types of a function type.
#[derive(Debug, PartialEq)]
pub enum ArgumentTypes {
    Empty,
    Cons(Box<DataType>, Box<ArgumentTypes>),
}

/// Type compatibility: reflexive on identical scalar kinds, always true
/// against `Undefined`, structural on container element types (a mapping
/// compares its value type), and exact — return type, ordered argument
/// types and minimum arity — between function types.
pub open spec fn spec_compatible(a: DataType, b: DataType) -> bool
    decreases a,
{
    match (a, b) {
        (DataType::Undefined, _) => true,
        (_, DataType::Undefined) => true,
        (DataType::Boolean, DataType::Boolean) => true,
        (DataType::Datetime, DataType::Datetime) => true,
        (DataType::Float, DataType::Float) => true,
        (DataType::Null, DataType::Null) => true,
        (DataType::String, DataType::String) => true,
        (DataType::Timedelta, DataType::Timedelta) => true,
        (DataType::Function(f1), DataType::Function(f2)) => f1 == f2,
        (DataType::Array(e1), DataType::Array(e2)) => spec_compatible(*e1, *e2),
        (DataType::SetOf(e1), DataType::SetOf(e2)) => spec_compatible(*e1, *e2),
        (DataType::Mapping(_, v1), DataType::Mapping(_, v2)) => spec_compatible(*v1, *v2),
        _ => false,
    }
}

/// Structural equality of two data types, computed.
fn data_type_equal(a: &DataType, b: &DataType) -> (r: bool)
    ensures
        r == (a == b),
    decreases a,
{
    match (a, b) {
        (DataType::Boolean, DataType::Boolean) => true,
        (DataType::Datetime, DataType::Datetime) => true,
        (DataType::Float, DataType::Float) => true,
        (DataType::Null, DataType::Null) => true,
        (DataType::String, DataType::String) => true,
        (DataType::Timedelta, DataType::Timedelta) => true,
        (DataType::Undefined, DataType::Undefined) => true,
        (DataType::Array(e1), DataType::Array(e2)) => data_type_equal(e1, e2),
        (DataType::SetOf(e1), DataType::SetOf(e2)) => data_type_equal(e1, e2),
        (DataType::Mapping(k1, v1), DataType::Mapping(k2, v2)) => data_type_equal(k1, k2)
            && data_type_equal(v1, v2),
        (DataType::Function(f1), DataType::Function(f2)) => signature_equal(f1, f2),
        _ => false,
    }
}

/// Structural equality of two function signatures, computed.
fn signature_equal(a: &FunctionSignature, b: &FunctionSignature) -> (r: bool)
    ensures
        r == (a == b),
    decreases a,
{
    data_type_equal(&a.return_type, &b.return_type) && argument_types_equal(
        &a.argument_types,
        &b.argument_types,
    ) && a.minimum_arguments == b.minimum_arguments
}

/// Structural equality of two argument type lists, computed.
fn argument_types_equal(a: &ArgumentTypes, b: &ArgumentTypes) -> (r: bool)
    ensures
        r == (a == b),
    decreases a,
{
    match (a, b) {
        (ArgumentTypes::Empty, ArgumentTypes::Empty) => true,
        (ArgumentTypes::Cons(h1, t1), ArgumentTypes::Cons(h2, t2)) => data_type_equal(h1, h2)
            && argument_types_equal(t1, t2),
        _ => false,
    }
}

/// The type a host type name maps to, by the embedding's naming.
pub open spec fn spec_from_type(name: Seq<char>) -> Option<DataType> {
    if name == "list"@ || name == "range"@ || name == "tuple"@ {
        Some(DataType::Array(Box::new(DataType::Undefined)))
    } else if name == "bool"@ {
        Some(DataType::Boolean)
    } else if name == "datetime.date"@ || name == "datetime.datetime"@ {
        Some(DataType::Datetime)
    } else if name == "datetime.timedelta"@ {
        Some(DataType::Timedelta)
    } else if name == "decimal.Decimal"@ || name == "float"@ || name == "int"@ {
        Some(DataType::Float)
    } else if name == "dict"@ {
        Some(DataType::Mapping(Box::new(DataType::Undefined), Box::new(DataType::Undefined)))
    } else if name == "NoneType"@ {
        Some(DataType::Null)
    } else if name == "set"@ {
        Some(DataType::SetOf(Box::new(DataType::Undefined)))
    } else if name == "str"@ {
        Some(DataType::String)
    } else if name == "_PYTHON_FUNCTION_TYPE"@ {
        Some(
            DataType::Function(
                Box::new(
                    FunctionSignature {
                        return_type: DataType::Undefined,
                        argument_types: ArgumentTypes::Empty,
                        minimum_arguments: 0,
                    },
                ),
            ),
        )
    } else {
        None
    }
}

/// The type of a scalar value: integers and floats are one numeric kind.
pub open spec fn spec_from_value(v: SpecValue) -> DataType {
    match v {
        SpecValue::Boolean(_) => DataType::Boolean,
        SpecValue::Float { units, scale } => DataType::Float,
        SpecValue::Integer(_) => DataType::Float,
        SpecValue::String(_) => DataType::String,
    }
}

impl DataType {
    /// Infers a static type from a runtime scalar value.
    pub fn from_value(value: &Value) -> (r: DataType)
        ensures
            r == spec_from_value(value@),
    {
        match value {
            Value::Boolean(_) => DataType::Boolean,
            Value::Float(_) => DataType::Float,
            Value::Integer(_) => DataType::Float,
            Value::String(_) => DataType::String,
        }
    }

    /// Infers a static type from a record node: a leaf types as its value,
    /// a nested mapping as a mapping of not-yet-known types.
    pub fn from_record_node(node: &RecordNode) -> (r: DataType)
        ensures
            match node {
                RecordNode::Leaf(v) => r == spec_from_value(v@),
                RecordNode::Nested(_) => r == DataType::Mapping(
                    Box::new(DataType::Undefined),
                    Box::new(DataType::Undefined),
                ),
            },
    {
        match node {
            RecordNode::Leaf(v) => DataType::from_value(v),
            RecordNode::Nested(_) => DataType::Mapping(
                Box::new(DataType::Undefined),
                Box::new(DataType::Undefined),
            ),
        }
    }

    /// Maps a host type name to a static type.
    pub fn from_type(python_type: &str) -> (r: Option<DataType>)
        ensures
            r == spec_from_type(python_type@),
    {
        if str_equal(python_type, "list") || str_equal(python_type, "range") || str_equal(
            python_type,
            "tuple",
        ) {
            Some(DataType::Array(Box::new(DataType::Undefined)))
        } else if str_equal(python_type, "bool") {
            Some(DataType::Boolean)
        } else if str_equal(python_type, "datetime.date") || str_equal(
            python_type,
            "datetime.datetime",
        ) {
            Some(DataType::Datetime)
        } else if str_equal(python_type, "datetime.timedelta") {
            Some(DataType::Timedelta)
        } else if str_equal(python_type, "decimal.Decimal") || str_equal(python_type, "float")
            || str_equal(python_type, "int") {
            Some(DataType::Float)
        } else if str_equal(python_type, "dict") {
            Some(DataType::Mapping(Box::new(DataType::Undefined), Box::new(DataType::Undefined)))
        } else if str_equal(python_type, "NoneType") {
            Some(DataType::Null)
        } else if str_equal(python_type, "set") {
            Some(DataType::SetOf(Box::new(DataType::Undefined)))
        } else if str_equal(python_type, "str") {
            Some(DataType::String)
        } else if str_equal(python_type, "_PYTHON_FUNCTION_TYPE") {
            // The host's function type carries no signature information, so
            // it maps to a function type whose signature is not determined.
            Some(
                DataType::Function(
                    Box::new(
                        FunctionSignature {
                            return_type: DataType::Undefined,
                            argument_types: ArgumentTypes::Empty,
                            minimum_arguments: 0,
                        },
                    ),
                ),
            )
        } else {
            None
        }
    }

    /// Whether two types are compatible, as `spec_compatible` states.
    pub fn is_compatible(&self, other: &DataType) -> (r: bool)
        ensures
            r == spec_compatible(*self, *other),
        decreases self,
    {
        match (self, other) {
            (DataType::Undefined, _) => true,
            (_, DataType::Undefined) => true,
            (DataType::Boolean, DataType::Boolean) => true,
            (DataType::Datetime, DataType::Datetime) => true,
            (DataType::Float, DataType::Float) => true,
            (DataType::Null, DataType::Null) => true,
            (DataType::String, DataType::String) => true,
            (DataType::Timedelta, DataType::Timedelta) => true,
            (DataType::Function(f1), DataType::Function(f2)) => signature_equal(f1, f2),
            (DataType::Array(e1), DataType::Array(e2)) => e1.is_compatible(e2),
            (DataType::SetOf(e1), DataType::SetOf(e2)) => e1.is_compatible(e2),
            (DataType::Mapping(_, v1), DataType::Mapping(_, v2)) => v1.is_compatible(v2),
            _ => false,
        }
    }
}

/// A named binding with its value and, optionally, the value's inferred
/// static type.  The inferred type is fixed at construction and never
/// changes afterwards.
#[derive(Debug)]
pub struct Assignment {
    pub name: String,
    pub value: Value,
    pub value_type: Option<DataType>,
}

impl Assignment {
    /// Builds a binding; when a type was asked for, it is inferred from the
    /// value itself.
    pub fn new(name: String, value: Value, value_type: Option<DataType>) -> (r: Self)
        ensures
            r.name@ == name@,
            r.value == value,
            match value_type {
                Some(_) => r.value_type == Some(spec_from_value(value@)),
                None => r.value_type is None,
            },
    {
        let inferred: Option<DataType> = if value_type.is_some() {
            Some(DataType::from_value(&value))
        } else {
            None
        };
        Assignment { name, value, value_type: inferred }
    }
}

} // verus!
