//! The scalar a port carries, and its flat form: a kind next to a payload.

use crate::text::text_eq;
use vstd::prelude::*;

verus! {

/// A dynamically typed scalar.
///
/// A double is carried as its 64-bit IEEE 754 pattern: the library moves
/// doubles and never computes with them.
#[derive(Clone, Copy, Debug, PartialEq, Eq, Structural)]
pub enum Value {
    Float(u64),
    Integer(isize),
    Bool(bool),
}

/// The discriminant of a flat record. In the C layout the kinds are numbered
/// in the order in which they are declared here.
#[derive(Clone, Copy, Debug, PartialEq, Eq, Structural)]
pub enum CPyPortType {
    Float,
    Int,
    Bool,
}

/// The payload of a flat record: one member for each kind.
///
/// Only the member that the record's discriminant names holds the scalar.
/// The other two carry no meaning and are never read.
#[derive(Clone, Copy, Debug, PartialEq, Eq, Structural)]
pub struct CPyPortValue {
    /// The 64-bit pattern of the double, for `CPyPortType::Float`.
    pub d: u64,
    /// The signed word, for `CPyPortType::Int`.
    pub i: isize,
    /// The truth value, for `CPyPortType::Bool`.
    pub b: bool,
}

impl CPyPortType {
    /// The number that stands for this kind in the C layout.
    pub open spec fn spec_code(self) -> int {
        match self {
            CPyPortType::Float => 0,
            CPyPortType::Int => 1,
            CPyPortType::Bool => 2,
        }
    }

    /// The kind that a number of the C layout stands for, if any.
    pub open spec fn spec_from_code(code: int) -> Option<CPyPortType> {
        if code == 0 {
            Some(CPyPortType::Float)
        } else if code == 1 {
            Some(CPyPortType::Int)
        } else if code == 2 {
            Some(CPyPortType::Bool)
        } else {
            None
        }
    }

    /// The kind that a component's type tag names. `float`, `int` and `bool`
    /// are the three tags there are.
    pub open spec fn spec_of_tag(tag: Seq<char>) -> Option<CPyPortType> {
        if tag == "float"@ {
            Some(CPyPortType::Float)
        } else if tag == "int"@ {
            Some(CPyPortType::Int)
        } else if tag == "bool"@ {
            Some(CPyPortType::Bool)
        } else {
            None
        }
    }

    /// Recognises a type tag.
    pub fn of_tag(tag: &str) -> (kind: Option<CPyPortType>)
        ensures
            kind == Self::spec_of_tag(tag@),
    {
        if text_eq(tag, "float") {
            Some(CPyPortType::Float)
        } else if text_eq(tag, "int") {
            Some(CPyPortType::Int)
        } else if text_eq(tag, "bool") {
            Some(CPyPortType::Bool)
        } else {
            None
        }
    }

    /// The number of this kind in the C layout.
    pub fn code(self) -> (c: u32)
        ensures
            c == self.spec_code(),
    {
        match self {
            CPyPortType::Float => 0,
            CPyPortType::Int => 1,
            CPyPortType::Bool => 2,
        }
    }

    /// The kind of a number of the C layout, or `None` for a number that
    /// names no kind.
    pub fn from_code(code: u32) -> (kind: Option<CPyPortType>)
        ensures
            kind == Self::spec_from_code(code as int),
    {
        if code == 0 {
            Some(CPyPortType::Float)
        } else if code == 1 {
            Some(CPyPortType::Int)
        } else if code == 2 {
            Some(CPyPortType::Bool)
        } else {
            None
        }
    }
}

impl Value {
    /// The discriminant under which this value is laid out.
    pub open spec fn kind(self) -> CPyPortType {
        match self {
            Value::Float(_) => CPyPortType::Float,
            Value::Integer(_) => CPyPortType::Int,
            Value::Bool(_) => CPyPortType::Bool,
        }
    }

    /// The payload under which this value is laid out: the scalar in the
    /// member of its kind, zero in the other two.
    pub open spec fn payload(self) -> CPyPortValue {
        match self {
            Value::Float(d) => CPyPortValue { d, i: 0, b: false },
            Value::Integer(i) => CPyPortValue { d: 0, i, b: false },
            Value::Bool(b) => CPyPortValue { d: 0, i: 0, b },
        }
    }

    /// The value that a discriminant and a payload stand for: the member
    /// that the discriminant names, and nothing else of the payload.
    pub open spec fn of_flat(kind: CPyPortType, payload: CPyPortValue) -> Value {
        match kind {
            CPyPortType::Float => Value::Float(payload.d),
            CPyPortType::Int => Value::Integer(payload.i),
            CPyPortType::Bool => Value::Bool(payload.b),
        }
    }
}

/// The discriminant of a value's flat form.
pub fn as_c_port_type(value: &Value) -> (kind: CPyPortType)
    ensures
        kind == value.kind(),
{
    match value {
        Value::Float(_) => CPyPortType::Float,
        Value::Integer(_) => CPyPortType::Int,
        Value::Bool(_) => CPyPortType::Bool,
    }
}

/// The payload of a value's flat form.
pub fn as_c_port_value(value: &Value) -> (payload: CPyPortValue)
    ensures
        payload == value.payload(),
{
    match value {
        Value::Float(d) => CPyPortValue { d: *d, i: 0, b: false },
        Value::Integer(i) => CPyPortValue { d: 0, i: *i, b: false },
        Value::Bool(b) => CPyPortValue { d: 0, i: 0, b: *b },
    }
}

/// Laying a value out and reading it back gives the value.
pub proof fn lemma_flat_round_trip(value: Value)
    ensures
        Value::of_flat(value.kind(), value.payload()) == value,
{
}

/// What a flat form stands for depends on the discriminant and on the member
/// that it names alone: the two other members of the payload may hold
/// anything.
pub proof fn lemma_reads_named_member_only(kind: CPyPortType, p: CPyPortValue, q: CPyPortValue)
    requires
        kind == CPyPortType::Float ==> p.d == q.d,
        kind == CPyPortType::Int ==> p.i == q.i,
        kind == CPyPortType::Bool ==> p.b == q.b,
    ensures
        Value::of_flat(kind, p) == Value::of_flat(kind, q),
{
}

/// Reading a flat form gives a value of the kind that its discriminant names.
pub proof fn lemma_of_flat_kind(kind: CPyPortType, payload: CPyPortValue)
    ensures
        Value::of_flat(kind, payload).kind() == kind,
{
}

} // verus!
