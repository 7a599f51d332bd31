//! Recovering the declared name of a record from the way it encodes itself.
//!
//! A value that drives a serializer invokes exactly one top-level operation of
//! the serialization contract. Only the operations that stand for named shapes
//! (unit struct, newtype struct, tuple struct, struct and the enum variants)
//! carry a declared name; every other operation means the value is not a
//! named record.
use vstd::prelude::*;

verus! {

/// The signal that a value does not encode as a named record. It carries no detail.
#[derive(Debug, Clone, Copy, PartialEq, Eq, Structural)]
pub struct NotStruct;

/// The text that stands for `NotStruct` wherever an error message is needed.
pub const NOT_STRUCT_MESSAGE: &'static str = "not struct";

impl NotStruct {
    /// The fixed message of the signal.
    pub fn description(&self) -> (r: &'static str)
        ensures
            r == NOT_STRUCT_MESSAGE,
    {
        NOT_STRUCT_MESSAGE
    }
}

/// The top-level operation that a value invokes when it is serialized, with
/// the arguments that a named shape hands over. Primitive values are left out:
/// the probe never looks at them.
#[derive(Debug, Clone, Copy, PartialEq, Eq)]
pub enum SerializeOp {
    Bool,
    I8,
    I16,
    I32,
    I64,
    I128,
    U8,
    U16,
    U32,
    U64,
    U128,
    F32,
    F64,
    Char,
    Str,
    Bytes,
    NoneValue,
    SomeValue,
    Unit,
    UnitStruct { name: &'static str },
    UnitVariant { name: &'static str, variant_index: u32, variant: &'static str },
    NewtypeStruct { name: &'static str },
    NewtypeVariant { name: &'static str, variant_index: u32, variant: &'static str },
    Sequence { len: Option<usize> },
    Tuple { len: usize },
    TupleStruct { name: &'static str, len: usize },
    TupleVariant { name: &'static str, variant_index: u32, variant: &'static str, len: usize },
    Mapping { len: Option<usize> },
    Struct { name: &'static str, len: usize },
    StructVariant { name: &'static str, variant_index: u32, variant: &'static str, len: usize },
}

/// The name that an operation declares, if it stands for a named shape.
pub open spec fn declared_name(op: SerializeOp) -> Option<&'static str> {
    match op {
        SerializeOp::UnitStruct { name } => Option::Some(name),
        SerializeOp::UnitVariant { name, .. } => Option::Some(name),
        SerializeOp::NewtypeStruct { name } => Option::Some(name),
        SerializeOp::NewtypeVariant { name, .. } => Option::Some(name),
        SerializeOp::TupleStruct { name, .. } => Option::Some(name),
        SerializeOp::TupleVariant { name, .. } => Option::Some(name),
        SerializeOp::Struct { name, .. } => Option::Some(name),
        SerializeOp::StructVariant { name, .. } => Option::Some(name),
        _ => Option::None,
    }
}

/// What probing an operation yields: its declared name, or `NotStruct`.
pub open spec fn probe_result(op: SerializeOp) -> Result<&'static str, NotStruct> {
    match declared_name(op) {
        Option::Some(name) => Ok(name),
        Option::None => Err(NotStruct),
    }
}

/// The structural name of a value whose serialization starts with `op`.
pub fn structural_name(op: &SerializeOp) -> (r: Result<&'static str, NotStruct>)
    ensures
        r == probe_result(*op),
{
    match *op {
        SerializeOp::UnitStruct { name } => Ok(name),
        SerializeOp::UnitVariant { name, .. } => Ok(name),
        SerializeOp::NewtypeStruct { name } => Ok(name),
        SerializeOp::NewtypeVariant { name, .. } => Ok(name),
        SerializeOp::TupleStruct { name, .. } => Ok(name),
        SerializeOp::TupleVariant { name, .. } => Ok(name),
        SerializeOp::Struct { name, .. } => Ok(name),
        SerializeOp::StructVariant { name, .. } => Ok(name),
        _ => Err(NotStruct),
    }
}

/// A probe in the middle of a multi-step aggregate (tuple struct, struct or
/// variant with fields): it holds the name given when the aggregate began and
/// discards every field.
#[derive(Debug, Clone, Copy, PartialEq, Eq)]
pub struct NamedAggregate {
    name: &'static str,
}

impl NamedAggregate {
    /// The name captured when the aggregate began.
    pub closed spec fn spec_name(self) -> &'static str {
        self.name
    }

    /// Begins an aggregate: succeeds exactly on the named shapes, keeping the name.
    pub fn begin(op: &SerializeOp) -> (r: Result<NamedAggregate, NotStruct>)
        ensures
            r is Ok <==> declared_name(*op) is Some,
            r matches Ok(agg) ==> declared_name(*op) == Option::Some(agg.spec_name()),
    {
        match structural_name(op) {
            Ok(name) => Ok(NamedAggregate { name }),
            Err(e) => Err(e),
        }
    }

    /// Accepts one field or element: always succeeds, and neither looks at the
    /// value nor changes the probe.
    pub fn accept_field(&mut self) -> (r: Result<(), NotStruct>)
        ensures
            r == Ok::<(), NotStruct>(()),
            *final(self) == *old(self),
    {
        Ok(())
    }

    /// Ends the aggregate with the name captured at its beginning.
    pub fn end(self) -> (r: Result<&'static str, NotStruct>)
        ensures
            r == Ok::<&'static str, NotStruct>(self.spec_name()),
    {
        Ok(self.name)
    }
}

} // verus!
