use vstd::prelude::*;
use crate::text::str_eq;
use crate::type_model::ValueArm;
use crate::value::{AtValue, SqlError};

verus! {

/// A stored value that stands for `None`: SQL `NULL`, or the text `NULL`
/// that `to_sql_values` writes for a `None`.
pub open spec fn is_null_spec(v: AtValue) -> bool {
    ||| v is Null
    ||| (v matches AtValue::Text(t) && t@ == "NULL"@)
}

/// What a `None` field is written as: the text `NULL`.
pub fn null_marker() -> (r: AtValue)
    ensures
        r matches AtValue::Text(t) && t@ == "NULL"@,
{
    AtValue::Text(String::from_str("NULL"))
}

/// Whether a stored value stands for `None`.
pub fn is_null_value(v: &AtValue) -> (r: bool)
    ensures
        r == is_null_spec(*v),
{
    match v {
        AtValue::Null => true,
        AtValue::Text(t) => str_eq(t.as_str(), "NULL"),
        _ => false,
    }
}

/// What a `bool` field is written as: the text `1` or `0`, which a column
/// of `INTEGER` affinity stores as the integer 1 or 0.
pub fn bool_as_text(b: bool) -> (r: AtValue)
    ensures
        r matches AtValue::Text(t) && t@ == (if b { "1"@ } else { "0"@ }),
{
    AtValue::Text(String::from_str(if b { "1" } else { "0" }))
}

/// The result of a field's conversion into a stored value, as
/// `to_sql_values` passes it on: a failure becomes a `SerializationIssue`
/// carrying the text of the failure.
pub fn written(r: Result<AtValue, SqlError>) -> (w: Result<AtValue, SqlError>)
    ensures
        match r {
            Ok(v) => w == Ok::<AtValue, SqlError>(v),
            Err(e) => w matches Err(SqlError::SerializationIssue(m)) && m@ == e.message_spec(),
        },
{
    match r {
        Ok(v) => Ok(v),
        Err(why) => Err(SqlError::SerializationIssue(why.message())),
    }
}

/// A row must hold one value per field.
pub fn check_column_count(values: &[AtValue], expected: usize) -> (r: Result<(), SqlError>)
    ensures
        values@.len() == expected ==> r is Ok,
        values@.len() != expected ==> r == Err::<(), SqlError>(SqlError::ColumnCountMismatch),
{
    if values.len() != expected {
        Err(SqlError::ColumnCountMismatch)
    } else {
        Ok(())
    }
}

/// The error for a column whose value does not suit the field of this name.
pub fn invalid_data(field_name: &str) -> (r: SqlError)
    ensures
        r matches SqlError::InvalidData(s) && s@ == field_name@,
{
    SqlError::InvalidData(String::from_str(field_name))
}

/// A field value that a built-in conversion reads from a stored value.
/// The narrower integer types and `f32` are cast from these by the caller;
/// a real is carried as the bit pattern of its `f64`.
#[derive(Debug, Clone, PartialEq)]
pub enum ArmValue {
    Bool(bool),
    Int(i64),
    RealBits(u64),
    Text(String),
    Blob(Vec<u8>),
}

/// The stored value is of the kind that the conversion reads.
pub open spec fn arm_accepts(arm: ValueArm, v: AtValue) -> bool {
    match arm {
        ValueArm::Bool | ValueArm::I64 | ValueArm::IntCast(_) => v is Integer,
        ValueArm::F64 | ValueArm::F32 => v is Real,
        ValueArm::Text => v is Text,
        ValueArm::Blob => v is Blob,
    }
}

/// What the conversion reads from a value of its kind: a `bool` is any
/// integer but 0; integers, reals, texts and blobs are taken as they are.
pub open spec fn arm_reads(arm: ValueArm, v: AtValue, out: ArmValue) -> bool {
    match v {
        AtValue::Integer(i) => match arm {
            ValueArm::Bool => out == ArmValue::Bool(i != 0),
            _ => out == ArmValue::Int(i),
        },
        AtValue::Real(b) => out == ArmValue::RealBits(b),
        AtValue::Text(t) => out == ArmValue::Text(t),
        AtValue::Blob(b) => out matches ArmValue::Blob(x) && x@ == b@,
        AtValue::Null => false,
    }
}

/// The reading of a built-in field from its stored value: for a nullable
/// field a stored `None` gives `None`; a value of the conversion's kind gives
/// the field's value; anything else is `InvalidData` naming the field.
pub open spec fn read_arm_ok(
    arm: ValueArm,
    nullable: bool,
    v: AtValue,
    field_name: Seq<char>,
    r: Result<Option<ArmValue>, SqlError>,
) -> bool {
    if nullable && is_null_spec(v) {
        r == Ok::<Option<ArmValue>, SqlError>(None)
    } else if arm_accepts(arm, v) {
        r matches Ok(Some(out)) && arm_reads(arm, v, out)
    } else {
        r matches Err(SqlError::InvalidData(s)) && s@ == field_name
    }
}

/// Reads a field of a built-in type from its stored value (one field of
/// the `from_sql_values` body).
pub fn read_builtin(arm: &ValueArm, nullable: bool, v: &AtValue, field_name: &str) -> (r: Result<
    Option<ArmValue>,
    SqlError,
>)
    ensures
        read_arm_ok(*arm, nullable, *v, field_name@, r),
{
    if nullable && is_null_value(v) {
        return Ok(None);
    }
    let out = match v {
        AtValue::Integer(i) => match arm {
            ValueArm::Bool => Some(ArmValue::Bool(*i != 0)),
            ValueArm::I64 | ValueArm::IntCast(_) => Some(ArmValue::Int(*i)),
            _ => None,
        },
        AtValue::Real(b) => match arm {
            ValueArm::F64 | ValueArm::F32 => Some(ArmValue::RealBits(*b)),
            _ => None,
        },
        AtValue::Text(t) => match arm {
            ValueArm::Text => Some(ArmValue::Text(t.clone())),
            _ => None,
        },
        AtValue::Blob(b) => match arm {
            ValueArm::Blob => {
                let x = b.clone();
                assert(x@ =~= b@);
                Some(ArmValue::Blob(x))
            },
            _ => None,
        },
        AtValue::Null => None,
    };
    match out {
        Some(x) => Ok(Some(x)),
        None => Err(invalid_data(field_name)),
    }
}

/// The stored value that a field of a type with `AtSqlCodec` is decoded
/// from; `None` when the field is nullable and the value stands for `None`.
pub fn codec_input(nullable: bool, v: &AtValue) -> (r: Option<&AtValue>)
    ensures
        (r is None) <==> (nullable && is_null_spec(*v)),
        r matches Some(x) ==> *x == *v,
{
    if nullable && is_null_value(v) {
        None
    } else {
        Some(v)
    }
}

} // verus!
