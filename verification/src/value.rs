use vstd::prelude::*;

verus! {

/// A value as SQLite stores it.
///
/// A floating-point value is carried as the IEEE-754 bit pattern of its
/// `f64` (`f64::to_bits`), so that this library stays free of floating point.
#[derive(Debug, Clone, PartialEq)]
pub enum AtValue {
    Null,
    Integer(i64),
    Real(u64),
    Text(String),
    Blob(Vec<u8>),
}

/// Errors raised while moving values between Rust and SQL.
#[derive(Debug, Clone, PartialEq)]
pub enum SqlError {
    /// A row had another number of columns than the struct has fields.
    ColumnCountMismatch,
    /// A column held a value of the wrong kind for the named field.
    InvalidData(String),
    /// A value could not be turned into an SQL value.
    SerializationIssue(String),
}

impl SqlError {
    /// The text of the error, as it is shown to a user.
    pub open spec fn message_spec(self) -> Seq<char> {
        match self {
            SqlError::ColumnCountMismatch => "column count mismatch"@,
            SqlError::InvalidData(field) => "invalid data for `"@ + field@ + "`"@,
            SqlError::SerializationIssue(why) => "serialization issue: "@ + why@,
        }
    }

    /// The text of the error, as it is shown to a user.
    pub fn message(&self) -> (r: String)
        ensures
            r@ == self.message_spec(),
    {
        match self {
            SqlError::ColumnCountMismatch => String::from_str("column count mismatch"),
            SqlError::InvalidData(field) => {
                let mut m = String::from_str("invalid data for `");
                m.append(field.as_str());
                m.append("`");
                m
            },
            SqlError::SerializationIssue(why) => {
                let mut m = String::from_str("serialization issue: ");
                m.append(why.as_str());
                m
            },
        }
    }
}

/// Parameters bound to a statement.
#[derive(Debug, Clone, PartialEq)]
pub enum AtParams {
    /// No parameter at all.
    Empty,
    Positional(Vec<AtValue>),
    Named(Vec<(String, AtValue)>),
}

/// Conversion of a Rust value into an [`AtValue`].
pub trait AtIntoValue: Sized {
    fn into_value(self) -> Result<AtValue, SqlError>;
}

impl AtIntoValue for AtValue {
    fn into_value(self) -> (r: Result<AtValue, SqlError>)
        ensures
            r == Ok::<AtValue, SqlError>(self),
    {
        Ok(self)
    }
}

impl AtIntoValue for u8 {
    fn into_value(self) -> (r: Result<AtValue, SqlError>)
        ensures
            r == Ok::<AtValue, SqlError>(AtValue::Integer(self as i64)),
    {
        Ok(AtValue::Integer(self as i64))
    }
}

impl AtIntoValue for u16 {
    fn into_value(self) -> (r: Result<AtValue, SqlError>)
        ensures
            r == Ok::<AtValue, SqlError>(AtValue::Integer(self as i64)),
    {
        Ok(AtValue::Integer(self as i64))
    }
}

impl AtIntoValue for u32 {
    fn into_value(self) -> (r: Result<AtValue, SqlError>)
        ensures
            r == Ok::<AtValue, SqlError>(AtValue::Integer(self as i64)),
    {
        Ok(AtValue::Integer(self as i64))
    }
}

/// Values above `i64::MAX` wrap around, as `as i64` does.
impl AtIntoValue for u64 {
    fn into_value(self) -> (r: Result<AtValue, SqlError>)
        ensures
            r == Ok::<AtValue, SqlError>(AtValue::Integer(self as i64)),
    {
        Ok(AtValue::Integer(self as i64))
    }
}

impl AtIntoValue for i8 {
    fn into_value(self) -> (r: Result<AtValue, SqlError>)
        ensures
            r == Ok::<AtValue, SqlError>(AtValue::Integer(self as i64)),
    {
        Ok(AtValue::Integer(self as i64))
    }
}

impl AtIntoValue for i16 {
    fn into_value(self) -> (r: Result<AtValue, SqlError>)
        ensures
            r == Ok::<AtValue, SqlError>(AtValue::Integer(self as i64)),
    {
        Ok(AtValue::Integer(self as i64))
    }
}

impl AtIntoValue for i32 {
    fn into_value(self) -> (r: Result<AtValue, SqlError>)
        ensures
            r == Ok::<AtValue, SqlError>(AtValue::Integer(self as i64)),
    {
        Ok(AtValue::Integer(self as i64))
    }
}

impl AtIntoValue for i64 {
    fn into_value(self) -> (r: Result<AtValue, SqlError>)
        ensures
            r == Ok::<AtValue, SqlError>(AtValue::Integer(self)),
    {
        Ok(AtValue::Integer(self))
    }
}

/// `true` is stored as 1, `false` as 0.
impl AtIntoValue for bool {
    fn into_value(self) -> (r: Result<AtValue, SqlError>)
        ensures
            r == Ok::<AtValue, SqlError>(AtValue::Integer(if self { 1 } else { 0 })),
    {
        Ok(AtValue::Integer(if self { 1 } else { 0 }))
    }
}

/// A floating-point value carried as the bit pattern of its `f64`
/// (`f64::to_bits`), so that floats can be written without this library
/// holding one; it is stored as an SQL real.
#[derive(Debug, Clone, Copy, PartialEq, Eq)]
pub struct RealBits(pub u64);

impl AtIntoValue for RealBits {
    fn into_value(self) -> (r: Result<AtValue, SqlError>)
        ensures
            r == Ok::<AtValue, SqlError>(AtValue::Real(self.0)),
    {
        Ok(AtValue::Real(self.0))
    }
}

impl<'a> AtIntoValue for &'a RealBits {
    fn into_value(self) -> (r: Result<AtValue, SqlError>)
        ensures
            r == Ok::<AtValue, SqlError>(AtValue::Real(self.0)),
    {
        Ok(AtValue::Real(self.0))
    }
}

impl AtIntoValue for String {
    fn into_value(self) -> (r: Result<AtValue, SqlError>)
        ensures
            r == Ok::<AtValue, SqlError>(AtValue::Text(self)),
    {
        Ok(AtValue::Text(self))
    }
}

impl<'a> AtIntoValue for &'a str {
    fn into_value(self) -> (r: Result<AtValue, SqlError>)
        ensures
            r matches Ok(AtValue::Text(t)) && t@ == self@,
    {
        Ok(AtValue::Text(String::from_str(self)))
    }
}

impl<'a> AtIntoValue for &'a u8 {
    fn into_value(self) -> (r: Result<AtValue, SqlError>)
        ensures
            r == Ok::<AtValue, SqlError>(AtValue::Integer(*self as i64)),
    {
        Ok(AtValue::Integer(*self as i64))
    }
}

impl<'a> AtIntoValue for &'a u16 {
    fn into_value(self) -> (r: Result<AtValue, SqlError>)
        ensures
            r == Ok::<AtValue, SqlError>(AtValue::Integer(*self as i64)),
    {
        Ok(AtValue::Integer(*self as i64))
    }
}

impl<'a> AtIntoValue for &'a u32 {
    fn into_value(self) -> (r: Result<AtValue, SqlError>)
        ensures
            r == Ok::<AtValue, SqlError>(AtValue::Integer(*self as i64)),
    {
        Ok(AtValue::Integer(*self as i64))
    }
}

impl<'a> AtIntoValue for &'a u64 {
    fn into_value(self) -> (r: Result<AtValue, SqlError>)
        ensures
            r == Ok::<AtValue, SqlError>(AtValue::Integer(*self as i64)),
    {
        Ok(AtValue::Integer(*self as i64))
    }
}

impl<'a> AtIntoValue for &'a i8 {
    fn into_value(self) -> (r: Result<AtValue, SqlError>)
        ensures
            r == Ok::<AtValue, SqlError>(AtValue::Integer(*self as i64)),
    {
        Ok(AtValue::Integer(*self as i64))
    }
}

impl<'a> AtIntoValue for &'a i16 {
    fn into_value(self) -> (r: Result<AtValue, SqlError>)
        ensures
            r == Ok::<AtValue, SqlError>(AtValue::Integer(*self as i64)),
    {
        Ok(AtValue::Integer(*self as i64))
    }
}

impl<'a> AtIntoValue for &'a i32 {
    fn into_value(self) -> (r: Result<AtValue, SqlError>)
        ensures
            r == Ok::<AtValue, SqlError>(AtValue::Integer(*self as i64)),
    {
        Ok(AtValue::Integer(*self as i64))
    }
}

impl<'a> AtIntoValue for &'a i64 {
    fn into_value(self) -> (r: Result<AtValue, SqlError>)
        ensures
            r == Ok::<AtValue, SqlError>(AtValue::Integer(*self)),
    {
        Ok(AtValue::Integer(*self))
    }
}

impl<'a> AtIntoValue for &'a bool {
    fn into_value(self) -> (r: Result<AtValue, SqlError>)
        ensures
            r == Ok::<AtValue, SqlError>(AtValue::Integer(if *self { 1 } else { 0 })),
    {
        Ok(AtValue::Integer(if *self { 1 } else { 0 }))
    }
}

impl<'a> AtIntoValue for &'a String {
    fn into_value(self) -> (r: Result<AtValue, SqlError>)
        ensures
            r == Ok::<AtValue, SqlError>(AtValue::Text(*self)),
    {
        Ok(AtValue::Text(self.clone()))
    }
}

/// Conversion of a list of Rust values into statement parameters.
pub trait AtIntoParams: Sized {
    fn into_params(self) -> Result<AtParams, SqlError>;
}

/// Converting `x` can succeed.
pub open spec fn converts<T: AtIntoValue>(x: T) -> bool {
    exists|v: AtValue| call_ensures(T::into_value, (x,), Ok::<AtValue, SqlError>(v))
}

/// A list of values binds positionally: each value converted in order,
/// the first failing conversion giving the error.
impl<T: AtIntoValue> AtIntoParams for Vec<T> {
    fn into_params(self) -> (r: Result<AtParams, SqlError>)
        ensures
            r matches Ok(AtParams::Positional(v)) ==> v@.len() == self@.len() && forall|i: int|
                0 <= i < v@.len() ==> call_ensures(
                    T::into_value,
                    (self@[i],),
                    Ok::<AtValue, SqlError>(#[trigger] v@[i]),
                ),
            r matches Err(e) ==> exists|i: int|
                0 <= i < self@.len() && call_ensures(
                    T::into_value,
                    (#[trigger] self@[i],),
                    Err::<AtValue, SqlError>(e),
                ) && forall|j: int| 0 <= j < i ==> converts(#[trigger] self@[j]),
            r is Ok ==> r matches Ok(AtParams::Positional(_)),
    {
        let ghost items = self@;
        let mut out: Vec<AtValue> = Vec::new();
        for x in it: self.into_iter()
            invariant
                it.seq() == items,
                out@.len() == it.index(),
                forall|i: int|
                    0 <= i < out@.len() ==> call_ensures(
                        T::into_value,
                        (items[i],),
                        Ok::<AtValue, SqlError>(#[trigger] out@[i]),
                    ),
        {
            let res = x.into_value();
            match res {
                Ok(v) => out.push(v),
                Err(e) => {
                    proof {
                        assert forall|j: int| 0 <= j < it.index() implies converts(#[trigger] items[j]) by {
                            assert(call_ensures(T::into_value, (items[j],), Ok::<AtValue, SqlError>(out@[j])));
                        }
                    }
                    return Err(e);
                },
            }
        }
        Ok(AtParams::Positional(out))
    }
}

/// `Vec::from` on an array (std's `From<[T; N]> for Vec<T>`): the vector
/// holds the array's items, in order.
#[verifier::external_body]
fn array_into_vec<T, const N: usize>(a: [T; N]) -> (v: Vec<T>)
    ensures
        v@ == a@,
{
    Vec::from(a)
}

/// An array binds positionally, as a list of its items does.
impl<T: AtIntoValue, const N: usize> AtIntoParams for [T; N] {
    fn into_params(self) -> (r: Result<AtParams, SqlError>)
        ensures
            r matches Ok(AtParams::Positional(v)) ==> v@.len() == self@.len() && forall|i: int|
                0 <= i < v@.len() ==> call_ensures(
                    T::into_value,
                    (self@[i],),
                    Ok::<AtValue, SqlError>(#[trigger] v@[i]),
                ),
            r matches Err(e) ==> exists|i: int|
                0 <= i < self@.len() && call_ensures(
                    T::into_value,
                    (#[trigger] self@[i],),
                    Err::<AtValue, SqlError>(e),
                ) && forall|j: int| 0 <= j < i ==> converts(#[trigger] self@[j]),
            r is Ok ==> r matches Ok(AtParams::Positional(_)),
    {
        let items = array_into_vec(self);
        items.into_params()
    }
}

/// A list of named values binds by name: each value converted in order,
/// its name kept, the first failing conversion giving the error.
impl<T: AtIntoValue> AtIntoParams for Vec<(String, T)> {
    fn into_params(self) -> (r: Result<AtParams, SqlError>)
        ensures
            r matches Ok(AtParams::Named(v)) ==> v@.len() == self@.len() && forall|i: int|
                0 <= i < v@.len() ==> (#[trigger] v@[i]).0 == self@[i].0 && call_ensures(
                    T::into_value,
                    (self@[i].1,),
                    Ok::<AtValue, SqlError>(v@[i].1),
                ),
            r matches Err(e) ==> exists|i: int|
                0 <= i < self@.len() && call_ensures(
                    T::into_value,
                    ((#[trigger] self@[i]).1,),
                    Err::<AtValue, SqlError>(e),
                ) && forall|j: int| 0 <= j < i ==> converts((#[trigger] self@[j]).1),
            r is Ok ==> r matches Ok(AtParams::Named(_)),
    {
        let ghost items = self@;
        let mut out: Vec<(String, AtValue)> = Vec::new();
        for x in it: self.into_iter()
            invariant
                it.seq() == items,
                out@.len() == it.index(),
                forall|i: int|
                    0 <= i < out@.len() ==> (#[trigger] out@[i]).0 == items[i].0 && call_ensures(
                        T::into_value,
                        (items[i].1,),
                        Ok::<AtValue, SqlError>(out@[i].1),
                    ),
        {
            let (name, value) = x;
            let res = value.into_value();
            match res {
                Ok(v) => out.push((name, v)),
                Err(e) => {
                    proof {
                        assert forall|j: int| 0 <= j < it.index() implies converts(
                            (#[trigger] items[j]).1,
                        ) by {
                            assert(call_ensures(T::into_value, (items[j].1,), Ok::<AtValue, SqlError>(out@[j].1)));
                        }
                    }
                    return Err(e);
                },
            }
        }
        Ok(AtParams::Named(out))
    }
}

} // verus!
