use auto_table::value::{AtIntoParams, AtIntoValue, AtParams, AtValue, RealBits, SqlError};

struct Failing;

impl AtIntoValue for Failing {
    fn into_value(self) -> Result<AtValue, SqlError> {
        Err(SqlError::SerializationIssue("no".to_string()))
    }
}

#[test]
fn unsigned_integers_become_integers() {
    assert_eq!(7u8.into_value(), Ok(AtValue::Integer(7)));
    assert_eq!(700u16.into_value(), Ok(AtValue::Integer(700)));
    assert_eq!(70000u32.into_value(), Ok(AtValue::Integer(70000)));
    assert_eq!(5u64.into_value(), Ok(AtValue::Integer(5)));
    assert_eq!(u64::MAX.into_value(), Ok(AtValue::Integer(-1)));
}

#[test]
fn signed_integers_become_integers() {
    assert_eq!((-7i8).into_value(), Ok(AtValue::Integer(-7)));
    assert_eq!((-700i16).into_value(), Ok(AtValue::Integer(-700)));
    assert_eq!((-70000i32).into_value(), Ok(AtValue::Integer(-70000)));
    assert_eq!(i64::MIN.into_value(), Ok(AtValue::Integer(i64::MIN)));
}

#[test]
fn references_convert_like_values() {
    assert_eq!((&7u8).into_value(), Ok(AtValue::Integer(7)));
    assert_eq!((&7u16).into_value(), Ok(AtValue::Integer(7)));
    assert_eq!((&7u32).into_value(), Ok(AtValue::Integer(7)));
    assert_eq!((&7u64).into_value(), Ok(AtValue::Integer(7)));
    assert_eq!((&-7i8).into_value(), Ok(AtValue::Integer(-7)));
    assert_eq!((&-7i16).into_value(), Ok(AtValue::Integer(-7)));
    assert_eq!((&-7i32).into_value(), Ok(AtValue::Integer(-7)));
    assert_eq!((&-7i64).into_value(), Ok(AtValue::Integer(-7)));
    assert_eq!((&true).into_value(), Ok(AtValue::Integer(1)));
    assert_eq!((&"x".to_string()).into_value(), Ok(AtValue::Text("x".to_string())));
}

#[test]
fn bools_become_one_or_zero() {
    assert_eq!(true.into_value(), Ok(AtValue::Integer(1)));
    assert_eq!(false.into_value(), Ok(AtValue::Integer(0)));
}

#[test]
fn strings_become_text() {
    assert_eq!("hello".into_value(), Ok(AtValue::Text("hello".to_string())));
    assert_eq!("hi".to_string().into_value(), Ok(AtValue::Text("hi".to_string())));
    assert_eq!(AtValue::Blob(vec![1, 2]).into_value(), Ok(AtValue::Blob(vec![1, 2])));
}

#[test]
fn vec_binds_positionally() {
    assert_eq!(
        vec![1u32, 2].into_params(),
        Ok(AtParams::Positional(vec![AtValue::Integer(1), AtValue::Integer(2)]))
    );
    assert_eq!(Vec::<u8>::new().into_params(), Ok(AtParams::Positional(vec![])));
}

#[test]
fn vec_params_fail_on_failing_value() {
    assert_eq!(
        vec![Failing].into_params(),
        Err(SqlError::SerializationIssue("no".to_string()))
    );
}

#[test]
fn arrays_bind_positionally() {
    assert_eq!(
        [3i64, -4].into_params(),
        Ok(AtParams::Positional(vec![AtValue::Integer(3), AtValue::Integer(-4)]))
    );
    assert_eq!([Failing].into_params(), Err(SqlError::SerializationIssue("no".to_string())));
}

#[test]
fn named_lists_bind_by_name() {
    assert_eq!(
        vec![("a".to_string(), true), ("b".to_string(), false)].into_params(),
        Ok(AtParams::Named(vec![
            ("a".to_string(), AtValue::Integer(1)),
            ("b".to_string(), AtValue::Integer(0)),
        ]))
    );
    assert_eq!(
        vec![("x".to_string(), Failing)].into_params(),
        Err(SqlError::SerializationIssue("no".to_string()))
    );
}

#[test]
fn floats_go_through_their_bits() {
    let bits = (-2.25f64).to_bits();
    assert_eq!(RealBits(bits).into_value(), Ok(AtValue::Real(bits)));
    assert_eq!((&RealBits(bits)).into_value(), Ok(AtValue::Real(bits)));
    assert_eq!(
        vec![RealBits(1.0f64.to_bits())].into_params(),
        Ok(AtParams::Positional(vec![AtValue::Real(1.0f64.to_bits())]))
    );
}
