use auto_table::codec::{
    bool_as_text, check_column_count, codec_input, invalid_data, is_null_value, null_marker,
    read_builtin, written, ArmValue,
};
use auto_table::type_model::ValueArm;
use auto_table::value::{AtIntoValue, AtValue, SqlError};

#[test]
fn none_reads_back_as_none() {
    let marker = null_marker();
    assert_eq!(marker, AtValue::Text("NULL".to_string()));
    assert!(is_null_value(&marker));
    assert!(is_null_value(&AtValue::Null));
    assert!(!is_null_value(&AtValue::Text("null".to_string())));
    assert!(!is_null_value(&AtValue::Integer(0)));
    assert_eq!(read_builtin(&ValueArm::I64, true, &marker, "n"), Ok(None));
    assert_eq!(read_builtin(&ValueArm::Text, true, &AtValue::Null, "n"), Ok(None));
    assert_eq!(codec_input(true, &marker), None);
    assert_eq!(codec_input(true, &AtValue::Null), None);
}

#[test]
fn string_round_trip() {
    let v = written("hello".to_string().into_value()).unwrap();
    assert_eq!(read_builtin(&ValueArm::Text, false, &v, "s"), Ok(Some(ArmValue::Text("hello".to_string()))));
    assert_eq!(read_builtin(&ValueArm::Text, true, &v, "s"), Ok(Some(ArmValue::Text("hello".to_string()))));
    let v = written("NULL".to_string().into_value()).unwrap();
    assert_eq!(read_builtin(&ValueArm::Text, true, &v, "s"), Ok(None));
    assert_eq!(read_builtin(&ValueArm::Text, false, &v, "s"), Ok(Some(ArmValue::Text("NULL".to_string()))));
}

#[test]
fn integer_round_trips() {
    let v = written((-5i64).into_value()).unwrap();
    assert_eq!(read_builtin(&ValueArm::I64, false, &v, "i"), Ok(Some(ArmValue::Int(-5))));
    let v = written(u64::MAX.into_value()).unwrap();
    let arm = ValueArm::IntCast("u64".to_string());
    match read_builtin(&arm, true, &v, "u") {
        Ok(Some(ArmValue::Int(i))) => assert_eq!(i as u64, u64::MAX),
        other => panic!("unexpected {:?}", other),
    }
    let v = written((-7i32).into_value()).unwrap();
    let arm = ValueArm::IntCast("i32".to_string());
    assert_eq!(read_builtin(&arm, false, &v, "i"), Ok(Some(ArmValue::Int(-7))));
}

#[test]
fn bool_round_trip_through_integer_column() {
    // An INTEGER column keeps the text "1" as the integer 1.
    assert_eq!(bool_as_text(true), AtValue::Text("1".to_string()));
    assert_eq!(bool_as_text(false), AtValue::Text("0".to_string()));
    assert_eq!(read_builtin(&ValueArm::Bool, false, &AtValue::Integer(1), "b"), Ok(Some(ArmValue::Bool(true))));
    assert_eq!(read_builtin(&ValueArm::Bool, true, &AtValue::Integer(0), "b"), Ok(Some(ArmValue::Bool(false))));
    assert_eq!(read_builtin(&ValueArm::Bool, false, &AtValue::Integer(7), "b"), Ok(Some(ArmValue::Bool(true))));
}

#[test]
fn reals_and_blobs_are_read_as_stored() {
    let bits = 1.5f64.to_bits();
    assert_eq!(read_builtin(&ValueArm::F64, false, &AtValue::Real(bits), "r"), Ok(Some(ArmValue::RealBits(bits))));
    assert_eq!(read_builtin(&ValueArm::F32, true, &AtValue::Real(bits), "r"), Ok(Some(ArmValue::RealBits(bits))));
    assert_eq!(
        read_builtin(&ValueArm::Blob, false, &AtValue::Blob(vec![1, 2]), "b"),
        Ok(Some(ArmValue::Blob(vec![1, 2])))
    );
}

#[test]
fn wrong_kinds_are_invalid_data() {
    let err = Err(SqlError::InvalidData("age".to_string()));
    assert_eq!(read_builtin(&ValueArm::Bool, false, &AtValue::Text("1".to_string()), "age"), err);
    assert_eq!(read_builtin(&ValueArm::I64, false, &AtValue::Null, "age"), err);
    assert_eq!(read_builtin(&ValueArm::I64, false, &null_marker(), "age"), err);
    assert_eq!(read_builtin(&ValueArm::Text, true, &AtValue::Integer(1), "age"), err);
    assert_eq!(read_builtin(&ValueArm::Blob, false, &AtValue::Text("x".to_string()), "age"), err);
    assert_eq!(read_builtin(&ValueArm::F64, false, &AtValue::Integer(1), "age"), err);
    assert_eq!(invalid_data("age"), SqlError::InvalidData("age".to_string()));
}

#[test]
fn codec_input_passes_values_on() {
    let v = AtValue::Integer(3);
    assert_eq!(codec_input(true, &v), Some(&v));
    assert_eq!(codec_input(false, &v), Some(&v));
    let marker = null_marker();
    assert_eq!(codec_input(false, &marker), Some(&marker));
}

#[test]
fn failed_conversions_become_serialization_issues() {
    assert_eq!(written(Ok(AtValue::Integer(1))), Ok(AtValue::Integer(1)));
    assert_eq!(
        written(Err(SqlError::InvalidData("x".to_string()))),
        Err(SqlError::SerializationIssue("invalid data for `x`".to_string()))
    );
    assert_eq!(
        written(Err(SqlError::ColumnCountMismatch)),
        Err(SqlError::SerializationIssue("column count mismatch".to_string()))
    );
}

#[test]
fn error_messages() {
    assert_eq!(SqlError::ColumnCountMismatch.message(), "column count mismatch");
    assert_eq!(SqlError::InvalidData("age".to_string()).message(), "invalid data for `age`");
    assert_eq!(SqlError::SerializationIssue("bad".to_string()).message(), "serialization issue: bad");
}

#[test]
fn column_count_is_checked() {
    assert_eq!(check_column_count(&[AtValue::Null], 1), Ok(()));
    assert_eq!(check_column_count(&[AtValue::Null], 2), Err(SqlError::ColumnCountMismatch));
    assert_eq!(check_column_count(&[], 0), Ok(()));
}

#[test]
fn small_integers_round_trip() {
    for (x, name) in [(200u8 as i64, "u8"), (-100i8 as i64, "i8")] {
        let arm = ValueArm::IntCast(name.to_string());
        assert_eq!(read_builtin(&arm, false, &AtValue::Integer(x), "n"), Ok(Some(ArmValue::Int(x))));
    }
    let v = written(65535u16.into_value()).unwrap();
    assert_eq!(read_builtin(&ValueArm::IntCast("u16".to_string()), true, &v, "n"), Ok(Some(ArmValue::Int(65535))));
    let v = written((-300i16).into_value()).unwrap();
    assert_eq!(read_builtin(&ValueArm::IntCast("i16".to_string()), false, &v, "n"), Ok(Some(ArmValue::Int(-300))));
    let v = written(u32::MAX.into_value()).unwrap();
    match read_builtin(&ValueArm::IntCast("u32".to_string()), false, &v, "n") {
        Ok(Some(ArmValue::Int(i))) => assert_eq!(i as u32, u32::MAX),
        other => panic!("unexpected {:?}", other),
    }
    let v = written(7u8.into_value()).unwrap();
    assert_eq!(read_builtin(&ValueArm::IntCast("u8".to_string()), false, &v, "n"), Ok(Some(ArmValue::Int(7))));
    let v = written((-7i8).into_value()).unwrap();
    assert_eq!(read_builtin(&ValueArm::IntCast("i8".to_string()), false, &v, "n"), Ok(Some(ArmValue::Int(-7))));
}

#[test]
fn row_round_trip() {
    // A struct { id: u64, flag: bool, note: Option<String> } written and read back.
    let row = vec![
        written(42u64.into_value()).unwrap(),
        bool_as_text(true),
        null_marker(),
    ];
    // The INTEGER column keeps the text "1" as the integer 1.
    let stored = vec![row[0].clone(), AtValue::Integer(1), row[2].clone()];
    assert_eq!(check_column_count(&stored, 3), Ok(()));
    assert_eq!(
        read_builtin(&ValueArm::IntCast("u64".to_string()), false, &stored[0], "id"),
        Ok(Some(ArmValue::Int(42)))
    );
    assert_eq!(read_builtin(&ValueArm::Bool, false, &stored[1], "flag"), Ok(Some(ArmValue::Bool(true))));
    assert_eq!(read_builtin(&ValueArm::Text, true, &stored[2], "note"), Ok(None));
}
