use auto_table::attrs::{
    default_sql, field_attr_key, parse_with_pair, struct_attr_key, trim_str, white_space_char, AttrError, FieldAttr,
    FieldAttrKey, FieldAttrs, Literal, StructAttr, StructAttrKey, StructAttrs,
};
use auto_table::naming::{default_table_name, to_snake_case};
use auto_table::table_plan::{
    field_from_sql_plan, field_to_sql_plan, generate_col_expr, generate_to_sql_body, impl_auto_table, with_paths_parse, DeriveData, DeriveError, FieldSpec, FromSqlPlan,
    ToSqlPlan,
};
use auto_table::type_model::{
    extract_option_inner, get_option_type, is_built_in_sql_type, is_simple_ident, is_vec_u8,
    is_well_formed, map_type_to_sql, match_arm_for_type, RustType, TypeError, TypePath, ValueArm,
};

fn plain(name: &str) -> RustType {
    RustType::Path(TypePath {
        last_segment: Some(name.to_string()),
        last_segment_bare: true,
        ident: Some(name.to_string()),
        first_type_arg: None,
    })
}

fn generic(name: &str, arg: RustType) -> RustType {
    RustType::Path(TypePath {
        last_segment: Some(name.to_string()),
        last_segment_bare: false,
        ident: None,
        first_type_arg: Some(Box::new(arg)),
    })
}

fn path_of(ty: RustType) -> TypePath {
    match ty {
        RustType::Path(tp) => tp,
        _ => panic!("not a path"),
    }
}

fn field(name: &str, ty: RustType, attrs: FieldAttrs) -> FieldSpec {
    FieldSpec { name: name.to_string(), ty, attrs: Ok(attrs) }
}

#[test]
fn snake_case_of_struct_names() {
    assert_eq!(to_snake_case("Message"), "message");
    assert_eq!(to_snake_case("MessageLog"), "message_log");
    assert_eq!(to_snake_case("HTTPCode"), "h_t_t_p_code");
    assert_eq!(to_snake_case(""), "");
    assert_eq!(to_snake_case("ÀBc"), "à_bc");
}

#[test]
fn default_table_name_is_plural_snake_case() {
    assert_eq!(default_table_name("UserMessage"), "user_messages");
}

#[test]
fn sql_types_of_rust_types() {
    assert_eq!(map_type_to_sql(&plain("u64")), Ok("INTEGER"));
    assert_eq!(map_type_to_sql(&plain("bool")), Ok("INTEGER"));
    assert_eq!(map_type_to_sql(&plain("f32")), Ok("REAL"));
    assert_eq!(map_type_to_sql(&plain("String")), Ok("TEXT"));
    assert_eq!(map_type_to_sql(&generic("Vec", plain("u8"))), Ok("BLOB"));
    assert_eq!(map_type_to_sql(&generic("Option", plain("i32"))), Ok("INTEGER"));
    assert_eq!(map_type_to_sql(&RustType::Reference(Box::new(plain("str")))), Ok("TEXT"));
}

#[test]
fn sql_type_errors() {
    assert_eq!(map_type_to_sql(&generic("Vec", plain("u16"))), Err(TypeError::VecNotBlob));
    assert_eq!(map_type_to_sql(&generic("Option", plain("Foo"))), Err(TypeError::OptionUnknown));
    assert_eq!(map_type_to_sql(&plain("Timestamp")), Err(TypeError::NoSqlMapping("Timestamp".to_string())));
    assert_eq!(map_type_to_sql(&RustType::Reference(Box::new(plain("u8")))), Err(TypeError::OnlyStrReference));
    assert_eq!(map_type_to_sql(&RustType::Other), Err(TypeError::UnsupportedSyntax));
    let empty = RustType::Path(TypePath { last_segment: None, last_segment_bare: true, ident: None, first_type_arg: None });
    assert_eq!(map_type_to_sql(&empty), Err(TypeError::EmptyPath));
}

#[test]
fn option_inner_is_peeled_once() {
    let ty = generic("Option", plain("String"));
    let (inner, is_option) = extract_option_inner(&ty);
    assert!(is_option);
    assert!(is_simple_ident(inner, "String"));
    let ty = plain("u8");
    let (same, is_option) = extract_option_inner(&ty);
    assert!(!is_option);
    assert!(is_simple_ident(same, "u8"));
}

#[test]
fn simple_ident_compares_the_last_segment() {
    let qualified = RustType::Path(TypePath {
        last_segment: Some("bool".to_string()),
        last_segment_bare: true,
        ident: None,
        first_type_arg: None,
    });
    assert!(is_simple_ident(&qualified, "bool"));
    assert!(!is_simple_ident(&qualified, "i64"));
    assert!(!is_simple_ident(&generic("bool", plain("u8")), "bool"));
    assert!(!is_simple_ident(&RustType::Other, "bool"));
}

#[test]
fn well_formed_paths() {
    assert!(is_well_formed(&plain("u8")));
    assert!(is_well_formed(&generic("Option", plain("String"))));
    let bad_ident = RustType::Path(TypePath {
        last_segment: Some("u8".to_string()),
        last_segment_bare: true,
        ident: Some("u16".to_string()),
        first_type_arg: None,
    });
    assert!(!is_well_formed(&bad_ident));
    let bare_with_arg = RustType::Path(TypePath {
        last_segment: Some("Vec".to_string()),
        last_segment_bare: true,
        ident: None,
        first_type_arg: Some(Box::new(plain("u8"))),
    });
    assert!(!is_well_formed(&bare_with_arg));
    assert!(!is_well_formed(&generic("Option", bad_ident)));
}

#[test]
fn built_in_types() {
    assert!(is_built_in_sql_type(&plain("i128")));
    assert!(is_built_in_sql_type(&plain("String")));
    assert!(is_built_in_sql_type(&generic("Vec", plain("u8"))));
    assert!(is_built_in_sql_type(&RustType::Reference(Box::new(plain("str")))));
    assert!(!is_built_in_sql_type(&generic("Vec", plain("String"))));
    assert!(!is_built_in_sql_type(&plain("ChannelCode")));
    assert!(!is_built_in_sql_type(&RustType::Other));
}

#[test]
fn vec_u8_and_option_types() {
    assert!(is_vec_u8(&path_of(generic("Vec", plain("u8")))));
    assert!(!is_vec_u8(&path_of(generic("Vec", plain("u32")))));
    assert_eq!(get_option_type(&path_of(generic("Option", plain("bool")))), "INTEGER");
    assert_eq!(get_option_type(&path_of(generic("Option", plain("f64")))), "REAL");
    assert_eq!(get_option_type(&path_of(generic("Option", plain("String")))), "TEXT");
    assert_eq!(get_option_type(&path_of(plain("Option"))), "UNKNOWN");
}

#[test]
fn value_arms_of_types() {
    assert_eq!(match_arm_for_type(&plain("bool")), Ok(ValueArm::Bool));
    assert_eq!(match_arm_for_type(&plain("i64")), Ok(ValueArm::I64));
    assert_eq!(match_arm_for_type(&plain("u16")), Ok(ValueArm::IntCast("u16".to_string())));
    assert_eq!(match_arm_for_type(&plain("f64")), Ok(ValueArm::F64));
    assert_eq!(match_arm_for_type(&plain("f32")), Ok(ValueArm::F32));
    assert_eq!(match_arm_for_type(&plain("String")), Ok(ValueArm::Text));
    assert_eq!(match_arm_for_type(&generic("Vec", plain("u8"))), Ok(ValueArm::Blob));
    assert_eq!(match_arm_for_type(&plain("Uuid")), Err(TypeError::NoValueConversion("Uuid".to_string())));
    assert_eq!(match_arm_for_type(&RustType::Reference(Box::new(plain("str")))), Err(TypeError::UnsupportedValueSyntax));
}

#[test]
fn attribute_keys() {
    assert_eq!(struct_attr_key("table"), StructAttrKey::Table);
    assert_eq!(struct_attr_key("index_by"), StructAttrKey::IndexBy);
    assert_eq!(struct_attr_key("other"), StructAttrKey::Ignored);
    assert_eq!(field_attr_key("primary_key"), FieldAttrKey::PrimaryKey);
    assert_eq!(field_attr_key("sort_asc"), FieldAttrKey::SortAsc);
    assert_eq!(field_attr_key("sort_desc"), FieldAttrKey::SortDesc);
    assert_eq!(field_attr_key("data_type"), FieldAttrKey::DataType);
    assert_eq!(field_attr_key("with"), FieldAttrKey::With);
    assert_eq!(field_attr_key("default"), FieldAttrKey::Default);
    assert_eq!(field_attr_key("primary"), FieldAttrKey::Unknown);
}

#[test]
fn with_pairs_split_at_one_comma() {
    assert_eq!(
        parse_with_pair("ChannelCode::to_sql, ChannelCode::from_sql"),
        Some(("ChannelCode::to_sql".to_string(), "ChannelCode::from_sql".to_string()))
    );
    assert_eq!(parse_with_pair(" a ,b "), Some(("a".to_string(), "b".to_string())));
    assert_eq!(parse_with_pair("a,"), Some(("a".to_string(), "".to_string())));
    assert_eq!(parse_with_pair("a"), None);
    assert_eq!(parse_with_pair("a,b,c"), None);
}

#[test]
fn default_literals() {
    assert_eq!(default_sql(&Literal::Str("x".to_string())), Some("'x'".to_string()));
    assert_eq!(default_sql(&Literal::Int("42".to_string())), Some("42".to_string()));
    assert_eq!(default_sql(&Literal::Float("1.5".to_string())), Some("1.5".to_string()));
    assert_eq!(default_sql(&Literal::Bool(true)), Some("1".to_string()));
    assert_eq!(default_sql(&Literal::Bool(false)), Some("0".to_string()));
    assert_eq!(default_sql(&Literal::Other), None);
}

#[test]
fn field_attrs_apply() {
    let mut a = FieldAttrs::new();
    assert_eq!(a.apply(FieldAttr::PrimaryKey), Ok(()));
    assert_eq!(a.apply(FieldAttr::SortAsc), Ok(()));
    assert_eq!(a.apply(FieldAttr::SortDesc), Ok(()));
    assert_eq!(a.apply(FieldAttr::DataType(Literal::Str("BIGINT".to_string()))), Ok(()));
    assert_eq!(a.apply(FieldAttr::DataType(Literal::Int("3".to_string()))), Ok(()));
    assert_eq!(a.apply(FieldAttr::With("f, g".to_string())), Ok(()));
    assert_eq!(a.apply(FieldAttr::Default(Literal::Int("7".to_string()))), Ok(()));
    assert!(a.primary_key && a.sort_asc && a.sort_desc);
    assert_eq!(a.data_type, Some("BIGINT".to_string()));
    assert_eq!(a.with, Some(("f".to_string(), "g".to_string())));
    assert_eq!(a.default, Some("7".to_string()));
}

#[test]
fn field_attr_errors() {
    let mut a = FieldAttrs::new();
    let e = a.apply(FieldAttr::With("f".to_string()));
    assert_eq!(e, Err(AttrError::WithFormat));
    assert_eq!(AttrError::WithFormat.message(), "expected `with = \"to_sql_fn, from_sql_fn\"`");
    assert_eq!(a.apply(FieldAttr::Default(Literal::Other)), Err(AttrError::UnsupportedDefault));
    assert_eq!(AttrError::UnsupportedDefault.message(), "unsupported default literal");
    let e = a.apply(FieldAttr::Unknown("nullable".to_string()));
    assert_eq!(e, Err(AttrError::UnknownAttribute("nullable".to_string())));
    assert_eq!(e.unwrap_err().message(), "unknown auto_table attribute: `nullable`");
    assert_eq!(a, FieldAttrs::new());
}

#[test]
fn struct_attrs_apply() {
    let mut s = StructAttrs::new();
    s.apply(StructAttr::Table("msgs".to_string()));
    s.apply(StructAttr::IndexBy("sent_at DESC".to_string()));
    assert_eq!(s.table_name, Some("msgs".to_string()));
    assert_eq!(s.table_indexes, Some("sent_at DESC".to_string()));
}

#[test]
fn column_of_a_field() {
    let mut attrs = FieldAttrs::new();
    attrs.sort_asc = true;
    attrs.sort_desc = true;
    let c = generate_col_expr(0, &field("nonce_id", generic("Option", plain("u64")), attrs)).unwrap();
    assert_eq!(c.name, "nonce_id");
    assert_eq!(c.sql_type, "INTEGER");
    assert!(c.nullable);
    assert!(!c.primary_key);
    assert_eq!(c.sort_by, Some("DESC".to_string()));
    let mut attrs = FieldAttrs::new();
    attrs.data_type = Some("BIGINT".to_string());
    let c = generate_col_expr(1, &field("sent_at", plain("Timestamp"), attrs)).unwrap();
    assert_eq!(c.sql_type, "BIGINT");
    assert!(!c.nullable);
    let e = generate_col_expr(2, &field("x", plain("Timestamp"), FieldAttrs::new()));
    assert_eq!(e, Err(DeriveError::Type(2, TypeError::NoSqlMapping("Timestamp".to_string()))));
}

fn message_fields() -> Vec<FieldSpec> {
    let mut id = FieldAttrs::new();
    id.primary_key = true;
    let mut code = FieldAttrs::new();
    code.data_type = Some("INTEGER".to_string());
    code.with = Some(("ChannelCode::to_sql".to_string(), "ChannelCode::from_sql".to_string()));
    let mut sent = FieldAttrs::new();
    sent.data_type = Some("BIGINT".to_string());
    sent.sort_desc = true;
    vec![
        field("id", plain("u64"), id),
        field("channel_code", plain("ChannelCode"), code),
        field("nonce_id", generic("Option", plain("u64")), FieldAttrs::new()),
        field("content", plain("String"), FieldAttrs::new()),
        field("flag", plain("bool"), FieldAttrs::new()),
        field("sent_at", plain("Timestamp"), sent),
    ]
}

#[test]
fn plan_of_a_struct() {
    let mut sa = StructAttrs::new();
    sa.apply(StructAttr::IndexBy("sent_at DESC".to_string()));
    let plan = impl_auto_table("Message", &sa, &DeriveData::Named(message_fields())).unwrap();
    assert_eq!(plan.table_name, "messages");
    assert_eq!(plan.indexes, "sent_at DESC");
    assert_eq!(plan.columns.len(), 6);
    assert_eq!(plan.columns[5].sort_by, Some("DESC".to_string()));
    assert_eq!(
        plan.to_sql,
        vec![
            ToSqlPlan::BuiltIn { optional: false, is_bool: false, is_real: false },
            ToSqlPlan::With("ChannelCode::to_sql".to_string()),
            ToSqlPlan::BuiltIn { optional: true, is_bool: false, is_real: false },
            ToSqlPlan::BuiltIn { optional: false, is_bool: false, is_real: false },
            ToSqlPlan::BuiltIn { optional: false, is_bool: true, is_real: false },
            ToSqlPlan::Codec { optional: false },
        ]
    );
    assert_eq!(
        plan.from_sql,
        vec![
            FromSqlPlan::BuiltIn { arm: ValueArm::IntCast("u64".to_string()), nullable: false },
            FromSqlPlan::With("ChannelCode::from_sql".to_string()),
            FromSqlPlan::BuiltIn { arm: ValueArm::IntCast("u64".to_string()), nullable: true },
            FromSqlPlan::BuiltIn { arm: ValueArm::Text, nullable: false },
            FromSqlPlan::BuiltIn { arm: ValueArm::Bool, nullable: false },
            FromSqlPlan::Codec { nullable: false },
        ]
    );
}

#[test]
fn plan_uses_table_setting() {
    let mut sa = StructAttrs::new();
    sa.apply(StructAttr::Table("msg_log".to_string()));
    let plan = impl_auto_table("Message", &sa, &DeriveData::Named(vec![])).unwrap();
    assert_eq!(plan.table_name, "msg_log");
    assert_eq!(plan.indexes, "");
}

#[test]
fn plan_refuses_other_items() {
    let sa = StructAttrs::new();
    assert_eq!(impl_auto_table("T", &sa, &DeriveData::Unnamed).err(), Some(DeriveError::NamedFieldsOnly));
    assert_eq!(impl_auto_table("T", &sa, &DeriveData::NotStruct).err(), Some(DeriveError::StructsOnly));
}

#[test]
fn plan_refuses_bad_paths_and_types() {
    let sa = StructAttrs::new();
    let mut bad = FieldAttrs::new();
    bad.data_type = Some("TEXT".to_string());
    bad.with = Some(("1 not a path".to_string(), "f".to_string()));
    let fields = vec![field("a", plain("Thing"), bad)];
    assert_eq!(
        impl_auto_table("T", &sa, &DeriveData::Named(fields)).err(),
        Some(DeriveError::InvalidPath("1 not a path".to_string()))
    );
    let fields = vec![field("a", generic("Vec", plain("u32")), FieldAttrs::new())];
    assert_eq!(
        impl_auto_table("T", &sa, &DeriveData::Named(fields)).err(),
        Some(DeriveError::Type(0, TypeError::VecNotBlob))
    );
    let fields = vec![
        field("a", plain("Thing"), FieldAttrs::new()),
        FieldSpec { name: "b".to_string(), ty: plain("u8"), attrs: Err("bad attribute".to_string()) },
    ];
    assert_eq!(
        impl_auto_table("T", &sa, &DeriveData::Named(fields)).err(),
        Some(DeriveError::Type(0, TypeError::NoSqlMapping("Thing".to_string())))
    );
}

#[test]
fn qualified_bool_field_is_written_and_read_as_bool() {
    let qualified = RustType::Path(TypePath {
        last_segment: Some("bool".to_string()),
        last_segment_bare: true,
        ident: None,
        first_type_arg: None,
    });
    let fields = vec![field("flag", qualified, FieldAttrs::new())];
    let plan = impl_auto_table("Flags", &StructAttrs::new(), &DeriveData::Named(fields)).unwrap();
    assert_eq!(plan.to_sql, vec![ToSqlPlan::BuiltIn { optional: false, is_bool: true, is_real: false }]);
    assert_eq!(plan.from_sql, vec![FromSqlPlan::BuiltIn { arm: ValueArm::Bool, nullable: false }]);
    assert_eq!(plan.columns[0].sql_type, "INTEGER");
}

#[test]
fn trim_removes_unicode_white_space() {
    assert_eq!(trim_str("  a b \t\n"), "a b");
    assert_eq!(trim_str("\u{3000}x\u{2009}"), "x");
    assert_eq!(trim_str("   "), "");
    assert_eq!(trim_str(""), "");
    assert_eq!(trim_str("\u{200B}x"), "\u{200B}x");
    assert!(white_space_char('\u{85}'));
    assert!(!white_space_char('_'));
}

#[test]
fn with_paths_are_checked_per_field() {
    let mut good = FieldAttrs::new();
    good.apply(FieldAttr::With("A::to_sql, A::from_sql".to_string())).unwrap();
    let mut bad = FieldAttrs::new();
    bad.apply(FieldAttr::With("not a path!, A::from_sql".to_string())).unwrap();
    let fields = vec![
        field("a", plain("u8"), good),
        field("b", plain("u8"), bad.clone()),
        field("c", plain("u8"), FieldAttrs::new()),
    ];
    assert_eq!(with_paths_parse(&fields, true), vec![true, false, true]);
    assert_eq!(with_paths_parse(&fields, false), vec![true, true, true]);
    assert_eq!(
        generate_to_sql_body(&fields),
        Err(DeriveError::InvalidPath("not a path!".to_string()))
    );
    let b = field("b", plain("u8"), bad);
    assert_eq!(field_to_sql_plan(1, &b, false), Err(DeriveError::InvalidPath("not a path!".to_string())));
    assert_eq!(field_to_sql_plan(1, &b, true), Ok(ToSqlPlan::With("not a path!".to_string())));
    assert_eq!(field_from_sql_plan(1, &b, true), Ok(FromSqlPlan::With("A::from_sql".to_string())));
}

#[test]
fn float_fields_are_written_as_reals() {
    let fields = vec![
        field("x", plain("f64"), FieldAttrs::new()),
        field("y", generic("Option", plain("f32")), FieldAttrs::new()),
    ];
    let plan = impl_auto_table("Point", &StructAttrs::new(), &DeriveData::Named(fields)).unwrap();
    assert_eq!(
        plan.to_sql,
        vec![
            ToSqlPlan::BuiltIn { optional: false, is_bool: false, is_real: true },
            ToSqlPlan::BuiltIn { optional: true, is_bool: false, is_real: true },
        ]
    );
    assert_eq!(plan.columns[0].sql_type, "REAL");
}
