use vstd::prelude::*;
use crate::table_plan::{
    DeriveError, FieldSpec, FromSqlPlan, ToSqlPlan, field_from_sql_plan, field_to_sql_plan,
    generate_col_expr,
};
use crate::sql_helpers::ColumnDefinition;
use crate::type_model::{RustType, TypeError, ValueArm, match_arm_for_type, map_type_to_sql, option_inner};

verus! {

/// The type names the derive knows begin with these letters, which tells
/// them apart.
proof fn lemma_type_name_initials()
    ensures
        "u8"@[0] == 'u' && "u16"@[0] == 'u' && "u32"@[0] == 'u' && "u64"@[0] == 'u',
        "u128"@[0] == 'u' && "usize"@[0] == 'u',
        "i8"@[0] == 'i' && "i16"@[0] == 'i' && "i32"@[0] == 'i' && "i64"@[0] == 'i',
        "i128"@[0] == 'i' && "isize"@[0] == 'i',
        "bool"@[0] == 'b' && "f32"@[0] == 'f' && "f64"@[0] == 'f',
        "String"@[0] == 'S' && "Vec"@[0] == 'V' && "Option"@[0] == 'O',
        "i8"@.len() == 2 && "u8"@.len() == 2 && "i64"@.len() == 3,
        "i16"@[1] == '1' && "i32"@[1] == '3' && "i64"@[1] == '6' && "i128"@[1] == '1',
        "isize"@[1] == 's' && "f32"@[1] == '3' && "f64"@[1] == '6',
{
    reveal_strlit("u8");
    reveal_strlit("u16");
    reveal_strlit("u32");
    reveal_strlit("u64");
    reveal_strlit("u128");
    reveal_strlit("usize");
    reveal_strlit("i8");
    reveal_strlit("i16");
    reveal_strlit("i32");
    reveal_strlit("i64");
    reveal_strlit("i128");
    reveal_strlit("isize");
    reveal_strlit("bool");
    reveal_strlit("f32");
    reveal_strlit("f64");
    reveal_strlit("String");
    reveal_strlit("Vec");
    reveal_strlit("Option");
}

/// Every Rust integer type and `bool` is stored in an `INTEGER` column.
pub proof fn law_integer_types_map_to_integer(ty: RustType, r: Result<&'static str, TypeError>)
    requires
        ty matches RustType::Path(tp) && tp.last_segment matches Some(n) && {
            ||| n@ == "u8"@
            ||| n@ == "u16"@
            ||| n@ == "u32"@
            ||| n@ == "u64"@
            ||| n@ == "u128"@
            ||| n@ == "usize"@
            ||| n@ == "i8"@
            ||| n@ == "i16"@
            ||| n@ == "i32"@
            ||| n@ == "i64"@
            ||| n@ == "i128"@
            ||| n@ == "isize"@
            ||| n@ == "bool"@
        },
        call_ensures(map_type_to_sql, (&ty,), r),
    ensures
        r matches Ok(s) && s@ == "INTEGER"@,
{
}

/// `f32` and `f64` are stored in a `REAL` column, `String` in a `TEXT` one.
pub proof fn law_float_and_text_types(ty: RustType, r: Result<&'static str, TypeError>)
    requires
        ty matches RustType::Path(tp) && tp.last_segment matches Some(n) && (n@ == "f32"@ || n@
            == "f64"@ || n@ == "String"@),
        call_ensures(map_type_to_sql, (&ty,), r),
    ensures
        r matches Ok(s) && (if ty->Path_0.last_segment->Some_0@ == "String"@ {
            s@ == "TEXT"@
        } else {
            s@ == "REAL"@
        }),
{
    lemma_type_name_initials();
}

/// A type that is read back by a built-in conversion is stored in a column
/// whose affinity keeps the kind of value that conversion reads: integers
/// and `bool` in `INTEGER`, floats in `REAL`, strings in `TEXT`, bytes in
/// `BLOB`.
pub proof fn law_column_affinity_matches_read(
    ty: RustType,
    sql: Result<&'static str, TypeError>,
    arm: Result<ValueArm, TypeError>,
)
    requires
        call_ensures(map_type_to_sql, (&ty,), sql),
        call_ensures(match_arm_for_type, (&ty,), arm),
        arm is Ok,
    ensures
        sql matches Ok(s) && match arm->Ok_0 {
            ValueArm::Bool | ValueArm::I64 | ValueArm::IntCast(_) => s@ == "INTEGER"@,
            ValueArm::F64 | ValueArm::F32 => s@ == "REAL"@,
            ValueArm::Text => s@ == "TEXT"@,
            ValueArm::Blob => s@ == "BLOB"@,
        },
{
}

/// The column of a field carries the field's settings: its name, the
/// `data_type` when given, a primary key exactly when `primary_key` is set,
/// the `default` unchanged, and the sort direction `DESC` when `sort_desc`
/// is set, else `ASC` when `sort_asc` is set, else none. With a
/// `data_type` the column is always made; without one, only a type with no
/// SQL mapping stops it.
pub proof fn law_column_follows_settings(i: usize, field: FieldSpec, r: Result<ColumnDefinition, DeriveError>)
    requires
        field.attrs is Ok,
        call_ensures(generate_col_expr, (i, &field), r),
    ensures
        ({
            let a = field.attrs->Ok_0;
            &&& a.data_type is Some ==> r is Ok
            &&& r matches Err(e) ==> (a.data_type is None && (e matches DeriveError::Type(j, _) && j == i))
            &&& r matches Ok(c) ==> {
                &&& c.name@ == field.name@
                &&& (a.data_type matches Some(d) ==> c.sql_type@ == d@)
                &&& c.primary_key == a.primary_key
                &&& (a.default is None <==> c.default is None)
                &&& (a.default matches Some(d) ==> (c.default matches Some(x) && x@ == d@))
                &&& (a.sort_desc ==> (c.sort_by matches Some(s) && s@ == "DESC"@))
                &&& (!a.sort_desc && a.sort_asc ==> (c.sort_by matches Some(s) && s@ == "ASC"@))
                &&& (!a.sort_desc && !a.sort_asc ==> c.sort_by is None)
            }
        }),
{
}

/// A field without `data_type` whose type (with one `Option` peeled) is an
/// integer type or `bool` gets an `INTEGER` column, nullable exactly when
/// it is an `Option`.
pub proof fn law_integer_fields_get_integer_columns(
    i: usize,
    field: FieldSpec,
    r: Result<ColumnDefinition, DeriveError>,
)
    requires
        field.attrs matches Ok(a) && a.data_type is None,
        option_inner(field.ty).0 matches RustType::Path(tp) && tp.last_segment matches Some(n) && {
            ||| n@ == "u8"@
            ||| n@ == "u16"@
            ||| n@ == "u32"@
            ||| n@ == "u64"@
            ||| n@ == "u128"@
            ||| n@ == "usize"@
            ||| n@ == "i8"@
            ||| n@ == "i16"@
            ||| n@ == "i32"@
            ||| n@ == "i64"@
            ||| n@ == "i128"@
            ||| n@ == "isize"@
            ||| n@ == "bool"@
        },
        call_ensures(generate_col_expr, (i, &field), r),
    ensures
        r matches Ok(c) && c.sql_type@ == "INTEGER"@ && c.nullable == option_inner(field.ty).1,
{
}

/// How a field is written agrees with how it is read: a field written as a
/// real is one whose type is `f32` or `f64` and is read as a real; a field
/// written as the text `1`/`0` is a `bool` and is read as a `bool`; both
/// sides agree on `None` handling. Any other built-in field of a plain
/// type is written through its own conversion and read neither as a real
/// nor as a `bool`.
pub proof fn law_write_kind_matches_read(
    i: usize,
    field: FieldSpec,
    to_ok: bool,
    from_ok: bool,
    w: Result<ToSqlPlan, DeriveError>,
    rd: Result<FromSqlPlan, DeriveError>,
)
    requires
        call_ensures(field_to_sql_plan, (i, &field, to_ok), w),
        call_ensures(field_from_sql_plan, (i, &field, from_ok), rd),
    ensures
        w matches Ok(ToSqlPlan::BuiltIn { is_real: true, .. }) ==> (option_inner(field.ty).0 matches RustType::Path(
            tp,
        ) && tp.last_segment matches Some(n) && (n@ == "f32"@ || n@ == "f64"@)),
        w matches Ok(ToSqlPlan::BuiltIn { is_bool: true, .. }) ==> (option_inner(field.ty).0 matches RustType::Path(
            tp,
        ) && tp.last_segment matches Some(n) && n@ == "bool"@),
        w matches Ok(ToSqlPlan::BuiltIn { optional, is_bool, is_real }) ==> (rd matches Ok(
            FromSqlPlan::BuiltIn { arm, nullable },
        ) ==> {
            &&& nullable == optional
            &&& (is_real ==> (arm is F64 || arm is F32))
            &&& (is_bool ==> arm is Bool)
            &&& ((option_inner(field.ty).0 matches RustType::Path(tp) && tp.last_segment_bare) ==> (
            (arm is F64 || arm is F32) ==> is_real) && (arm is Bool ==> is_bool))
        }),
{
    lemma_type_name_initials();
}

/// A type name together with whether it is the name of a Rust integer type.
pub open spec fn names_integer(n: Seq<char>) -> bool {
    ||| n == "u8"@
    ||| n == "u16"@
    ||| n == "u32"@
    ||| n == "u64"@
    ||| n == "u128"@
    ||| n == "usize"@
    ||| n == "i8"@
    ||| n == "i16"@
    ||| n == "i32"@
    ||| n == "i64"@
    ||| n == "i128"@
    ||| n == "isize"@
}

/// How a stored value is read back, by the type's name: `bool` from an
/// integer as a `bool`, `i64` as it is, the other integer types through a
/// cast to the type of that name, `f64` and `f32` as reals, `String` as
/// text.
pub proof fn law_read_arms_by_name(ty: RustType, r: Result<ValueArm, TypeError>)
    requires
        ty matches RustType::Path(tp) && tp.last_segment is Some,
        call_ensures(match_arm_for_type, (&ty,), r),
    ensures
        ({
            let n = ty->Path_0.last_segment->Some_0@;
            &&& n == "bool"@ ==> r == Ok::<ValueArm, TypeError>(ValueArm::Bool)
            &&& n == "i64"@ ==> r == Ok::<ValueArm, TypeError>(ValueArm::I64)
            &&& (names_integer(n) && n != "i64"@) ==> (r matches Ok(ValueArm::IntCast(m)) && m@ == n)
            &&& n == "f64"@ ==> r == Ok::<ValueArm, TypeError>(ValueArm::F64)
            &&& n == "f32"@ ==> r == Ok::<ValueArm, TypeError>(ValueArm::F32)
            &&& n == "String"@ ==> r == Ok::<ValueArm, TypeError>(ValueArm::Text)
        }),
{
    lemma_type_name_initials();
}

/// A field's type with one `Option` peeled, and whether it was an `Option`.
pub open spec fn peeled(ty: RustType) -> (RustType, bool) {
    if ty matches RustType::Path(tp) && tp.last_segment matches Some(o) && o@ == "Option"@
        && tp.first_type_arg is Some {
        (*ty->Path_0.first_type_arg->Some_0, true)
    } else {
        (ty, false)
    }
}

/// A plain type with a built-in conversion: an integer type, a float,
/// `bool` or `String`, written as one bare identifier.
pub open spec fn plain_builtin(ty: RustType) -> bool {
    ty matches RustType::Path(tp) && (tp.last_segment_bare && (tp.last_segment matches Some(n) && (
    names_integer(n@) || n@ == "f32"@ || n@ == "f64"@ || n@ == "bool"@ || n@ == "String"@)))
}

/// A type named by a path whose last name the library has no conversion
/// for (not an integer, float, `bool`, `String`, `Vec` or `Option`).
pub open spec fn unknown_name(ty: RustType) -> bool {
    ty matches RustType::Path(tp) && (tp.last_segment matches Some(n) && (!names_integer(n@) && n@
        != "f32"@ && n@ != "f64"@ && n@ != "bool"@ && n@ != "String"@ && n@ != "Vec"@ && n@
        != "Option"@))
}

/// How a field is written: refused with the field's own settings error;
/// through the `with` writing function when one is given (refused when it
/// is not a path); else by the built-in conversion for a plain built-in
/// type, with `None` handling exactly for an `Option`; else through the
/// type's `AtSqlCodec` when the type is a plain name the library does not
/// know.
pub proof fn law_write_plan_choice(i: usize, field: FieldSpec, ok: bool, w: Result<ToSqlPlan, DeriveError>)
    requires
        call_ensures(field_to_sql_plan, (i, &field, ok), w),
    ensures
        field.attrs matches Err(m) ==> w == Err::<ToSqlPlan, DeriveError>(DeriveError::Attr(i, m)),
        field.attrs matches Ok(a) ==> (a.with matches Some((t, _)) ==> (if ok {
            w == Ok::<ToSqlPlan, DeriveError>(ToSqlPlan::With(t))
        } else {
            w == Err::<ToSqlPlan, DeriveError>(DeriveError::InvalidPath(t))
        })),
        (field.attrs matches Ok(a) && a.with is None && plain_builtin(peeled(field.ty).0)) ==> (w matches Ok(
            ToSqlPlan::BuiltIn { optional, .. },
        ) && optional == peeled(field.ty).1),
        (field.attrs matches Ok(a) && a.with is None && unknown_name(peeled(field.ty).0)) ==> w == Ok::<ToSqlPlan, DeriveError>(
            ToSqlPlan::Codec { optional: peeled(field.ty).1 },
        ),
{
    lemma_type_name_initials();
}

/// How a field is read: refused with the field's own settings error;
/// through the `with` reading function when one is given (refused when it
/// is not a path); else by the built-in conversion for a plain built-in
/// type, nullable exactly for an `Option`; else through the type's
/// `AtSqlCodec` when the type is a plain name the library does not know.
pub proof fn law_read_plan_choice(i: usize, field: FieldSpec, ok: bool, rd: Result<FromSqlPlan, DeriveError>)
    requires
        call_ensures(field_from_sql_plan, (i, &field, ok), rd),
    ensures
        field.attrs matches Err(m) ==> rd == Err::<FromSqlPlan, DeriveError>(DeriveError::Attr(i, m)),
        field.attrs matches Ok(a) ==> (a.with matches Some((_, f)) ==> (if ok {
            rd == Ok::<FromSqlPlan, DeriveError>(FromSqlPlan::With(f))
        } else {
            rd == Err::<FromSqlPlan, DeriveError>(DeriveError::InvalidPath(f))
        })),
        (field.attrs matches Ok(a) && a.with is None && plain_builtin(peeled(field.ty).0)) ==> (rd matches Ok(
            FromSqlPlan::BuiltIn { nullable, .. },
        ) && nullable == peeled(field.ty).1),
        (field.attrs matches Ok(a) && a.with is None && unknown_name(peeled(field.ty).0)) ==> rd == Ok::<FromSqlPlan, DeriveError>(
            FromSqlPlan::Codec { nullable: peeled(field.ty).1 },
        ),
{
    lemma_type_name_initials();
}

/// A field's column is nullable exactly when the field's type is an
/// `Option`.
pub proof fn law_nullable_exactly_for_option(i: usize, field: FieldSpec, r: Result<ColumnDefinition, DeriveError>)
    requires
        call_ensures(generate_col_expr, (i, &field), r),
    ensures
        r matches Ok(c) ==> c.nullable == peeled(field.ty).1,
{
    lemma_type_name_initials();
}

} // verus!
