use vstd::prelude::*;
use crate::attrs::StructAttrs;
use crate::codec::{
    ArmValue, bool_as_text, check_column_count, codec_input, is_null_spec, null_marker, read_arm_ok,
    read_builtin, written,
};
use crate::queries::sorted_columns;
use crate::sql_helpers::{ColumnDefinition, column_names, insert_sql, order_clause, placeholders, select_clause};
use crate::table_plan::{
    DeriveData, DeriveError, FieldSpec, FromSqlPlan, TablePlan, ToSqlPlan, collect_fields, column_spec,
    from_sql_spec, lemma_collect_ok, table_plan_ok, to_sql_spec,
};
use crate::text::join;
use crate::type_model::{ValueArm, option_inner};
use crate::naming::{ascii_lower, ascii_snake_case, is_ascii_char, is_ascii_text, is_ascii_upper};
use crate::value::{AtIntoValue, AtValue, RealBits, SqlError};

verus! {

/// A `None` field is written as a value that every nullable read, built-in
/// or through `AtSqlCodec`, takes back as `None`.
pub proof fn law_none_round_trip(
    written: AtValue,
    arm: ValueArm,
    field_name: &str,
    read: Result<Option<ArmValue>, SqlError>,
    codec_in: Option<&AtValue>,
)
    requires
        call_ensures(null_marker, (), written),
        call_ensures(read_builtin, (&arm, true, &written, field_name), read),
        call_ensures(codec_input, (true, &written), codec_in),
    ensures
        read == Ok::<Option<ArmValue>, SqlError>(None),
        codec_in is None,
{
}

/// A field whose conversion succeeds is written as what the conversion
/// gave; one whose conversion fails makes `to_sql_values` fail with a
/// `SerializationIssue` that carries the failure's text.
pub proof fn law_write_passes_conversion(raw: Result<AtValue, SqlError>, w: Result<AtValue, SqlError>)
    requires
        call_ensures(written, (raw,), w),
    ensures
        raw is Ok ==> w == raw,
        raw matches Err(e) ==> (w matches Err(SqlError::SerializationIssue(m)) && m@ == e.message_spec()),
{
}

/// An `i64` field, `Option` or not, is read back as the value written.
pub proof fn law_i64_round_trip(
    x: i64,
    raw: Result<AtValue, SqlError>,
    w: Result<AtValue, SqlError>,
    nullable: bool,
    field_name: &str,
    read: Result<Option<ArmValue>, SqlError>,
)
    requires
        call_ensures(<i64 as AtIntoValue>::into_value, (x,), raw),
        call_ensures(written, (raw,), w),
        w matches Ok(v) && call_ensures(read_builtin, (&ValueArm::I64, nullable, &v, field_name), read),
    ensures
        read == Ok::<Option<ArmValue>, SqlError>(Some(ArmValue::Int(x))),
{
}

/// A `u64` field, `Option` or not, is read back as the value written, also
/// above `i64::MAX`, where it is stored as a negative integer and cast back.
pub proof fn law_u64_round_trip(
    x: u64,
    raw: Result<AtValue, SqlError>,
    w: Result<AtValue, SqlError>,
    arm: ValueArm,
    nullable: bool,
    field_name: &str,
    read: Result<Option<ArmValue>, SqlError>,
)
    requires
        arm matches ValueArm::IntCast(n) && n@ == "u64"@,
        call_ensures(<u64 as AtIntoValue>::into_value, (x,), raw),
        call_ensures(written, (raw,), w),
        w matches Ok(v) && call_ensures(read_builtin, (&arm, nullable, &v, field_name), read),
    ensures
        read matches Ok(Some(ArmValue::Int(i))) && i as u64 == x,
{
    assert((x as i64) as u64 == x) by (bit_vector);
}

/// An `i32` field, `Option` or not, is read back as the value written.
pub proof fn law_i32_round_trip(
    x: i32,
    raw: Result<AtValue, SqlError>,
    w: Result<AtValue, SqlError>,
    arm: ValueArm,
    nullable: bool,
    field_name: &str,
    read: Result<Option<ArmValue>, SqlError>,
)
    requires
        arm matches ValueArm::IntCast(n) && n@ == "i32"@,
        call_ensures(<i32 as AtIntoValue>::into_value, (x,), raw),
        call_ensures(written, (raw,), w),
        w matches Ok(v) && call_ensures(read_builtin, (&arm, nullable, &v, field_name), read),
    ensures
        read matches Ok(Some(ArmValue::Int(i))) && i as i32 == x,
{
}

/// An `u8` field, `Option` or not, is read back as the value written.
pub proof fn law_u8_round_trip(
    x: u8,
    raw: Result<AtValue, SqlError>,
    w: Result<AtValue, SqlError>,
    arm: ValueArm,
    nullable: bool,
    field_name: &str,
    read: Result<Option<ArmValue>, SqlError>,
)
    requires
        arm matches ValueArm::IntCast(n) && n@ == "u8"@,
        call_ensures(<u8 as AtIntoValue>::into_value, (x,), raw),
        call_ensures(written, (raw,), w),
        w matches Ok(v) && call_ensures(read_builtin, (&arm, nullable, &v, field_name), read),
    ensures
        read matches Ok(Some(ArmValue::Int(i))) && i as u8 == x,
{
}

/// An `u16` field, `Option` or not, is read back as the value written.
pub proof fn law_u16_round_trip(
    x: u16,
    raw: Result<AtValue, SqlError>,
    w: Result<AtValue, SqlError>,
    arm: ValueArm,
    nullable: bool,
    field_name: &str,
    read: Result<Option<ArmValue>, SqlError>,
)
    requires
        arm matches ValueArm::IntCast(n) && n@ == "u16"@,
        call_ensures(<u16 as AtIntoValue>::into_value, (x,), raw),
        call_ensures(written, (raw,), w),
        w matches Ok(v) && call_ensures(read_builtin, (&arm, nullable, &v, field_name), read),
    ensures
        read matches Ok(Some(ArmValue::Int(i))) && i as u16 == x,
{
}

/// An `u32` field, `Option` or not, is read back as the value written.
pub proof fn law_u32_round_trip(
    x: u32,
    raw: Result<AtValue, SqlError>,
    w: Result<AtValue, SqlError>,
    arm: ValueArm,
    nullable: bool,
    field_name: &str,
    read: Result<Option<ArmValue>, SqlError>,
)
    requires
        arm matches ValueArm::IntCast(n) && n@ == "u32"@,
        call_ensures(<u32 as AtIntoValue>::into_value, (x,), raw),
        call_ensures(written, (raw,), w),
        w matches Ok(v) && call_ensures(read_builtin, (&arm, nullable, &v, field_name), read),
    ensures
        read matches Ok(Some(ArmValue::Int(i))) && i as u32 == x,
{
}

/// An `i8` field, `Option` or not, is read back as the value written.
pub proof fn law_i8_round_trip(
    x: i8,
    raw: Result<AtValue, SqlError>,
    w: Result<AtValue, SqlError>,
    arm: ValueArm,
    nullable: bool,
    field_name: &str,
    read: Result<Option<ArmValue>, SqlError>,
)
    requires
        arm matches ValueArm::IntCast(n) && n@ == "i8"@,
        call_ensures(<i8 as AtIntoValue>::into_value, (x,), raw),
        call_ensures(written, (raw,), w),
        w matches Ok(v) && call_ensures(read_builtin, (&arm, nullable, &v, field_name), read),
    ensures
        read matches Ok(Some(ArmValue::Int(i))) && i as i8 == x,
{
}

/// An `i16` field, `Option` or not, is read back as the value written.
pub proof fn law_i16_round_trip(
    x: i16,
    raw: Result<AtValue, SqlError>,
    w: Result<AtValue, SqlError>,
    arm: ValueArm,
    nullable: bool,
    field_name: &str,
    read: Result<Option<ArmValue>, SqlError>,
)
    requires
        arm matches ValueArm::IntCast(n) && n@ == "i16"@,
        call_ensures(<i16 as AtIntoValue>::into_value, (x,), raw),
        call_ensures(written, (raw,), w),
        w matches Ok(v) && call_ensures(read_builtin, (&arm, nullable, &v, field_name), read),
    ensures
        read matches Ok(Some(ArmValue::Int(i))) && i as i16 == x,
{
}

/// An `f32` or `f64` field, `Option` or not, written through its bit
/// pattern as a real, is read back as the same bit pattern.
pub proof fn law_real_round_trip(
    x: RealBits,
    raw: Result<AtValue, SqlError>,
    w: Result<AtValue, SqlError>,
    arm: ValueArm,
    nullable: bool,
    field_name: &str,
    read: Result<Option<ArmValue>, SqlError>,
)
    requires
        arm is F64 || arm is F32,
        call_ensures(<RealBits as AtIntoValue>::into_value, (x,), raw),
        call_ensures(written, (raw,), w),
        w matches Ok(v) && call_ensures(read_builtin, (&arm, nullable, &v, field_name), read),
    ensures
        read == Ok::<Option<ArmValue>, SqlError>(Some(ArmValue::RealBits(x.0))),
{
}

/// A `String` field is read back as the string written; as a nullable field
/// it is read back as `None` instead exactly when the string is `NULL`.
pub proof fn law_string_round_trip(
    s: String,
    raw: Result<AtValue, SqlError>,
    w: Result<AtValue, SqlError>,
    nullable: bool,
    field_name: &str,
    read: Result<Option<ArmValue>, SqlError>,
)
    requires
        call_ensures(<String as AtIntoValue>::into_value, (s,), raw),
        call_ensures(written, (raw,), w),
        w matches Ok(v) && call_ensures(read_builtin, (&ValueArm::Text, nullable, &v, field_name), read),
    ensures
        !(nullable && s@ == "NULL"@) ==> read == Ok::<Option<ArmValue>, SqlError>(Some(ArmValue::Text(s))),
        (nullable && s@ == "NULL"@) ==> read == Ok::<Option<ArmValue>, SqlError>(None),
{
}

/// The decimal digits of a text, read as a number.
pub open spec fn decimal_value(t: Seq<char>) -> int
    decreases t.len(),
{
    if t.len() == 0 {
        0
    } else {
        decimal_value(t.drop_last()) * 10 + (t.last() as int - '0' as int)
    }
}

/// A text of one or more ASCII digits.
pub open spec fn is_decimal_text(t: Seq<char>) -> bool {
    t.len() > 0 && forall|i: int| 0 <= i < t.len() ==> '0' <= #[trigger] t[i] <= '9'
}

/// What a column of `INTEGER` affinity keeps of a written value, as far as
/// this library relies on it: a text of decimal digits whose number fits an
/// `i64` is kept as that integer, and an integer is kept as it is. (SQLite
/// converts more texts than these; nothing here depends on them.)
pub open spec fn integer_affinity_keeps(written: AtValue, stored: AtValue) -> bool {
    &&& (written matches AtValue::Text(t) && is_decimal_text(t@) && decimal_value(t@) <= i64::MAX)
        ==> stored == AtValue::Integer(decimal_value(written->Text_0@) as i64)
    &&& written is Integer ==> stored == written
}

/// A `bool` field, `Option` or not, is written as the text `1` or `0`,
/// stored by its `INTEGER` column as 1 or 0, and read back as the value
/// written.
pub proof fn law_bool_round_trip(
    b: bool,
    w: AtValue,
    stored: AtValue,
    nullable: bool,
    field_name: &str,
    read: Result<Option<ArmValue>, SqlError>,
)
    requires
        call_ensures(bool_as_text, (b,), w),
        integer_affinity_keeps(w, stored),
        call_ensures(read_builtin, (&ValueArm::Bool, nullable, &stored, field_name), read),
    ensures
        read == Ok::<Option<ArmValue>, SqlError>(Some(ArmValue::Bool(b))),
{
    reveal_strlit("1");
    reveal_strlit("0");
    let t = w->Text_0@;
    assert(is_decimal_text(t));
    assert(t.drop_last() =~= Seq::<char>::empty());
    assert(decimal_value(t.drop_last()) == 0);
    assert(t.last() == if b { '1' } else { '0' });
    assert(('1' as int) - ('0' as int) == 1);
    assert(decimal_value(t) == if b { 1int } else { 0int });
}

/// A field's value, as the library sees a field of a built-in type, is
/// stored as `w`: `None` as the text `NULL`, a `bool` as the text `1` or
/// `0`, integers, reals, texts and blobs as themselves.
pub open spec fn is_written_as(val: Option<ArmValue>, w: AtValue) -> bool {
    match val {
        None => w matches AtValue::Text(t) && t@ == "NULL"@,
        Some(ArmValue::Bool(b)) => w matches AtValue::Text(t) && t@ == (if b { "1"@ } else { "0"@ }),
        Some(ArmValue::Int(i)) => w == AtValue::Integer(i),
        Some(ArmValue::RealBits(b)) => w == AtValue::Real(b),
        Some(ArmValue::Text(s)) => w == AtValue::Text(s),
        Some(ArmValue::Blob(b)) => w matches AtValue::Blob(x) && x@ == b@,
    }
}

/// A value fits a field read by `arm`: `None` only for a nullable field,
/// otherwise a value of the conversion's kind, and not the text `NULL` for
/// a nullable field (which reads back as `None`).
pub open spec fn fits_field(arm: ValueArm, nullable: bool, val: Option<ArmValue>) -> bool {
    match val {
        None => nullable,
        Some(ArmValue::Bool(_)) => arm is Bool,
        Some(ArmValue::Int(_)) => arm is I64 || arm is IntCast,
        Some(ArmValue::RealBits(_)) => arm is F64 || arm is F32,
        Some(ArmValue::Text(s)) => arm is Text && !(nullable && s@ == "NULL"@),
        Some(ArmValue::Blob(_)) => arm is Blob,
    }
}

/// What the column keeps of a written value: a `bool` field's column has
/// `INTEGER` affinity (see [`integer_affinity_keeps`]); every other value
/// is kept as written.
pub open spec fn column_keeps(arm: ValueArm, val: Option<ArmValue>, w: AtValue, stored: AtValue) -> bool {
    if arm is Bool && val is Some {
        integer_affinity_keeps(w, stored)
    } else {
        stored == w
    }
}

/// Two field values are the same (blobs by their bytes).
pub open spec fn same_value(a: Option<ArmValue>, b: Option<ArmValue>) -> bool {
    match (a, b) {
        (Some(ArmValue::Blob(x)), Some(ArmValue::Blob(y))) => x@ == y@,
        _ => a == b,
    }
}

/// A field of a built-in type, `Option` or not, is read back as the value
/// written, `None` included.
pub proof fn law_field_round_trip(
    arm: ValueArm,
    nullable: bool,
    field_name: Seq<char>,
    val: Option<ArmValue>,
    w: AtValue,
    stored: AtValue,
    read: Result<Option<ArmValue>, SqlError>,
)
    requires
        fits_field(arm, nullable, val),
        is_written_as(val, w),
        column_keeps(arm, val, w, stored),
        read_arm_ok(arm, nullable, stored, field_name, read),
    ensures
        read matches Ok(v) && same_value(v, val),
{
    reveal_strlit("1");
    reveal_strlit("0");
    reveal_strlit("NULL");
    if let Some(ArmValue::Bool(b)) = val {
        let t = w->Text_0@;
        assert(is_decimal_text(t));
        assert(t.drop_last() =~= Seq::<char>::empty());
        assert(decimal_value(t.drop_last()) == 0);
        assert(('1' as int) - ('0' as int) == 1);
        assert(decimal_value(t) == if b { 1int } else { 0int });
    }
    if let Some(ArmValue::Text(s)) = val {
        assert(stored == AtValue::Text(s));
        if nullable {
            assert(!is_null_spec(stored));
        }
    }
    if let Some(ArmValue::Blob(b)) = val {
        let x = read->Ok_0->Some_0->Blob_0;
        assert(x@ == b@);
    }
}

/// A row written from the values of a struct whose fields all have
/// built-in types passes the column-count check and reads back, field by
/// field, as the values written, `None` included.
pub proof fn law_row_round_trip(
    struct_name: Seq<char>,
    attrs: StructAttrs,
    fields: Vec<FieldSpec>,
    to_oks: Seq<bool>,
    from_oks: Seq<bool>,
    plan: TablePlan,
    vals: Seq<Option<ArmValue>>,
    written_row: Seq<AtValue>,
    values: &[AtValue],
    checked: Result<(), SqlError>,
    reads: Seq<Result<Option<ArmValue>, SqlError>>,
)
    requires
        table_plan_ok(struct_name, attrs, DeriveData::Named(fields), to_oks, from_oks, Ok(plan)),
        vals.len() == fields@.len(),
        written_row.len() == fields@.len(),
        values@.len() == written_row.len(),
        reads.len() == fields@.len(),
        forall|i: int|
            0 <= i < fields@.len() ==> (#[trigger] plan.from_sql@[i] matches FromSqlPlan::BuiltIn {
                arm,
                nullable,
            } && {
                &&& fits_field(arm, nullable, vals[i])
                &&& is_written_as(vals[i], written_row[i])
                &&& column_keeps(arm, vals[i], written_row[i], values@[i])
                &&& read_arm_ok(arm, nullable, values@[i], fields@[i].name@, reads[i])
            }),
        call_ensures(check_column_count, (values, plan.from_sql.len()), checked),
    ensures
        checked is Ok,
        forall|i: int| 0 <= i < fields@.len() ==> (#[trigger] reads[i] matches Ok(v) && same_value(v, vals[i])),
{
    let ff = |i: usize, f: FieldSpec| from_sql_spec(i, f, from_oks[i as int]);
    lemma_collect_ok(fields@, ff, plan.from_sql@);
    assert forall|i: int| 0 <= i < fields@.len() implies (#[trigger] reads[i] matches Ok(v) && same_value(
        v,
        vals[i],
    )) by {
        if let FromSqlPlan::BuiltIn { arm, nullable } = plan.from_sql@[i] {
            law_field_round_trip(
                arm,
                nullable,
                fields@[i].name@,
                vals[i],
                written_row[i],
                values@[i],
                reads[i],
            );
        }
    }
}

/// A field written as a `bool` is read as a `bool`, and its column has
/// `INTEGER` affinity unless a `data_type` is given.
pub proof fn law_bool_fields_use_integer_columns(i: usize, f: FieldSpec, to_ok: bool, from_ok: bool)
    requires
        to_sql_spec(i, f, to_ok) matches Ok(ToSqlPlan::BuiltIn { is_bool: true, .. }),
    ensures
        from_sql_spec(i, f, from_ok) matches Ok(FromSqlPlan::BuiltIn { arm: ValueArm::Bool, .. }),
        column_spec(i, f) matches Ok(c) && (f.attrs->Ok_0.data_type is None ==> c.sql_type == "INTEGER"@),
{
}

/// A row is read only when it has one value per field of the plan.
pub proof fn law_rows_are_checked_against_fields(
    struct_name: Seq<char>,
    attrs: StructAttrs,
    fields: Vec<FieldSpec>,
    to_oks: Seq<bool>,
    from_oks: Seq<bool>,
    plan: TablePlan,
    values: &[AtValue],
    checked: Result<(), SqlError>,
)
    requires
        table_plan_ok(struct_name, attrs, DeriveData::Named(fields), to_oks, from_oks, Ok(plan)),
        call_ensures(check_column_count, (values, plan.from_sql.len()), checked),
    ensures
        checked is Ok <==> values@.len() == fields@.len(),
        checked is Err ==> checked == Err::<(), SqlError>(SqlError::ColumnCountMismatch),
{
    let ff = |i: usize, f: FieldSpec| from_sql_spec(i, f, from_oks[i as int]);
    lemma_collect_ok(fields@, ff, plan.from_sql@);
}

/// The derive's plan has one column, one write plan and one read plan per
/// field, and they agree on which fields are optional: a field is a
/// nullable column, written with `None` handling and read with `None`
/// handling exactly when its type is an `Option` (fields handled through
/// `with` leave `None` to the user's functions).
pub proof fn law_plan_fields_agree(
    struct_name: Seq<char>,
    attrs: StructAttrs,
    fields: Vec<FieldSpec>,
    to_oks: Seq<bool>,
    from_oks: Seq<bool>,
    r: Result<TablePlan, DeriveError>,
)
    requires
        table_plan_ok(struct_name, attrs, DeriveData::Named(fields), to_oks, from_oks, r),
    ensures
        r matches Ok(p) ==> {
            &&& p.columns@.len() == fields@.len()
            &&& p.to_sql@.len() == fields@.len()
            &&& p.from_sql@.len() == fields@.len()
            &&& forall|i: int| 0 <= i < fields@.len() ==> {
                let optional = option_inner(fields@[i].ty).1;
                &&& (#[trigger] p.columns@[i]).nullable == optional
                &&& (p.to_sql@[i] matches ToSqlPlan::BuiltIn { optional: o, .. } ==> o == optional)
                &&& (p.to_sql@[i] matches ToSqlPlan::Codec { optional: o } ==> o == optional)
                &&& (p.from_sql@[i] matches FromSqlPlan::BuiltIn { nullable: o, .. } ==> o == optional)
                &&& (p.from_sql@[i] matches FromSqlPlan::Codec { nullable: o } ==> o == optional)
            }
        },
{
    if let Ok(p) = r {
        let fc = |i: usize, f: FieldSpec| column_spec(i, f);
        let ft = |i: usize, f: FieldSpec| to_sql_spec(i, f, to_oks[i as int]);
        let ff = |i: usize, f: FieldSpec| from_sql_spec(i, f, from_oks[i as int]);
        let cols = collect_fields(fields@, fc)->Ok_0;
        let ts = collect_fields(fields@, ft)->Ok_0;
        let fs = collect_fields(fields@, ff)->Ok_0;
        lemma_collect_ok(fields@, fc, cols);
        lemma_collect_ok(fields@, ft, ts);
        lemma_collect_ok(fields@, ff, fs);
        assert forall|i: int| 0 <= i < fields@.len() implies ({
            let optional = option_inner(fields@[i].ty).1;
            &&& (#[trigger] p.columns@[i]).nullable == optional
            &&& (p.to_sql@[i] matches ToSqlPlan::BuiltIn { optional: o, .. } ==> o == optional)
            &&& (p.to_sql@[i] matches ToSqlPlan::Codec { optional: o } ==> o == optional)
            &&& (p.from_sql@[i] matches FromSqlPlan::BuiltIn { nullable: o, .. } ==> o == optional)
            &&& (p.from_sql@[i] matches FromSqlPlan::Codec { nullable: o } ==> o == optional)
        }) by {
            assert(fc(i as usize, fields@[i]) == Ok::<_, DeriveError>(cols[i]));
            assert(ft(i as usize, fields@[i]) == Ok::<_, DeriveError>(ts[i]));
            assert(ff(i as usize, fields@[i]) == Ok::<_, DeriveError>(fs[i]));
            assert(p.columns@.map_values(|c: ColumnDefinition| c@)[i] == cols[i]);
        }
    }
}

/// The placeholders of an insert: one `?` per column, separated by commas.
pub proof fn law_one_placeholder_per_column(n: nat)
    requires
        n > 0,
    ensures
        join(placeholders(n), ","@).len() == 2 * n - 1,
        forall|i: int|
            0 <= i < 2 * n - 1 ==> #[trigger] join(placeholders(n), ","@)[i] == if i % 2 == 0 {
                '?'
            } else {
                ','
            },
    decreases n,
{
    reveal_strlit("?");
    reveal_strlit(",");
    if n == 1 {
        assert(placeholders(1) =~= seq!["?"@]);
    } else {
        law_one_placeholder_per_column((n - 1) as nat);
        assert(placeholders(n).drop_last() =~= placeholders((n - 1) as nat));
        let prev = join(placeholders((n - 1) as nat), ","@);
        assert(join(placeholders(n), ","@) == prev + ","@ + "?"@);
        assert forall|i: int| 0 <= i < 2 * n - 1 implies #[trigger] join(placeholders(n), ","@)[i] == if i
            % 2 == 0 {
            '?'
        } else {
            ','
        } by {
            if i < 2 * n - 3 {
                assert(join(placeholders(n), ","@)[i] == prev[i]);
            }
        }
    }
}

/// Rows are read with the columns they are written with, in the same
/// order: the list after `SELECT ` is the list inside `INSERT ... (` `)`.
pub proof fn law_read_and_write_use_same_columns(table: Seq<char>, cols: Seq<ColumnDefinition>)
    requires
        cols.len() > 0,
    ensures
        select_clause(cols) == "SELECT "@ + join(column_names(cols), ","@),
        insert_sql(table, cols) == "INSERT OR REPLACE INTO "@ + table + " ("@ + join(
            column_names(cols),
            ","@,
        ) + ") VALUES ("@ + join(placeholders(cols.len()), ","@) + ")"@,
{
}

/// Rows are ordered exactly when some column has a sort direction.
pub proof fn law_order_only_with_sorted_columns(cols: Seq<ColumnDefinition>)
    ensures
        order_clause(sorted_columns(cols)).len() == 0 <==> forall|i: int|
            0 <= i < cols.len() ==> (#[trigger] cols[i]).sort_by is None,
{
    reveal_strlit("ORDER BY ");
    let pred = |c: ColumnDefinition| c.sort_by is Some;
    assert(sorted_columns(cols) == cols.filter(pred));
    if exists|i: int| 0 <= i < cols.len() && (#[trigger] cols[i]).sort_by is Some {
        let i = choose|i: int| 0 <= i < cols.len() && (#[trigger] cols[i]).sort_by is Some;
        cols.lemma_filter_contains(pred, i);
        assert(cols.filter(pred).len() > 0);
    } else {
        lemma_filter_none(cols, pred);
    }
}

/// Filtering keeps nothing when no element passes.
proof fn lemma_filter_none(s: Seq<ColumnDefinition>, pred: spec_fn(ColumnDefinition) -> bool)
    requires
        forall|i: int| 0 <= i < s.len() ==> !pred(#[trigger] s[i]),
    ensures
        s.filter(pred).len() == 0,
    decreases s.len(),
{
    reveal_with_fuel(Seq::<_>::filter, 1);
    if s.len() > 0 {
        assert forall|i: int| 0 <= i < s.drop_last().len() implies !pred(#[trigger] s.drop_last()[i]) by {
            assert(s.drop_last()[i] == s[i]);
        }
        lemma_filter_none(s.drop_last(), pred);
        assert(!pred(s[s.len() - 1]));
    }
}

/// The number of pages is the number of full pages: `pages * page_size`
/// rows fit in the table and one page more would not.
pub proof fn law_pages_are_full_pages(count: u32, page_size: u32)
    requires
        page_size > 0,
    ensures
        (count / page_size) * page_size <= count,
        count < (count / page_size + 1) * page_size,
{
    assert((count / page_size) * page_size <= count && count < (count / page_size + 1) * page_size)
        by (nonlinear_arith)
        requires
            page_size > 0,
    ;
}

/// Uppercase ASCII letters after the first character.
pub open spec fn upper_after_first(s: Seq<char>) -> nat
    decreases s.len(),
{
    if s.len() == 0 {
        0
    } else {
        upper_after_first(s.drop_last()) + if is_ascii_upper(s.last()) && s.len() > 1 {
            1nat
        } else {
            0nat
        }
    }
}

/// The ASCII lowercase of an ASCII character is ASCII and not uppercase.
proof fn lemma_ascii_lower(c: char)
    requires
        is_ascii_char(c),
    ensures
        is_ascii_char(ascii_lower(c)),
        !is_ascii_upper(ascii_lower(c)),
        !is_ascii_upper(c) ==> ascii_lower(c) == c,
{
    if is_ascii_upper(c) {
        let x = (c as u32) + 32;
        assert(97 <= x <= 122);
        assert((x as char) as u32 == x);
    }
}

/// Snake case of an ASCII text without uppercase letters changes nothing.
proof fn lemma_ascii_snake_fixed(t: Seq<char>)
    requires
        is_ascii_text(t),
        forall|i: int| 0 <= i < t.len() ==> !is_ascii_upper(#[trigger] t[i]),
    ensures
        ascii_snake_case(t) == t,
    decreases t.len(),
{
    if t.len() > 0 {
        let d = t.drop_last();
        assert forall|i: int| 0 <= i < d.len() implies is_ascii_char(#[trigger] d[i]) && !is_ascii_upper(d[i]) by {
            assert(d[i] == t[i]);
        }
        lemma_ascii_snake_fixed(d);
        lemma_ascii_lower(t[t.len() - 1]);
        assert(ascii_snake_case(t) =~= d + seq![t[t.len() - 1]]);
        assert(t =~= d + seq![t[t.len() - 1]]);
    }
}

/// Snake case of an ASCII text is ASCII, has no uppercase letter, and
/// grows by one `_` per uppercase letter after the first character.
proof fn lemma_ascii_snake_shape(s: Seq<char>)
    requires
        is_ascii_text(s),
    ensures
        is_ascii_text(ascii_snake_case(s)),
        forall|i: int|
            0 <= i < ascii_snake_case(s).len() ==> !is_ascii_upper(#[trigger] ascii_snake_case(s)[i]),
        ascii_snake_case(s).len() == s.len() + upper_after_first(s),
    decreases s.len(),
{
    if s.len() > 0 {
        let d = s.drop_last();
        assert forall|i: int| 0 <= i < d.len() implies is_ascii_char(#[trigger] d[i]) by {
            assert(d[i] == s[i]);
        }
        lemma_ascii_snake_shape(d);
        let c = s[s.len() - 1];
        lemma_ascii_lower(c);
        let prev = ascii_snake_case(d);
        let mid: Seq<char> = if is_ascii_upper(c) && s.len() - 1 > 0 {
            seq!['_']
        } else {
            seq![]
        };
        let r = ascii_snake_case(s);
        assert(r == prev + mid + seq![ascii_lower(c)]);
        assert('_' as u32 == 95);
        assert forall|i: int| 0 <= i < r.len() implies is_ascii_char(#[trigger] r[i]) && !is_ascii_upper(r[i]) by {
            if i < prev.len() {
                assert(r[i] == prev[i]);
            } else if i < prev.len() + mid.len() {
                assert(r[i] == '_');
            } else {
                assert(r[i] == ascii_lower(c));
            }
        }
    }
}

/// On ASCII names, `to_snake_case` gives ASCII without uppercase letters,
/// adds one `_` for each uppercase letter after the first character, and
/// leaves its own output unchanged.
pub proof fn law_snake_case_ascii(s: Seq<char>)
    requires
        is_ascii_text(s),
    ensures
        is_ascii_text(ascii_snake_case(s)),
        forall|i: int|
            0 <= i < ascii_snake_case(s).len() ==> !is_ascii_upper(#[trigger] ascii_snake_case(s)[i]),
        ascii_snake_case(s).len() == s.len() + upper_after_first(s),
        ascii_snake_case(ascii_snake_case(s)) == ascii_snake_case(s),
{
    lemma_ascii_snake_shape(s);
    lemma_ascii_snake_fixed(ascii_snake_case(s));
}

} // verus!
