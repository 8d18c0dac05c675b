use vstd::prelude::*;
use crate::attrs::{FieldAttrs, StructAttrs};
use crate::naming::{default_table_name, default_table_name_spec};
use crate::sql_helpers::{ColumnDefinition, ColumnView, opt_view};
use crate::type_model::{
    RustType, TypeError, ValueArm, built_in_spec, extract_option_inner, is_built_in_sql_type,
    is_simple_ident, map_type_to_sql, match_arm_for_type, option_inner, simple_ident_spec,
    sql_type_spec, value_arm_spec,
};

verus! {

/// A named field of the struct that `AutoTable` is derived for.
pub struct FieldSpec {
    pub name: String,
    pub ty: RustType,
    /// The field's `#[auto_table(...)]` settings, or the message of the
    /// error met while reading them.
    pub attrs: Result<FieldAttrs, String>,
}

/// The item that `AutoTable` is derived for.
pub enum DeriveData {
    /// A struct with named fields, in order.
    Named(Vec<FieldSpec>),
    /// A tuple struct or a unit struct.
    Unnamed,
    /// An enum or a union.
    NotStruct,
}

/// Why the derive refuses an item.
#[derive(Debug, Clone, PartialEq)]
pub enum DeriveError {
    /// The struct's fields are not named.
    NamedFieldsOnly,
    /// The item is not a struct.
    StructsOnly,
    /// The settings of the field at this index could not be read.
    Attr(usize, String),
    /// The type of the field at this index has no mapping.
    Type(usize, TypeError),
    /// A function named in `with` is not a Rust path.
    InvalidPath(String),
}

/// How a field is turned into a stored value.
#[derive(Debug, Clone, PartialEq)]
pub enum ToSqlPlan {
    /// Through the user's function of this path.
    With(String),
    /// A type with a built-in conversion; `None` of an `Option` is stored as
    /// the text `NULL`, a `bool` as the text `1` or `0`, and an `f32` or
    /// `f64` (`is_real`) as a real through [`crate::value::RealBits`].
    BuiltIn { optional: bool, is_bool: bool, is_real: bool },
    /// Through the type's `AtSqlCodec::to_sql`; `None` is stored as the text `NULL`.
    Codec { optional: bool },
}

/// How a stored value is turned back into a field.
#[derive(Debug, Clone, PartialEq)]
pub enum FromSqlPlan {
    /// Through the user's function of this path.
    With(String),
    /// A built-in conversion; when nullable, `Null` and the text `NULL` give `None`.
    BuiltIn { arm: ValueArm, nullable: bool },
    /// Through the type's `AtSqlCodec::from_sql`; when nullable, `Null` and
    /// the text `NULL` give `None`.
    Codec { nullable: bool },
}

/// All that the derive decides for one struct.
///
/// The generated `to_sql_values` writes field `i` by `to_sql[i]`, passing
/// each conversion's result through [`crate::codec::written`], a `None`
/// as [`crate::codec::null_marker`] and a `bool` as
/// [`crate::codec::bool_as_text`]. The generated `from_sql_values` first
/// calls [`crate::codec::check_column_count`] with `from_sql.len()`, then
/// reads field `i` from value `i` by `from_sql[i]`, through
/// [`crate::codec::read_builtin`] or [`crate::codec::codec_input`].
pub struct TablePlan {
    pub table_name: String,
    /// The `index_by` text, empty when not given.
    pub indexes: String,
    pub columns: Vec<ColumnDefinition>,
    pub to_sql: Vec<ToSqlPlan>,
    pub from_sql: Vec<FromSqlPlan>,
}

/// `syn::parse_str::<syn::Path>`: whether the text parses as a Rust path.
///
/// Nothing is promised of the outcome. The text is lexed by proc-macro2,
/// which uses the compiler's lexer inside a procedural macro and its own
/// lexer elsewhere, so the same text is not shown to get the same answer in
/// every process; and proc-macro2 documents that some lexing errors may
/// panic rather than fail, without naming them, so no input is left out.
#[verifier::external_body]
fn parses_as_path(s: &str) -> (r: bool) {
    syn::parse_str::<syn::Path>(s).is_ok()
}

/// Whether each field's `with` function of one side parses as a Rust path
/// (`to_side`: the writing function, else the reading one); `true` for a
/// field without `with` or whose settings could not be read, where nothing
/// is parsed.
pub fn with_paths_parse(fields: &Vec<FieldSpec>, to_side: bool) -> (oks: Vec<bool>)
    ensures
        oks@.len() == fields@.len(),
        forall|i: int|
            0 <= i < fields@.len() && !(fields@[i].attrs matches Ok(a) && a.with is Some)
                ==> #[trigger] oks@[i],
{
    let mut oks: Vec<bool> = Vec::new();
    let n = fields.len();
    let mut i: usize = 0;
    while i < n
        invariant
            n == fields@.len(),
            i <= n,
            oks@.len() == i,
            forall|j: int|
                0 <= j < i && !(fields@[j].attrs matches Ok(a) && a.with is Some) ==> #[trigger] oks@[j],
        decreases n - i,
    {
        let ok = match &fields[i].attrs {
            Ok(a) => match &a.with {
                Some((to_fn, from_fn)) => parses_as_path(if to_side { to_fn.as_str() } else { from_fn.as_str() }),
                None => true,
            },
            Err(_) => true,
        };
        oks.push(ok);
        i = i + 1;
    }
    oks
}

/// The results of `f` on each field with its index, in order; the first
/// failure gives the error.
pub open spec fn collect_fields<B>(
    fields: Seq<FieldSpec>,
    f: spec_fn(usize, FieldSpec) -> Result<B, DeriveError>,
) -> Result<Seq<B>, DeriveError>
    decreases fields.len(),
{
    if fields.len() == 0 {
        Ok(seq![])
    } else {
        match collect_fields(fields.drop_last(), f) {
            Err(e) => Err(e),
            Ok(bs) => match f((fields.len() - 1) as usize, fields.last()) {
                Ok(b) => Ok(bs.push(b)),
                Err(e) => Err(e),
            },
        }
    }
}

/// Once a prefix fails, the whole list fails with the same error.
proof fn lemma_collect_err_extends<B>(
    fields: Seq<FieldSpec>,
    f: spec_fn(usize, FieldSpec) -> Result<B, DeriveError>,
    k: int,
)
    requires
        0 <= k <= fields.len(),
        collect_fields(fields.take(k), f) is Err,
    ensures
        collect_fields(fields, f) == collect_fields(fields.take(k), f),
    decreases fields.len() - k,
{
    if k < fields.len() {
        assert(fields.take(k + 1).drop_last() =~= fields.take(k));
        lemma_collect_err_extends(fields, f, k + 1);
    } else {
        assert(fields.take(k) =~= fields);
    }
}

/// When every field succeeds, `collect_fields` holds each field's result at
/// the field's index.
pub proof fn lemma_collect_ok<B>(
    fields: Seq<FieldSpec>,
    f: spec_fn(usize, FieldSpec) -> Result<B, DeriveError>,
    bs: Seq<B>,
)
    requires
        collect_fields(fields, f) == Ok::<Seq<B>, DeriveError>(bs),
    ensures
        bs.len() == fields.len(),
        forall|i: int| 0 <= i < fields.len() ==> f(i as usize, fields[i]) == Ok::<B, DeriveError>(#[trigger] bs[i]),
    decreases fields.len(),
{
    if fields.len() > 0 {
        let prev = collect_fields(fields.drop_last(), f);
        let b = f((fields.len() - 1) as usize, fields.last());
        assert(prev is Ok && b is Ok);
        let ps = prev->Ok_0;
        lemma_collect_ok(fields.drop_last(), f, ps);
        assert(bs == ps.push(b->Ok_0));
        assert forall|i: int| 0 <= i < fields.len() implies f(i as usize, fields[i]) == Ok::<B, DeriveError>(
            #[trigger] bs[i],
        ) by {
            if i < fields.len() - 1 {
                assert(fields.drop_last()[i] == fields[i]);
            }
        }
    }
}

/// The column of a field: the `data_type` given, else the SQL type of the
/// field's type with one `Option` peeled; nullable exactly for an `Option`;
/// sorted `DESC` before `ASC`.
pub open spec fn column_spec(i: usize, f: FieldSpec) -> Result<ColumnView, DeriveError> {
    match f.attrs {
        Err(m) => Err(DeriveError::Attr(i, m)),
        Ok(a) => {
            let (base, optional) = option_inner(f.ty);
            let sql_type: Result<Seq<char>, DeriveError> = match a.data_type {
                Some(d) => Ok(d@),
                None => match sql_type_spec(base) {
                    Ok(s) => Ok(s),
                    Err(e) => Err(DeriveError::Type(i, e)),
                },
            };
            match sql_type {
                Err(e) => Err(e),
                Ok(s) => Ok(
                    ColumnView {
                        name: f.name@,
                        sql_type: s,
                        nullable: optional,
                        primary_key: a.primary_key,
                        sort_by: if a.sort_desc {
                            Some("DESC"@)
                        } else if a.sort_asc {
                            Some("ASC"@)
                        } else {
                            None
                        },
                        default: opt_view(a.default),
                    },
                ),
            }
        },
    }
}

/// How a field is written: `with` first, then a built-in conversion, then `AtSqlCodec`.
/// `path_ok` is whether the `with` writing function parses as a Rust path.
pub open spec fn to_sql_spec(i: usize, f: FieldSpec, path_ok: bool) -> Result<ToSqlPlan, DeriveError> {
    match f.attrs {
        Err(m) => Err(DeriveError::Attr(i, m)),
        Ok(a) => {
            let (base, optional) = option_inner(f.ty);
            match a.with {
                Some((to_fn, _)) => if path_ok {
                    Ok(ToSqlPlan::With(to_fn))
                } else {
                    Err(DeriveError::InvalidPath(to_fn))
                },
                None => if built_in_spec(base) {
                    Ok(
                        ToSqlPlan::BuiltIn {
                            optional,
                            is_bool: simple_ident_spec(base, "bool"@),
                            is_real: simple_ident_spec(base, "f64"@) || simple_ident_spec(base, "f32"@),
                        },
                    )
                } else {
                    Ok(ToSqlPlan::Codec { optional })
                },
            }
        },
    }
}

/// How a field is read: `with` first, then a built-in conversion, then `AtSqlCodec`.
/// `path_ok` is whether the `with` reading function parses as a Rust path.
pub open spec fn from_sql_spec(i: usize, f: FieldSpec, path_ok: bool) -> Result<FromSqlPlan, DeriveError> {
    match f.attrs {
        Err(m) => Err(DeriveError::Attr(i, m)),
        Ok(a) => {
            let (base, nullable) = option_inner(f.ty);
            match a.with {
                Some((_, from_fn)) => if path_ok {
                    Ok(FromSqlPlan::With(from_fn))
                } else {
                    Err(DeriveError::InvalidPath(from_fn))
                },
                None => if built_in_spec(base) {
                    match value_arm_spec(base) {
                        Ok(arm) => Ok(FromSqlPlan::BuiltIn { arm, nullable }),
                        Err(e) => Err(DeriveError::Type(i, e)),
                    }
                } else {
                    Ok(FromSqlPlan::Codec { nullable })
                },
            }
        },
    }
}

/// The write plans of all fields, `oks[i]` being whether the `with`
/// writing function of field `i` parses as a Rust path.
pub open spec fn to_sql_plans(fields: Seq<FieldSpec>, oks: Seq<bool>) -> Result<Seq<ToSqlPlan>, DeriveError> {
    collect_fields(fields, |i: usize, f: FieldSpec| to_sql_spec(i, f, oks[i as int]))
}

/// The read plans of all fields, `oks[i]` being whether the `with`
/// reading function of field `i` parses as a Rust path.
pub open spec fn from_sql_plans(fields: Seq<FieldSpec>, oks: Seq<bool>) -> Result<Seq<FromSqlPlan>, DeriveError> {
    collect_fields(fields, |i: usize, f: FieldSpec| from_sql_spec(i, f, oks[i as int]))
}

/// The column that a field describes.
pub fn generate_col_expr(i: usize, field: &FieldSpec) -> (r: Result<ColumnDefinition, DeriveError>)
    ensures
        match column_spec(i, *field) {
            Ok(c) => r matches Ok(x) && x@ == c,
            Err(e) => r == Err::<ColumnDefinition, DeriveError>(e),
        },
{
    let attrs = match &field.attrs {
        Ok(a) => a,
        Err(m) => {
            return Err(DeriveError::Attr(i, m.clone()));
        },
    };
    let (base_ty, is_option) = extract_option_inner(&field.ty);
    let sql_type = match &attrs.data_type {
        Some(d) => d.clone(),
        None => match map_type_to_sql(base_ty) {
            Ok(t) => String::from_str(t),
            Err(e) => {
                return Err(DeriveError::Type(i, e));
            },
        },
    };
    let sort_by = if attrs.sort_desc {
        Some(String::from_str("DESC"))
    } else if attrs.sort_asc {
        Some(String::from_str("ASC"))
    } else {
        None
    };
    Ok(
        ColumnDefinition {
            name: field.name.clone(),
            sql_type,
            nullable: is_option,
            primary_key: attrs.primary_key,
            sort_by,
            default: attrs.default.clone(),
        },
    )
}

/// How a field is written (one step of the `to_sql_values` body).
/// `path_ok` is whether its `with` writing function parses as a Rust path.
pub fn field_to_sql_plan(i: usize, field: &FieldSpec, path_ok: bool) -> (r: Result<ToSqlPlan, DeriveError>)
    ensures
        r == to_sql_spec(i, *field, path_ok),
{
    let attrs = match &field.attrs {
        Ok(a) => a,
        Err(m) => {
            return Err(DeriveError::Attr(i, m.clone()));
        },
    };
    let (base_ty, is_option) = extract_option_inner(&field.ty);
    match &attrs.with {
        Some((to_fn, _)) => {
            if path_ok {
                Ok(ToSqlPlan::With(to_fn.clone()))
            } else {
                Err(DeriveError::InvalidPath(to_fn.clone()))
            }
        },
        None => {
            if is_built_in_sql_type(base_ty) {
                let is_bool = is_simple_ident(base_ty, "bool");
                let is_real = is_simple_ident(base_ty, "f64") || is_simple_ident(base_ty, "f32");
                Ok(ToSqlPlan::BuiltIn { optional: is_option, is_bool, is_real })
            } else {
                Ok(ToSqlPlan::Codec { optional: is_option })
            }
        },
    }
}

/// How a field is read (one step of the `from_sql_values` body).
/// `path_ok` is whether its `with` reading function parses as a Rust path.
pub fn field_from_sql_plan(i: usize, field: &FieldSpec, path_ok: bool) -> (r: Result<FromSqlPlan, DeriveError>)
    ensures
        r == from_sql_spec(i, *field, path_ok),
{
    let attrs = match &field.attrs {
        Ok(a) => a,
        Err(m) => {
            return Err(DeriveError::Attr(i, m.clone()));
        },
    };
    let (base_ty, is_option) = extract_option_inner(&field.ty);
    match &attrs.with {
        Some((_, from_fn)) => {
            if path_ok {
                Ok(FromSqlPlan::With(from_fn.clone()))
            } else {
                Err(DeriveError::InvalidPath(from_fn.clone()))
            }
        },
        None => {
            if is_built_in_sql_type(base_ty) {
                match match_arm_for_type(base_ty) {
                    Ok(arm) => Ok(FromSqlPlan::BuiltIn { arm, nullable: is_option }),
                    Err(e) => Err(DeriveError::Type(i, e)),
                }
            } else {
                Ok(FromSqlPlan::Codec { nullable: is_option })
            }
        },
    }
}

/// The columns of all fields, in order (the `column_definitions` body).
pub fn generate_columns(fields: &Vec<FieldSpec>) -> (r: Result<Vec<ColumnDefinition>, DeriveError>)
    ensures
        match collect_fields(fields@, |i: usize, f: FieldSpec| column_spec(i, f)) {
            Ok(cs) => r matches Ok(v) && v@.map_values(|c: ColumnDefinition| c@) == cs,
            Err(e) => r == Err::<Vec<ColumnDefinition>, DeriveError>(e),
        },
{
    let ghost f = |i: usize, f: FieldSpec| column_spec(i, f);
    let mut out: Vec<ColumnDefinition> = Vec::new();
    let n = fields.len();
    let mut i: usize = 0;
    while i < n
        invariant
            n == fields@.len(),
            i <= n,
            f == (|i: usize, f: FieldSpec| column_spec(i, f)),
            collect_fields(fields@.take(i as int), f) matches Ok(cs)
                && out@.map_values(|c: ColumnDefinition| c@) == cs,
        decreases n - i,
    {
        proof {
            let t = fields@.take(i + 1);
            assert(t.drop_last() =~= fields@.take(i as int));
            assert(t.last() == fields@[i as int]);
        }
        match generate_col_expr(i, &fields[i]) {
            Ok(c) => {
                let ghost before = out@;
                out.push(c);
                proof {
                    assert(out@.map_values(|c: ColumnDefinition| c@) =~= before.map_values(
                        |c: ColumnDefinition| c@,
                    ).push(c@));
                }
            },
            Err(e) => {
                proof {
                    lemma_collect_err_extends(fields@, f, i + 1);
                }
                return Err(e);
            },
        }
        i = i + 1;
    }
    assert(fields@.take(n as int) =~= fields@);
    Ok(out)
}

/// How each field is written, in order (the `to_sql_values` body).
///
/// Whether each `with` function parses as a path is up to `syn`: the plans
/// are those of [`to_sql_plans`] for the outcomes that came back.
pub fn generate_to_sql_body(fields: &Vec<FieldSpec>) -> (r: Result<Vec<ToSqlPlan>, DeriveError>)
    ensures
        exists|oks: Seq<bool>|
            oks.len() == fields@.len() && match #[trigger] to_sql_plans(fields@, oks) {
                Ok(ps) => r matches Ok(v) && v@ == ps,
                Err(e) => r == Err::<Vec<ToSqlPlan>, DeriveError>(e),
            },
        r matches Ok(v) ==> v@.len() == fields@.len(),
{
    let oks = with_paths_parse(fields, true);
    let ghost f = |i: usize, f: FieldSpec| to_sql_spec(i, f, oks@[i as int]);
    let mut out: Vec<ToSqlPlan> = Vec::new();
    let n = fields.len();
    let mut i: usize = 0;
    while i < n
        invariant
            n == fields@.len(),
            i <= n,
            oks@.len() == n,
            f == (|i: usize, f: FieldSpec| to_sql_spec(i, f, oks@[i as int])),
            collect_fields(fields@.take(i as int), f) == Ok::<Seq<ToSqlPlan>, DeriveError>(out@),
        decreases n - i,
    {
        proof {
            let t = fields@.take(i + 1);
            assert(t.drop_last() =~= fields@.take(i as int));
            assert(t.last() == fields@[i as int]);
        }
        match field_to_sql_plan(i, &fields[i], oks[i]) {
            Ok(p) => out.push(p),
            Err(e) => {
                proof {
                    lemma_collect_err_extends(fields@, f, i + 1);
                    assert(to_sql_plans(fields@, oks@) == collect_fields(fields@, f));
                }
                return Err(e);
            },
        }
        i = i + 1;
    }
    assert(fields@.take(n as int) =~= fields@);
    proof {
        lemma_collect_ok(fields@, f, out@);
        assert(to_sql_plans(fields@, oks@) == collect_fields(fields@, f));
    }
    Ok(out)
}

/// How each field is read, in order (the `from_sql_values` body).
///
/// Whether each `with` function parses as a path is up to `syn`: the plans
/// are those of [`from_sql_plans`] for the outcomes that came back.
pub fn generate_from_sql_body(fields: &Vec<FieldSpec>) -> (r: Result<Vec<FromSqlPlan>, DeriveError>)
    ensures
        exists|oks: Seq<bool>|
            oks.len() == fields@.len() && match #[trigger] from_sql_plans(fields@, oks) {
                Ok(ps) => r matches Ok(v) && v@ == ps,
                Err(e) => r == Err::<Vec<FromSqlPlan>, DeriveError>(e),
            },
        r matches Ok(v) ==> v@.len() == fields@.len(),
{
    let oks = with_paths_parse(fields, false);
    let ghost f = |i: usize, f: FieldSpec| from_sql_spec(i, f, oks@[i as int]);
    let mut out: Vec<FromSqlPlan> = Vec::new();
    let n = fields.len();
    let mut i: usize = 0;
    while i < n
        invariant
            n == fields@.len(),
            i <= n,
            oks@.len() == n,
            f == (|i: usize, f: FieldSpec| from_sql_spec(i, f, oks@[i as int])),
            collect_fields(fields@.take(i as int), f) == Ok::<Seq<FromSqlPlan>, DeriveError>(out@),
        decreases n - i,
    {
        proof {
            let t = fields@.take(i + 1);
            assert(t.drop_last() =~= fields@.take(i as int));
            assert(t.last() == fields@[i as int]);
        }
        match field_from_sql_plan(i, &fields[i], oks[i]) {
            Ok(p) => out.push(p),
            Err(e) => {
                proof {
                    lemma_collect_err_extends(fields@, f, i + 1);
                    assert(from_sql_plans(fields@, oks@) == collect_fields(fields@, f));
                }
                return Err(e);
            },
        }
        i = i + 1;
    }
    assert(fields@.take(n as int) =~= fields@);
    proof {
        lemma_collect_ok(fields@, f, out@);
        assert(from_sql_plans(fields@, oks@) == collect_fields(fields@, f));
    }
    Ok(out)
}

/// The table name: the `table` setting, else the struct's name in snake case with `s`.
pub open spec fn table_name_spec(struct_name: Seq<char>, attrs: StructAttrs) -> Seq<char> {
    match attrs.table_name {
        Some(t) => t@,
        None => default_table_name_spec(struct_name),
    }
}

/// What the derive makes of an item: refused unless it is a struct with
/// named fields; then the columns, the write plans and the read plans of
/// all fields, each phase over all fields before the next, the first
/// failure giving the error. `to_oks` and `from_oks` say, per field, whether
/// its `with` writing and reading functions parse as Rust paths.
pub open spec fn table_plan_ok(
    struct_name: Seq<char>,
    attrs: StructAttrs,
    data: DeriveData,
    to_oks: Seq<bool>,
    from_oks: Seq<bool>,
    r: Result<TablePlan, DeriveError>,
) -> bool {
    match data {
        DeriveData::NotStruct => r == Err::<TablePlan, DeriveError>(DeriveError::StructsOnly),
        DeriveData::Unnamed => r == Err::<TablePlan, DeriveError>(DeriveError::NamedFieldsOnly),
        DeriveData::Named(fields) => match collect_fields(
            fields@,
            |i: usize, f: FieldSpec| column_spec(i, f),
        ) {
            Err(e) => r == Err::<TablePlan, DeriveError>(e),
            Ok(cols) => match to_sql_plans(fields@, to_oks) {
                Err(e) => r == Err::<TablePlan, DeriveError>(e),
                Ok(writes) => match from_sql_plans(fields@, from_oks) {
                    Err(e) => r == Err::<TablePlan, DeriveError>(e),
                    Ok(reads) => r matches Ok(p) && {
                        &&& p.table_name@ == table_name_spec(struct_name, attrs)
                        &&& p.indexes@ == match attrs.table_indexes {
                            Some(x) => x@,
                            None => Seq::<char>::empty(),
                        }
                        &&& p.columns@.map_values(|c: ColumnDefinition| c@) == cols
                        &&& p.to_sql@ == writes
                        &&& p.from_sql@ == reads
                    },
                },
            },
        },
    }
}

/// Everything the `AutoTable` derive decides for an item.
pub fn impl_auto_table(struct_name: &str, attrs: &StructAttrs, data: &DeriveData) -> (r: Result<
    TablePlan,
    DeriveError,
>)
    ensures
        exists|to_oks: Seq<bool>, from_oks: Seq<bool>|
            #[trigger] table_plan_ok(struct_name@, *attrs, *data, to_oks, from_oks, r),
{
    let table_name = match &attrs.table_name {
        Some(t) => t.clone(),
        None => default_table_name(struct_name),
    };
    let fields = match data {
        DeriveData::Named(f) => f,
        DeriveData::Unnamed => {
            let r = Err(DeriveError::NamedFieldsOnly);
            assert(table_plan_ok(struct_name@, *attrs, *data, seq![], seq![], r));
            return r;
        },
        DeriveData::NotStruct => {
            let r = Err(DeriveError::StructsOnly);
            assert(table_plan_ok(struct_name@, *attrs, *data, seq![], seq![], r));
            return r;
        },
    };
    let indexes = match &attrs.table_indexes {
        Some(x) => x.clone(),
        None => String::new(),
    };
    let columns = match generate_columns(fields) {
        Ok(c) => c,
        Err(e) => {
            let r = Err(e);
            assert(table_plan_ok(struct_name@, *attrs, *data, seq![], seq![], r));
            return r;
        },
    };
    let to_sql_r = generate_to_sql_body(fields);
    let ghost to_oks = choose|oks: Seq<bool>|
        oks.len() == fields@.len() && match #[trigger] to_sql_plans(fields@, oks) {
            Ok(ps) => to_sql_r matches Ok(v) && v@ == ps,
            Err(e) => to_sql_r == Err::<Vec<ToSqlPlan>, DeriveError>(e),
        };
    let to_sql = match to_sql_r {
        Ok(t) => t,
        Err(e) => {
            let r = Err(e);
            assert(table_plan_ok(struct_name@, *attrs, *data, to_oks, seq![], r));
            return r;
        },
    };
    let from_sql_r = generate_from_sql_body(fields);
    let ghost from_oks = choose|oks: Seq<bool>|
        oks.len() == fields@.len() && match #[trigger] from_sql_plans(fields@, oks) {
            Ok(ps) => from_sql_r matches Ok(v) && v@ == ps,
            Err(e) => from_sql_r == Err::<Vec<FromSqlPlan>, DeriveError>(e),
        };
    let from_sql = match from_sql_r {
        Ok(f) => f,
        Err(e) => {
            let r = Err(e);
            assert(table_plan_ok(struct_name@, *attrs, *data, to_oks, from_oks, r));
            return r;
        },
    };
    let r = Ok(TablePlan { table_name, indexes, columns, to_sql, from_sql });
    assert(table_plan_ok(struct_name@, *attrs, *data, to_oks, from_oks, r));
    r
}

} // verus!
