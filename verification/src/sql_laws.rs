use vstd::prelude::*;
use crate::queries::id_column;
use crate::sql_helpers::{ColumnDefinition, generate_create_table};
use crate::table_plan::{DeriveData, FieldSpec, TablePlan, collect_fields, column_spec, lemma_collect_ok, table_plan_ok};
use crate::attrs::StructAttrs;

verus! {

/// The definition of a column inside `CREATE TABLE` begins with its name
/// and SQL type; a column that is neither nullable nor the key adds
/// `NOT NULL`, the key adds `PRIMARY KEY` (and no `NOT NULL`), a nullable
/// column adds neither, and a default comes last as `DEFAULT value`.
pub proof fn law_column_definition_text(c: ColumnDefinition, r: String)
    requires
        call_ensures(ColumnDefinition::to_sql, (&c,), r),
    ensures
        ({
            let head = c.name@ + " "@ + c.sql_type@;
            let tail: Seq<char> = match c.default {
                Some(d) => " DEFAULT "@ + d@,
                None => Seq::empty(),
            };
            &&& c.primary_key ==> r@ == head + " PRIMARY KEY"@ + tail
            &&& (!c.primary_key && !c.nullable) ==> r@ == head + " NOT NULL"@ + tail
            &&& (!c.primary_key && c.nullable) ==> r@ == head + tail
        }),
{
}

/// `CREATE TABLE` names the table and lists the columns in parentheses; a
/// single column is listed by its own definition.
pub proof fn law_create_table_text(table: &str, cols: Vec<ColumnDefinition>, r: String, one: String)
    requires
        call_ensures(generate_create_table, (table, &cols), r),
        cols@.len() == 1 ==> call_ensures(ColumnDefinition::to_sql, (&cols@[0],), one),
    ensures
        r@.take(("CREATE TABLE "@ + table@ + " ("@).len() as int) == "CREATE TABLE "@ + table@ + " ("@,
        r@.last() == ')',
        cols@.len() == 1 ==> r@ == "CREATE TABLE "@ + table@ + " ("@ + one@ + ")"@,
{
    let p = "CREATE TABLE "@ + table@ + " ("@;
    let body = crate::text::join(
        cols@.map_values(|c: ColumnDefinition| crate::sql_helpers::column_sql(c)),
        ", "@,
    );
    assert(r@ == p + body + ")"@);
    assert((p + body + ")"@).take(p.len() as int) =~= p);
    reveal_strlit(")");
    if cols@.len() == 1 {
        assert(cols@.map_values(|c: ColumnDefinition| crate::sql_helpers::column_sql(c)).len() == 1);
    }
}

/// The table's id column is the first field marked `primary_key`: looking
/// up the id column of the derived columns gives the column of that
/// field, and gives none when no field is marked.
pub proof fn law_primary_key_field_is_id_column(
    struct_name: Seq<char>,
    attrs: StructAttrs,
    fields: Vec<FieldSpec>,
    to_oks: Seq<bool>,
    from_oks: Seq<bool>,
    plan: TablePlan,
    r: Option<ColumnDefinition>,
)
    requires
        table_plan_ok(struct_name, attrs, DeriveData::Named(fields), to_oks, from_oks, Ok(plan)),
        call_ensures(id_column, (&plan.columns,), r),
    ensures
        forall|i: int| 0 <= i < fields@.len() ==> (#[trigger] fields@[i]).attrs is Ok,
        (forall|i: int| 0 <= i < fields@.len() ==> !(#[trigger] fields@[i]).attrs->Ok_0.primary_key)
            ==> r is None,
        forall|k: int|
            0 <= k < fields@.len() && (#[trigger] fields@[k]).attrs->Ok_0.primary_key && (forall|j: int|
                0 <= j < k ==> !fields@[j].attrs->Ok_0.primary_key) ==> (r matches Some(c) && c.name@
                == fields@[k].name@),
{
    let fc = |i: usize, f: FieldSpec| column_spec(i, f);
    let cols = collect_fields(fields@, fc)->Ok_0;
    lemma_collect_ok(fields@, fc, cols);
    assert forall|i: int| 0 <= i < fields@.len() implies (#[trigger] fields@[i]).attrs is Ok && plan.columns@[i].primary_key
        == fields@[i].attrs->Ok_0.primary_key && plan.columns@[i].name@ == fields@[i].name@ by {
        assert(fc(i as usize, fields@[i]) == Ok::<_, crate::table_plan::DeriveError>(cols[i]));
        assert(plan.columns@.map_values(|c: ColumnDefinition| c@)[i] == cols[i]);
    }
    if let Some(c) = r {
        let m = choose|m: int| crate::queries::first_primary_key(plan.columns@, m) && c == plan.columns@[m];
        assert(fields@[m].attrs->Ok_0.primary_key);
    }
    assert forall|k: int|
        0 <= k < fields@.len() && (#[trigger] fields@[k]).attrs->Ok_0.primary_key && (forall|j: int|
            0 <= j < k ==> !fields@[j].attrs->Ok_0.primary_key) implies (r matches Some(c) && c.name@
            == fields@[k].name@) by {
        assert(plan.columns@[k].primary_key);
        if let Some(c) = r {
            let m = choose|m: int| crate::queries::first_primary_key(plan.columns@, m) && c == plan.columns@[m];
            if m < k {
                assert(fields@[m].attrs->Ok_0.primary_key);
            }
            if m > k {
                assert(!plan.columns@[k].primary_key);
            }
        }
    }
}

} // verus!
