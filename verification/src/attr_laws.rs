use vstd::prelude::*;
use crate::attrs::{
    AttrError, FieldAttr, FieldAttrs, Literal, field_attr_error, field_attr_ok, is_white_space,
    single_comma_at, trim_end, trim_start,
};

verus! {

/// Each flag setting turns its own flag on and changes nothing else; a
/// string `data_type` becomes the column type; a default is kept in its SQL
/// form (a string quoted, a number by its digits, a boolean as `1`/`0`).
pub proof fn law_setting_effects(old_attrs: FieldAttrs, attr: FieldAttr, new_attrs: FieldAttrs)
    requires
        field_attr_error(attr) is None,
        field_attr_ok(old_attrs, attr, new_attrs),
    ensures
        attr is PrimaryKey ==> new_attrs.primary_key && new_attrs.sort_asc == old_attrs.sort_asc
            && new_attrs.sort_desc == old_attrs.sort_desc && new_attrs.data_type == old_attrs.data_type
            && new_attrs.with == old_attrs.with && new_attrs.default == old_attrs.default,
        attr is SortAsc ==> new_attrs.sort_asc && new_attrs.primary_key == old_attrs.primary_key
            && new_attrs.sort_desc == old_attrs.sort_desc && new_attrs.data_type == old_attrs.data_type
            && new_attrs.with == old_attrs.with && new_attrs.default == old_attrs.default,
        attr is SortDesc ==> new_attrs.sort_desc && new_attrs.primary_key == old_attrs.primary_key
            && new_attrs.sort_asc == old_attrs.sort_asc && new_attrs.data_type == old_attrs.data_type
            && new_attrs.with == old_attrs.with && new_attrs.default == old_attrs.default,
        attr matches FieldAttr::DataType(Literal::Str(s)) ==> new_attrs.data_type == Some(s)
            && new_attrs.primary_key == old_attrs.primary_key && new_attrs.default == old_attrs.default,
        attr matches FieldAttr::Default(Literal::Str(s)) ==> (new_attrs.default matches Some(d) && d@
            == seq!['\''] + s@ + seq!['\'']),
        attr matches FieldAttr::Default(Literal::Int(s)) ==> (new_attrs.default matches Some(d) && d@
            == s@),
        attr matches FieldAttr::Default(Literal::Bool(b)) ==> (new_attrs.default matches Some(d) && d@
            == (if b { "1"@ } else { "0"@ })),
        attr is Default ==> new_attrs.primary_key == old_attrs.primary_key && new_attrs.sort_asc
            == old_attrs.sort_asc && new_attrs.sort_desc == old_attrs.sort_desc,
{
}

/// Unknown keys and defaults with no SQL form are refused.
pub proof fn law_refused_settings(name: String)
    ensures
        field_attr_error(FieldAttr::Unknown(name)) == Some(AttrError::UnknownAttribute(name)),
        field_attr_error(FieldAttr::Default(Literal::Other)) == Some(AttrError::UnsupportedDefault),
{
}

/// `with = "a,b"` without whitespace names `a` as the writing and `b` as
/// the reading function, split at the only comma.
pub proof fn law_with_splits_at_comma(old_attrs: FieldAttrs, w: String, k: int, new_attrs: FieldAttrs)
    requires
        single_comma_at(w@, k),
        forall|i: int| 0 <= i < w@.len() ==> !is_white_space(#[trigger] w@[i]),
        field_attr_ok(old_attrs, FieldAttr::With(w), new_attrs),
    ensures
        new_attrs.with matches Some((a, b)) && a@ == w@.take(k) && b@ == w@.skip(k + 1),
        new_attrs.primary_key == old_attrs.primary_key && new_attrs.default == old_attrs.default,
{
    let a = w@.take(k);
    let b = w@.skip(k + 1);
    assert(a.len() > 0 ==> !is_white_space(a[0]) && !is_white_space(a.last()));
    assert(b.len() > 0 ==> !is_white_space(b[0]) && !is_white_space(b.last()));
    assert(trim_start(a) == a);
    assert(trim_end(a) == a);
    assert(trim_start(b) == b);
    assert(trim_end(b) == b);
    assert forall|m: int| single_comma_at(w@, m) implies m == k by {
        if m != k {
            assert(w@[m] == ',');
        }
    }
}

} // verus!
