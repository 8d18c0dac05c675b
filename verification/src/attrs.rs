use vstd::prelude::*;
use crate::text::{push_char, str_eq};

verus! {

/// Settings read from `#[auto_table(...)]` on the struct.
#[derive(Debug, Clone, PartialEq)]
pub struct StructAttrs {
    /// `table = "..."`; without it the name comes from the struct's name.
    pub table_name: Option<String>,
    /// `index_by = "..."`, in the form `<column> <ASC/DESC>, [...]`.
    pub table_indexes: Option<String>,
}

/// The keys that `#[auto_table(...)]` on a struct knows.
#[derive(Debug, Clone, Copy, PartialEq, Eq)]
pub enum StructAttrKey {
    Table,
    IndexBy,
    /// Any other key, which is passed over.
    Ignored,
}

/// A setting on the struct, with its string value.
#[derive(Debug, Clone, PartialEq)]
pub enum StructAttr {
    Table(String),
    IndexBy(String),
}

/// Settings read from `#[auto_table(...)]` on a field.
#[derive(Debug, Clone, PartialEq)]
pub struct FieldAttrs {
    pub primary_key: bool,
    pub sort_asc: bool,
    pub sort_desc: bool,
    pub data_type: Option<String>,
    /// `(to_sql_fn, from_sql_fn)`.
    pub with: Option<(String, String)>,
    /// Default value, written as an SQL literal.
    pub default: Option<String>,
}

/// The keys that `#[auto_table(...)]` on a field knows.
#[derive(Debug, Clone, Copy, PartialEq, Eq)]
pub enum FieldAttrKey {
    PrimaryKey,
    SortAsc,
    SortDesc,
    DataType,
    With,
    Default,
    Unknown,
}

/// A literal given as an attribute's value.
#[derive(Debug, Clone, PartialEq)]
pub enum Literal {
    Str(String),
    /// An integer literal, by its base-10 digits.
    Int(String),
    /// A float literal, by its base-10 digits.
    Float(String),
    Bool(bool),
    /// Any other kind of literal (bytes, chars, ...).
    Other,
}

/// A setting on a field, with its value where it has one.
#[derive(Debug, Clone, PartialEq)]
pub enum FieldAttr {
    PrimaryKey,
    SortAsc,
    SortDesc,
    DataType(Literal),
    /// `with = "to_sql_fn, from_sql_fn"`, the string as written.
    With(String),
    Default(Literal),
    /// An unknown key, by its identifier (empty when it is not one).
    Unknown(String),
}

/// Why a field setting is refused.
#[derive(Debug, Clone, PartialEq)]
pub enum AttrError {
    /// `with` does not hold exactly two comma-separated parts.
    WithFormat,
    /// `default` holds a kind of literal that has no SQL form.
    UnsupportedDefault,
    /// The key is not known (its identifier is kept).
    UnknownAttribute(String),
}

pub open spec fn struct_attr_key_spec(key: Seq<char>) -> StructAttrKey {
    if key == "table"@ {
        StructAttrKey::Table
    } else if key == "index_by"@ {
        StructAttrKey::IndexBy
    } else {
        StructAttrKey::Ignored
    }
}

pub open spec fn field_attr_key_spec(key: Seq<char>) -> FieldAttrKey {
    if key == "primary_key"@ {
        FieldAttrKey::PrimaryKey
    } else if key == "sort_asc"@ {
        FieldAttrKey::SortAsc
    } else if key == "sort_desc"@ {
        FieldAttrKey::SortDesc
    } else if key == "data_type"@ {
        FieldAttrKey::DataType
    } else if key == "with"@ {
        FieldAttrKey::With
    } else if key == "default"@ {
        FieldAttrKey::Default
    } else {
        FieldAttrKey::Unknown
    }
}

/// Which struct setting a key names.
pub fn struct_attr_key(key: &str) -> (r: StructAttrKey)
    ensures
        r == struct_attr_key_spec(key@),
{
    if str_eq(key, "table") {
        StructAttrKey::Table
    } else if str_eq(key, "index_by") {
        StructAttrKey::IndexBy
    } else {
        StructAttrKey::Ignored
    }
}

/// Which field setting a key names.
pub fn field_attr_key(key: &str) -> (r: FieldAttrKey)
    ensures
        r == field_attr_key_spec(key@),
{
    if str_eq(key, "primary_key") {
        FieldAttrKey::PrimaryKey
    } else if str_eq(key, "sort_asc") {
        FieldAttrKey::SortAsc
    } else if str_eq(key, "sort_desc") {
        FieldAttrKey::SortDesc
    } else if str_eq(key, "data_type") {
        FieldAttrKey::DataType
    } else if str_eq(key, "with") {
        FieldAttrKey::With
    } else if str_eq(key, "default") {
        FieldAttrKey::Default
    } else {
        FieldAttrKey::Unknown
    }
}

impl StructAttrs {
    /// No setting given.
    pub fn new() -> (r: Self)
        ensures
            r.table_name is None,
            r.table_indexes is None,
    {
        StructAttrs { table_name: None, table_indexes: None }
    }

    /// Records one setting; a later one replaces an earlier one of the same key.
    pub fn apply(&mut self, attr: StructAttr)
        ensures
            match attr {
                StructAttr::Table(t) => final(self).table_name == Some(t)
                    && final(self).table_indexes == old(self).table_indexes,
                StructAttr::IndexBy(i) => final(self).table_indexes == Some(i)
                    && final(self).table_name == old(self).table_name,
            },
    {
        match attr {
            StructAttr::Table(t) => self.table_name = Some(t),
            StructAttr::IndexBy(i) => self.table_indexes = Some(i),
        }
    }
}

/// Unicode `White_Space`, the whitespace that `str::trim` removes: tab to
/// carriage return, space, U+0085, U+00A0, U+1680, U+2000 to U+200A,
/// U+2028, U+2029, U+202F, U+205F and U+3000.
pub open spec fn is_white_space(c: char) -> bool {
    let u = c as u32;
    ||| 0x9 <= u <= 0xD
    ||| u == 0x20
    ||| u == 0x85
    ||| u == 0xA0
    ||| u == 0x1680
    ||| 0x2000 <= u <= 0x200A
    ||| u == 0x2028
    ||| u == 0x2029
    ||| u == 0x202F
    ||| u == 0x205F
    ||| u == 0x3000
}

/// Whether a character is whitespace in the sense of [`is_white_space`].
pub fn white_space_char(c: char) -> (r: bool)
    ensures
        r == is_white_space(c),
{
    let u = c as u32;
    (0x9 <= u && u <= 0xD) || u == 0x20 || u == 0x85 || u == 0xA0 || u == 0x1680 || (0x2000 <= u
        && u <= 0x200A) || u == 0x2028 || u == 0x2029 || u == 0x202F || u == 0x205F || u == 0x3000
}

/// The text without its leading whitespace.
pub open spec fn trim_start(s: Seq<char>) -> Seq<char>
    decreases s.len(),
{
    if s.len() > 0 && is_white_space(s[0]) {
        trim_start(s.drop_first())
    } else {
        s
    }
}

/// The text without its trailing whitespace.
pub open spec fn trim_end(s: Seq<char>) -> Seq<char>
    decreases s.len(),
{
    if s.len() > 0 && is_white_space(s.last()) {
        trim_end(s.drop_last())
    } else {
        s
    }
}

/// The text without leading and trailing whitespace (`str::trim`).
pub open spec fn trimmed(s: Seq<char>) -> Seq<char> {
    trim_end(trim_start(s))
}

/// `s` without leading and trailing whitespace, as `str::trim` gives it.
pub fn trim_str(s: &str) -> (r: &str)
    ensures
        r@ == trimmed(s@),
{
    let n = s.unicode_len();
    let mut lo: usize = 0;
    assert(s@.subrange(0, n as int) =~= s@);
    while lo < n && white_space_char(s.get_char(lo))
        invariant
            n == s@.len(),
            lo <= n,
            trim_start(s@) == trim_start(s@.subrange(lo as int, n as int)),
        decreases n - lo,
    {
        assert(s@.subrange(lo as int, n as int).drop_first() =~= s@.subrange(lo + 1, n as int));
        lo = lo + 1;
    }
    let ghost t = s@.subrange(lo as int, n as int);
    assert(trim_start(s@) == t);
    let mut hi: usize = n;
    while hi > lo && white_space_char(s.get_char(hi - 1))
        invariant
            n == s@.len(),
            lo <= hi <= n,
            t == s@.subrange(lo as int, n as int),
            trim_end(t) == trim_end(s@.subrange(lo as int, hi as int)),
        decreases hi - lo,
    {
        assert(s@.subrange(lo as int, hi as int).drop_last() =~= s@.subrange(lo as int, hi - 1));
        hi = hi - 1;
    }
    assert(trim_end(s@.subrange(lo as int, hi as int)) == s@.subrange(lo as int, hi as int));
    s.substring_char(lo, hi)
}

/// `k` is the position of the only `,` in `s`.
pub open spec fn single_comma_at(s: Seq<char>, k: int) -> bool {
    &&& 0 <= k < s.len()
    &&& s[k] == ','
    &&& forall|i: int| 0 <= i < s.len() && i != k ==> s[i] != ','
}

/// `with = "a, b"` splits at its comma into the two trimmed names; any
/// other number of commas gives no pair.
pub open spec fn with_pair_spec(s: Seq<char>) -> Option<(Seq<char>, Seq<char>)> {
    if exists|k: int| single_comma_at(s, k) {
        let k = choose|k: int| single_comma_at(s, k);
        Some((trimmed(s.take(k)), trimmed(s.skip(k + 1))))
    } else {
        None
    }
}

/// The two trimmed names of `"to_sql_fn, from_sql_fn"`, or `None` when the
/// text does not split into exactly two parts at commas.
pub fn parse_with_pair(s: &str) -> (r: Option<(String, String)>)
    ensures
        match with_pair_spec(s@) {
            Some((a, b)) => r matches Some((x, y)) && x@ == a && y@ == b,
            None => r is None,
        },
{
    let n = s.unicode_len();
    let mut first: Option<usize> = None;
    let mut i: usize = 0;
    while i < n
        invariant
            n == s@.len(),
            i <= n,
            match first {
                None => forall|j: int| 0 <= j < i ==> s@[j] != ',',
                Some(k) => k < i && s@[k as int] == ',' && forall|j: int|
                    0 <= j < i && j != k ==> s@[j] != ',',
            },
        decreases n - i,
    {
        if s.get_char(i) == ',' {
            match first {
                Some(k) => {
                    proof {
                        assert forall|m: int| !single_comma_at(s@, m) by {
                            if single_comma_at(s@, m) {
                                if m == k {
                                    assert(s@[i as int] == ',');
                                } else {
                                    assert(s@[k as int] == ',');
                                }
                            }
                        }
                    }
                    return None;
                },
                None => {
                    first = Some(i);
                },
            }
        }
        i = i + 1;
    }
    match first {
        None => {
            assert forall|m: int| !single_comma_at(s@, m) by {}
            None
        },
        Some(k) => {
            assert(single_comma_at(s@, k as int));
            proof {
                assert forall|m: int| single_comma_at(s@, m) implies m == k by {}
            }
            let a = trim_str(s.substring_char(0, k));
            let b = trim_str(s.substring_char(k + 1, n));
            assert(s@.subrange(0, k as int) =~= s@.take(k as int));
            assert(s@.subrange(k + 1, n as int) =~= s@.skip(k + 1));
            Some((String::from_str(a), String::from_str(b)))
        },
    }
}

/// The SQL form of a default value: a string in single quotes, a number by
/// its digits, a boolean as `1` or `0`; other literals have none.
pub open spec fn default_sql_spec(lit: Literal) -> Option<Seq<char>> {
    match lit {
        Literal::Str(s) => Some(seq!['\''] + s@ + seq!['\'']),
        Literal::Int(d) => Some(d@),
        Literal::Float(d) => Some(d@),
        Literal::Bool(b) => Some(if b { "1"@ } else { "0"@ }),
        Literal::Other => None,
    }
}

/// The SQL form of a default value, as [`default_sql_spec`] gives it.
pub fn default_sql(lit: &Literal) -> (r: Option<String>)
    ensures
        match default_sql_spec(*lit) {
            Some(d) => r matches Some(x) && x@ == d,
            None => r is None,
        },
{
    match lit {
        Literal::Str(s) => {
            let mut out = String::new();
            push_char(&mut out, '\'');
            out.append(s.as_str());
            push_char(&mut out, '\'');
            Some(out)
        },
        Literal::Int(d) => Some(d.clone()),
        Literal::Float(d) => Some(d.clone()),
        Literal::Bool(b) => Some(String::from_str(if *b { "1" } else { "0" })),
        Literal::Other => None,
    }
}

/// What one setting does to the field's settings: the flags are raised, a
/// string `data_type` is taken (another literal is passed over), `with` and
/// `default` are taken in their parsed form, and an unknown key is refused.
pub open spec fn field_attr_ok(old_attrs: FieldAttrs, attr: FieldAttr, new_attrs: FieldAttrs) -> bool {
    match attr {
        FieldAttr::PrimaryKey => new_attrs == FieldAttrs { primary_key: true, ..old_attrs },
        FieldAttr::SortAsc => new_attrs == FieldAttrs { sort_asc: true, ..old_attrs },
        FieldAttr::SortDesc => new_attrs == FieldAttrs { sort_desc: true, ..old_attrs },
        FieldAttr::DataType(lit) => match lit {
            Literal::Str(s) => new_attrs == FieldAttrs { data_type: Some(s), ..old_attrs },
            _ => new_attrs == old_attrs,
        },
        FieldAttr::With(w) => match with_pair_spec(w@) {
            Some((a, b)) => new_attrs.with matches Some((x, y)) && x@ == a && y@ == b
                && new_attrs == FieldAttrs { with: new_attrs.with, ..old_attrs },
            None => false,
        },
        FieldAttr::Default(lit) => match default_sql_spec(lit) {
            Some(d) => new_attrs.default matches Some(x) && x@ == d
                && new_attrs == FieldAttrs { default: new_attrs.default, ..old_attrs },
            None => false,
        },
        FieldAttr::Unknown(_) => false,
    }
}

/// The error a setting gives, if any.
pub open spec fn field_attr_error(attr: FieldAttr) -> Option<AttrError> {
    match attr {
        FieldAttr::With(w) => if with_pair_spec(w@) is None {
            Some(AttrError::WithFormat)
        } else {
            None
        },
        FieldAttr::Default(lit) => if default_sql_spec(lit) is None {
            Some(AttrError::UnsupportedDefault)
        } else {
            None
        },
        FieldAttr::Unknown(name) => Some(AttrError::UnknownAttribute(name)),
        _ => None,
    }
}

impl FieldAttrs {
    /// No setting given.
    pub fn new() -> (r: Self)
        ensures
            !r.primary_key && !r.sort_asc && !r.sort_desc,
            r.data_type is None && r.with is None && r.default is None,
    {
        FieldAttrs {
            primary_key: false,
            sort_asc: false,
            sort_desc: false,
            data_type: None,
            with: None,
            default: None,
        }
    }

    /// Records one setting, or refuses it and leaves the settings as they were.
    pub fn apply(&mut self, attr: FieldAttr) -> (r: Result<(), AttrError>)
        ensures
            match field_attr_error(attr) {
                Some(e) => r == Err::<(), AttrError>(e) && *final(self) == *old(self),
                None => r is Ok && field_attr_ok(*old(self), attr, *final(self)),
            },
    {
        match attr {
            FieldAttr::PrimaryKey => {
                self.primary_key = true;
                Ok(())
            },
            FieldAttr::SortAsc => {
                self.sort_asc = true;
                Ok(())
            },
            FieldAttr::SortDesc => {
                self.sort_desc = true;
                Ok(())
            },
            FieldAttr::DataType(lit) => {
                match lit {
                    Literal::Str(s) => self.data_type = Some(s),
                    _ => {},
                }
                Ok(())
            },
            FieldAttr::With(w) => match parse_with_pair(w.as_str()) {
                Some(pair) => {
                    self.with = Some(pair);
                    Ok(())
                },
                None => Err(AttrError::WithFormat),
            },
            FieldAttr::Default(lit) => match default_sql(&lit) {
                Some(d) => {
                    self.default = Some(d);
                    Ok(())
                },
                None => Err(AttrError::UnsupportedDefault),
            },
            FieldAttr::Unknown(name) => Err(AttrError::UnknownAttribute(name)),
        }
    }
}

impl AttrError {
    /// The text of the error, as the derive reports it.
    pub fn message(&self) -> (r: String)
        ensures
            r@ == match *self {
                AttrError::WithFormat => "expected `with = \"to_sql_fn, from_sql_fn\"`"@,
                AttrError::UnsupportedDefault => "unsupported default literal"@,
                AttrError::UnknownAttribute(n) => "unknown auto_table attribute: `"@ + n@ + "`"@,
            },
    {
        match self {
            AttrError::WithFormat => String::from_str("expected `with = \"to_sql_fn, from_sql_fn\"`"),
            AttrError::UnsupportedDefault => String::from_str("unsupported default literal"),
            AttrError::UnknownAttribute(n) => {
                let mut m = String::from_str("unknown auto_table attribute: `");
                m.append(n.as_str());
                m.append("`");
                m
            },
        }
    }
}

} // verus!
