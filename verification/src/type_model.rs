use vstd::prelude::*;
use crate::text::str_eq;

verus! {

/// The shape of a Rust type as the `AutoTable` derive reads it.
pub enum RustType {
    /// A path type such as `u64`, `Option<String>` or `std::vec::Vec<u8>`.
    Path(TypePath),
    /// A reference `&T`, with `T`.
    Reference(Box<RustType>),
    /// Any other type syntax (tuples, arrays, ...).
    Other,
}

/// What the derive reads of a path type.
pub struct TypePath {
    /// The identifier of the last segment; `None` for a path without segments.
    pub last_segment: Option<String>,
    /// Whether the last segment carries no generic arguments.
    pub last_segment_bare: bool,
    /// The whole path when it is one plain identifier (`u8`, not `a::u8`
    /// nor `Vec<u8>`).
    pub ident: Option<String>,
    /// The first generic argument of the last segment, when it is written
    /// in angle brackets and is a type.
    pub first_type_arg: Option<Box<RustType>>,
}

/// Why a type has no automatic mapping.
#[derive(Debug, Clone, PartialEq)]
pub enum TypeError {
    /// A path type without segments.
    EmptyPath,
    /// A `Vec<T>` other than `Vec<u8>`.
    VecNotBlob,
    /// An `Option<T>` whose `T` has no SQL type.
    OptionUnknown,
    /// A named type without SQL type (the name is kept).
    NoSqlMapping(String),
    /// A reference to something else than `str`.
    OnlyStrReference,
    /// Type syntax other than a path or a reference.
    UnsupportedSyntax,
    /// A named type without conversion from a stored value (the name is kept).
    NoValueConversion(String),
    /// Type syntax other than a path, where a stored value is converted.
    UnsupportedValueSyntax,
}

/// How a stored value is turned into a field of a built-in type.
#[derive(Debug, Clone, PartialEq)]
pub enum ValueArm {
    /// `Integer(i)` gives `i != 0`.
    Bool,
    /// `Integer(i)` gives `i`.
    I64,
    /// `Integer(i)` gives `i as T`, with `T` the named integer type.
    IntCast(String),
    /// `Real(r)` gives `r`.
    F64,
    /// `Real(r)` gives `r as f32`.
    F32,
    /// `Text(s)` gives a copy of `s`.
    Text,
    /// `Blob(b)` gives a copy of `b`.
    Blob,
}

pub open spec fn is_integer_name(n: Seq<char>) -> bool {
    ||| n == "u8"@
    ||| n == "u16"@
    ||| n == "u32"@
    ||| n == "u64"@
    ||| n == "u128"@
    ||| n == "i8"@
    ||| n == "i16"@
    ||| n == "i32"@
    ||| n == "i64"@
    ||| n == "i128"@
    ||| n == "usize"@
    ||| n == "isize"@
}

pub open spec fn is_float_name(n: Seq<char>) -> bool {
    n == "f32"@ || n == "f64"@
}

/// A path read from a real type: a path that is one identifier is a bare
/// last segment with that identifier, and a generic argument belongs to a
/// last segment that carries arguments.
pub open spec fn path_wf(tp: TypePath) -> bool {
    &&& tp.ident matches Some(i) ==> (tp.last_segment matches Some(l) && l@ == i@ && tp.last_segment_bare)
    &&& tp.first_type_arg is Some ==> (tp.last_segment is Some && !tp.last_segment_bare)
}

/// A well-formed type: every path in it is well-formed.
pub open spec fn type_wf(ty: RustType) -> bool
    decreases ty,
{
    match ty {
        RustType::Path(tp) => path_wf(tp) && match tp.first_type_arg {
            Some(b) => type_wf(*b),
            None => true,
        },
        RustType::Reference(b) => type_wf(*b),
        RustType::Other => true,
    }
}

/// Whether a type is well-formed in the sense of [`type_wf`].
pub fn is_well_formed(ty: &RustType) -> (r: bool)
    ensures
        r == type_wf(*ty),
    decreases ty,
{
    match ty {
        RustType::Path(tp) => {
            let ident_ok = match &tp.ident {
                Some(i) => match &tp.last_segment {
                    Some(l) => str_eq(l.as_str(), i.as_str()) && tp.last_segment_bare,
                    None => false,
                },
                None => true,
            };
            let arg_ok = match &tp.first_type_arg {
                Some(_) => tp.last_segment.is_some() && !tp.last_segment_bare,
                None => true,
            };
            if !(ident_ok && arg_ok) {
                return false;
            }
            match &tp.first_type_arg {
                Some(b) => is_well_formed(&**b),
                None => true,
            }
        },
        RustType::Reference(b) => is_well_formed(&**b),
        RustType::Other => true,
    }
}

/// A path type whose bare last segment is `name` (`bool` and
/// `std::primitive::bool` both name `bool`).
pub open spec fn simple_ident_spec(ty: RustType, name: Seq<char>) -> bool {
    ty matches RustType::Path(tp) && tp.last_segment_bare && (tp.last_segment matches Some(l) && l@ == name)
}

/// The path is the single identifier `name`.
pub open spec fn path_is_ident(tp: TypePath, name: Seq<char>) -> bool {
    tp.ident matches Some(i) && i@ == name
}

/// The first generic argument when it is itself a path type.
pub open spec fn first_arg_path(tp: TypePath) -> Option<TypePath> {
    match tp.first_type_arg {
        Some(b) => match *b {
            RustType::Path(p) => Some(p),
            _ => None,
        },
        None => None,
    }
}

/// `Vec<u8>`: the first argument is the plain identifier `u8`.
pub open spec fn vec_u8_spec(tp: TypePath) -> bool {
    &&& tp.last_segment is Some
    &&& first_arg_path(tp) matches Some(p) && path_is_ident(p, "u8"@)
}

/// The SQL type of an `Option<T>` from its `T`: `UNKNOWN` when there is none.
pub open spec fn option_sql_type(tp: TypePath) -> Seq<char> {
    if tp.last_segment is None {
        "UNKNOWN"@
    } else {
        match first_arg_path(tp) {
            Some(p) => match p.ident {
                Some(i) => if is_integer_name(i@) || i@ == "bool"@ {
                    "INTEGER"@
                } else if is_float_name(i@) {
                    "REAL"@
                } else if i@ == "String"@ {
                    "TEXT"@
                } else {
                    "UNKNOWN"@
                },
                None => "UNKNOWN"@,
            },
            None => "UNKNOWN"@,
        }
    }
}

/// `Option<T>` gives `T` and `true`; any other type gives itself and `false`.
pub open spec fn option_inner(ty: RustType) -> (RustType, bool) {
    match ty {
        RustType::Path(tp) => if (tp.last_segment matches Some(s) && s@ == "Option"@) {
            match tp.first_type_arg {
                Some(inner) => (*inner, true),
                None => (ty, false),
            }
        } else {
            (ty, false)
        },
        _ => (ty, false),
    }
}

/// Types with a built-in mapping: integers, floats, `bool`, `String`,
/// `Vec<u8>` and `&str`.
pub open spec fn built_in_spec(ty: RustType) -> bool {
    match ty {
        RustType::Path(tp) => match tp.last_segment {
            Some(n) => if n@ == "bool"@ || is_integer_name(n@) || is_float_name(n@) || n@ == "String"@ {
                true
            } else if n@ == "Vec"@ {
                vec_u8_spec(tp)
            } else {
                false
            },
            None => false,
        },
        RustType::Reference(elem) => match *elem {
            RustType::Path(tp) => path_is_ident(tp, "str"@),
            _ => false,
        },
        RustType::Other => false,
    }
}

/// The SQL type (affinity) of a Rust type.
pub open spec fn sql_type_spec(ty: RustType) -> Result<Seq<char>, TypeError> {
    match ty {
        RustType::Path(tp) => match tp.last_segment {
            None => Err(TypeError::EmptyPath),
            Some(n) => if is_integer_name(n@) || n@ == "bool"@ {
                Ok("INTEGER"@)
            } else if is_float_name(n@) {
                Ok("REAL"@)
            } else if n@ == "String"@ {
                Ok("TEXT"@)
            } else if n@ == "Vec"@ {
                if vec_u8_spec(tp) {
                    Ok("BLOB"@)
                } else {
                    Err(TypeError::VecNotBlob)
                }
            } else if n@ == "Option"@ {
                if option_sql_type(tp) == "UNKNOWN"@ {
                    Err(TypeError::OptionUnknown)
                } else {
                    Ok(option_sql_type(tp))
                }
            } else {
                Err(TypeError::NoSqlMapping(n))
            },
        },
        RustType::Reference(elem) => match *elem {
            RustType::Path(tp) => if path_is_ident(tp, "str"@) {
                Ok("TEXT"@)
            } else {
                Err(TypeError::OnlyStrReference)
            },
            _ => Err(TypeError::OnlyStrReference),
        },
        RustType::Other => Err(TypeError::UnsupportedSyntax),
    }
}

/// How a stored value becomes a field of a built-in type.
pub open spec fn value_arm_spec(ty: RustType) -> Result<ValueArm, TypeError> {
    match ty {
        RustType::Path(tp) => match tp.last_segment {
            None => Err(TypeError::EmptyPath),
            Some(n) => if n@ == "bool"@ {
                Ok(ValueArm::Bool)
            } else if n@ == "i64"@ {
                Ok(ValueArm::I64)
            } else if is_integer_name(n@) {
                Ok(ValueArm::IntCast(n))
            } else if n@ == "f64"@ {
                Ok(ValueArm::F64)
            } else if n@ == "f32"@ {
                Ok(ValueArm::F32)
            } else if n@ == "String"@ {
                Ok(ValueArm::Text)
            } else if n@ == "Vec"@ {
                if vec_u8_spec(tp) {
                    Ok(ValueArm::Blob)
                } else {
                    Err(TypeError::VecNotBlob)
                }
            } else {
                Err(TypeError::NoValueConversion(n))
            },
        },
        _ => Err(TypeError::UnsupportedValueSyntax),
    }
}

pub fn is_integer_type_name(n: &str) -> (r: bool)
    ensures
        r == is_integer_name(n@),
{
    str_eq(n, "u8") || str_eq(n, "u16") || str_eq(n, "u32") || str_eq(n, "u64") || str_eq(n, "u128")
        || str_eq(n, "i8") || str_eq(n, "i16") || str_eq(n, "i32") || str_eq(n, "i64")
        || str_eq(n, "i128") || str_eq(n, "usize") || str_eq(n, "isize")
}

pub fn is_float_type_name(n: &str) -> (r: bool)
    ensures
        r == is_float_name(n@),
{
    str_eq(n, "f32") || str_eq(n, "f64")
}

fn ident_is(tp: &TypePath, name: &str) -> (r: bool)
    ensures
        r == path_is_ident(*tp, name@),
{
    match &tp.ident {
        Some(i) => str_eq(i.as_str(), name),
        None => false,
    }
}

/// Whether the type is `Vec<u8>`.
pub fn is_vec_u8(tp: &TypePath) -> (r: bool)
    ensures
        r == vec_u8_spec(*tp),
{
    if tp.last_segment.is_none() {
        return false;
    }
    match &tp.first_type_arg {
        Some(b) => match &**b {
            RustType::Path(p) => ident_is(p, "u8"),
            _ => false,
        },
        None => false,
    }
}

/// The SQL type of `Option<T>` from its `T`, `UNKNOWN` when there is none.
pub fn get_option_type(tp: &TypePath) -> (r: &'static str)
    ensures
        r@ == option_sql_type(*tp),
{
    if tp.last_segment.is_none() {
        return "UNKNOWN";
    }
    match &tp.first_type_arg {
        Some(b) => match &**b {
            RustType::Path(p) => match &p.ident {
                Some(i) => {
                    let i = i.as_str();
                    if is_integer_type_name(i) || str_eq(i, "bool") {
                        "INTEGER"
                    } else if is_float_type_name(i) {
                        "REAL"
                    } else if str_eq(i, "String") {
                        "TEXT"
                    } else {
                        "UNKNOWN"
                    }
                },
                None => "UNKNOWN",
            },
            _ => "UNKNOWN",
        },
        None => "UNKNOWN",
    }
}

/// Peels one `Option<...>`: the inner type and `true`, or the type itself
/// and `false`.
pub fn extract_option_inner(ty: &RustType) -> (r: (&RustType, bool))
    ensures
        (*r.0, r.1) == option_inner(*ty),
{
    match ty {
        RustType::Path(tp) => {
            let is_option = match &tp.last_segment {
                Some(s) => str_eq(s.as_str(), "Option"),
                None => false,
            };
            if is_option {
                match &tp.first_type_arg {
                    Some(inner) => (&**inner, true),
                    None => (ty, false),
                }
            } else {
                (ty, false)
            }
        },
        _ => (ty, false),
    }
}

/// Whether the type has a built-in mapping to SQL values.
pub fn is_built_in_sql_type(ty: &RustType) -> (r: bool)
    ensures
        r == built_in_spec(*ty),
{
    match ty {
        RustType::Path(tp) => match &tp.last_segment {
            Some(n) => {
                let n = n.as_str();
                if str_eq(n, "bool") || is_integer_type_name(n) || is_float_type_name(n) || str_eq(n, "String") {
                    true
                } else if str_eq(n, "Vec") {
                    is_vec_u8(tp)
                } else {
                    false
                }
            },
            None => false,
        },
        RustType::Reference(elem) => match &**elem {
            RustType::Path(tp) => ident_is(tp, "str"),
            _ => false,
        },
        RustType::Other => false,
    }
}

/// Whether the type is a path whose last segment is `name`, without
/// generic arguments.
pub fn is_simple_ident(ty: &RustType, name: &str) -> (r: bool)
    ensures
        r == simple_ident_spec(*ty, name@),
{
    match ty {
        RustType::Path(tp) => tp.last_segment_bare && match &tp.last_segment {
            Some(l) => str_eq(l.as_str(), name),
            None => false,
        },
        _ => false,
    }
}

/// The SQL type of a Rust type, or why it has none.
pub fn map_type_to_sql(ty: &RustType) -> (r: Result<&'static str, TypeError>)
    ensures
        match r {
            Ok(s) => sql_type_spec(*ty) == Ok::<Seq<char>, TypeError>(s@),
            Err(e) => sql_type_spec(*ty) == Err::<Seq<char>, TypeError>(e),
        },
{
    match ty {
        RustType::Path(tp) => match &tp.last_segment {
            None => Err(TypeError::EmptyPath),
            Some(name) => {
                let n = name.as_str();
                if is_integer_type_name(n) || str_eq(n, "bool") {
                    Ok("INTEGER")
                } else if is_float_type_name(n) {
                    Ok("REAL")
                } else if str_eq(n, "String") {
                    Ok("TEXT")
                } else if str_eq(n, "Vec") {
                    if is_vec_u8(tp) {
                        Ok("BLOB")
                    } else {
                        Err(TypeError::VecNotBlob)
                    }
                } else if str_eq(n, "Option") {
                    let val = get_option_type(tp);
                    if str_eq(val, "UNKNOWN") {
                        Err(TypeError::OptionUnknown)
                    } else {
                        Ok(val)
                    }
                } else {
                    Err(TypeError::NoSqlMapping(name.clone()))
                }
            },
        },
        RustType::Reference(elem) => match &**elem {
            RustType::Path(tp) => if ident_is(tp, "str") {
                Ok("TEXT")
            } else {
                Err(TypeError::OnlyStrReference)
            },
            _ => Err(TypeError::OnlyStrReference),
        },
        RustType::Other => Err(TypeError::UnsupportedSyntax),
    }
}

/// How a stored value becomes a field of the given built-in type.
pub fn match_arm_for_type(ty: &RustType) -> (r: Result<ValueArm, TypeError>)
    ensures
        r == value_arm_spec(*ty),
{
    match ty {
        RustType::Path(tp) => match &tp.last_segment {
            None => Err(TypeError::EmptyPath),
            Some(name) => {
                let n = name.as_str();
                if str_eq(n, "bool") {
                    Ok(ValueArm::Bool)
                } else if str_eq(n, "i64") {
                    Ok(ValueArm::I64)
                } else if is_integer_type_name(n) {
                    Ok(ValueArm::IntCast(name.clone()))
                } else if str_eq(n, "f64") {
                    Ok(ValueArm::F64)
                } else if str_eq(n, "f32") {
                    Ok(ValueArm::F32)
                } else if str_eq(n, "String") {
                    Ok(ValueArm::Text)
                } else if str_eq(n, "Vec") {
                    if is_vec_u8(tp) {
                        Ok(ValueArm::Blob)
                    } else {
                        Err(TypeError::VecNotBlob)
                    }
                } else {
                    Err(TypeError::NoValueConversion(name.clone()))
                }
            },
        },
        _ => Err(TypeError::UnsupportedValueSyntax),
    }
}

} // verus!
