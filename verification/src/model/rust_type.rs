//! The shape of a field's Rust type, as far as the model derive reads it.
use vstd::prelude::*;
use crate::schema::{SqlType, SqlTypeView};
use crate::text::text_is;

verus! {

/// A Rust type as the derive sees it.
#[derive(Debug)]
pub enum RustType {
    /// A path such as `std::option::Option<String>`, without a qualified
    /// self: the identifiers of its segments, and the first generic argument
    /// of its last segment when that argument is a type.
    Path { segments: Vec<String>, first_arg: Option<Box<RustType>> },
    /// A reference `&T`, a parenthesized `(T)` or an invisible group around `T`.
    Wrapped(Box<RustType>),
    /// Any other type (a tuple, an array, a slice, ...).
    Other,
}

/// The view of a [`RustType`].
pub enum RustTypeView {
    Path { segments: Seq<Seq<char>>, first_arg: Option<Box<RustTypeView>> },
    Wrapped(Box<RustTypeView>),
    Other,
}

/// The view of a type, its identifiers as character sequences.
pub open spec fn type_view(t: RustType) -> RustTypeView
    decreases t,
{
    match t {
        RustType::Path { segments, first_arg } => RustTypeView::Path {
            segments: segments.deep_view(),
            first_arg: match first_arg {
                Some(a) => Some(Box::new(type_view(*a))),
                None => None,
            },
        },
        RustType::Wrapped(inner) => RustTypeView::Wrapped(Box::new(type_view(*inner))),
        RustType::Other => RustTypeView::Other,
    }
}

impl View for RustType {
    type V = RustTypeView;

    open spec fn view(&self) -> RustTypeView {
        type_view(*self)
    }
}

impl DeepView for RustType {
    type V = RustTypeView;

    open spec fn deep_view(&self) -> RustTypeView {
        self@
    }
}

fn duplicate_names(v: &Vec<String>) -> (r: Vec<String>)
    ensures
        r.deep_view() == v.deep_view(),
{
    let mut r: Vec<String> = Vec::new();
    let mut i: usize = 0;
    while i < v.len()
        invariant
            i <= v.len(),
            r.len() == i,
            forall|k: int| 0 <= k < i ==> r@[k]@ == v@[k]@,
        decreases v.len() - i,
    {
        r.push(v[i].clone());
        i = i + 1;
    }
    assert(r.deep_view() =~= v.deep_view());
    r
}

impl RustType {
    /// A copy with the same view.
    pub fn duplicate(&self) -> (r: RustType)
        ensures
            r@ == self@,
        decreases self,
    {
        match self {
            RustType::Path { segments, first_arg } => {
                let a = match first_arg {
                    Some(b) => Some(Box::new((&**b).duplicate())),
                    None => None,
                };
                RustType::Path { segments: duplicate_names(segments), first_arg: a }
            },
            RustType::Wrapped(inner) => RustType::Wrapped(Box::new((&**inner).duplicate())),
            RustType::Other => RustType::Other,
        }
    }
}

impl Clone for RustType {
    /// A copy with the same view.
    fn clone(&self) -> (r: RustType)
        ensures
            r@ == self@,
    {
        self.duplicate()
    }
}

/// Whether the type is written `Option<..>`: a path whose first segment is
/// `Option`.
pub open spec fn is_option_spec(t: RustTypeView) -> bool {
    match t {
        RustTypeView::Path { segments, .. } => segments.len() > 0 && segments[0] == "Option"@,
        _ => false,
    }
}

/// Whether the type is written `Option<..>`.
pub fn is_option_type(t: &RustType) -> (r: bool)
    ensures
        r == is_option_spec(t@),
{
    match t {
        RustType::Path { segments, .. } => {
            if segments.len() > 0 {
                text_is(segments[0].as_str(), "Option")
            } else {
                false
            }
        },
        _ => false,
    }
}

/// The type under references, parentheses and groups.
pub open spec fn strip_wrappers_spec(t: RustTypeView) -> RustTypeView
    decreases t,
{
    match t {
        RustTypeView::Wrapped(inner) => strip_wrappers_spec(*inner),
        _ => t,
    }
}

/// The identifier of the last segment of a path type.
pub open spec fn last_ident_spec(t: RustTypeView) -> Option<Seq<char>> {
    match t {
        RustTypeView::Path { segments, .. } => if segments.len() > 0 {
            Some(segments.last())
        } else {
            None
        },
        _ => None,
    }
}

/// Whether the type, under references, parentheses and groups, is a path
/// whose last segment is `name`.
pub open spec fn type_is_ident_spec(t: RustTypeView, name: Seq<char>) -> bool {
    last_ident_spec(strip_wrappers_spec(t)) == Some(name)
}

fn last_ident(t: &RustType) -> (r: Option<&String>)
    ensures
        match r {
            Some(s) => last_ident_spec(t@) == Some(s@),
            None => last_ident_spec(t@) is None,
        },
{
    match t {
        RustType::Path { segments, .. } => {
            if segments.len() > 0 {
                let n = segments.len() - 1;
                Some(&segments[n])
            } else {
                None
            }
        },
        _ => None,
    }
}

fn strip_wrappers(t: &RustType) -> (r: &RustType)
    ensures
        r@ == strip_wrappers_spec(t@),
    decreases t,
{
    match t {
        RustType::Wrapped(inner) => strip_wrappers(&**inner),
        _ => t,
    }
}

/// Whether the type, under references, parentheses and groups, is a path
/// whose last segment is `name`.
pub fn type_is_ident(t: &RustType, name: &str) -> (r: bool)
    ensures
        r == type_is_ident_spec(t@, name@),
{
    let s = strip_wrappers(t);
    match last_ident(s) {
        Some(id) => text_is(id.as_str(), name),
        None => false,
    }
}

/// The first type argument of the last segment of a path type, or else the
/// type itself.
pub open spec fn inner_type_spec(t: RustTypeView) -> RustTypeView {
    match t {
        RustTypeView::Path { first_arg: Some(a), .. } => *a,
        _ => t,
    }
}

/// The first type argument of the last segment (`T` of `Vec<T>`), or else
/// the type itself.
pub fn extract_inner_type(t: &RustType) -> (r: RustType)
    ensures
        r@ == inner_type_spec(t@),
{
    match t {
        RustType::Path { first_arg: Some(a), .. } => (&**a).duplicate(),
        _ => t.duplicate(),
    }
}

/// The identifier of the last segment of a path type.
pub fn extract_type_ident(t: &RustType) -> (r: Option<String>)
    ensures
        r.deep_view() == last_ident_spec(t@),
{
    match last_ident(t) {
        Some(s) => Some(s.clone()),
        None => None,
    }
}

/// The column type of a Rust type named by the identifier `id` (the last
/// segment of its path).
pub open spec fn sql_type_of_ident(id: Seq<char>) -> SqlTypeView {
    if id == "String"@ {
        SqlTypeView::Text
    } else if id == "NaiveDate"@ {
        SqlTypeView::Date
    } else if id == "NaiveDateTime"@ {
        SqlTypeView::Timestamp
    } else if id == "bool"@ {
        SqlTypeView::Boolean
    } else if id == "i32"@ || id == "i64"@ || id == "u32"@ || id == "u64"@ || id == "i16"@ || id
        == "u16"@ || id == "i8"@ || id == "u8"@ {
        SqlTypeView::Integer
    } else if id == "f32"@ {
        SqlTypeView::Float
    } else if id == "f64"@ {
        SqlTypeView::Double
    } else {
        SqlTypeView::Custom(id)
    }
}

/// The column type of a Rust type: that of `T` for `Option<T>`, the mapped
/// type for a known identifier, `Custom` with the identifier otherwise, and
/// `Custom("Unknown")` for a type that is not a path.
pub open spec fn sql_type_of_spec(t: RustTypeView) -> SqlTypeView
    decreases t,
{
    match t {
        RustTypeView::Path { segments, first_arg } => if segments.len() == 0 {
            SqlTypeView::Custom("Unknown"@)
        } else if segments.last() == "Option"@ && first_arg is Some {
            sql_type_of_spec(*first_arg.unwrap())
        } else {
            sql_type_of_ident(segments.last())
        },
        _ => SqlTypeView::Custom("Unknown"@),
    }
}

/// The column type of a type identifier.
pub fn sql_type_of_ident_str(id: &String) -> (r: SqlType)
    ensures
        r@ == sql_type_of_ident(id@),
{
    let s = id.as_str();
    if text_is(s, "String") {
        SqlType::Text
    } else if text_is(s, "NaiveDate") {
        SqlType::Date
    } else if text_is(s, "NaiveDateTime") {
        SqlType::Timestamp
    } else if text_is(s, "bool") {
        SqlType::Boolean
    } else if text_is(s, "i32") || text_is(s, "i64") || text_is(s, "u32") || text_is(s, "u64")
        || text_is(s, "i16") || text_is(s, "u16") || text_is(s, "i8") || text_is(s, "u8") {
        SqlType::Integer
    } else if text_is(s, "f32") {
        SqlType::Float
    } else if text_is(s, "f64") {
        SqlType::Double
    } else {
        SqlType::Custom(id.clone())
    }
}

/// The column type of a Rust type (see [`sql_type_of_spec`]).
pub fn get_sql_type_from_rust_type(t: &RustType) -> (r: SqlType)
    ensures
        r@ == sql_type_of_spec(t@),
    decreases t,
{
    match t {
        RustType::Path { segments, first_arg } => {
            if segments.len() == 0 {
                return SqlType::Custom(String::from_str("Unknown"));
            }
            let last = &segments[segments.len() - 1];
            match first_arg {
                Some(a) => {
                    if text_is(last.as_str(), "Option") {
                        return get_sql_type_from_rust_type(&**a);
                    }
                },
                None => {},
            }
            sql_type_of_ident_str(last)
        },
        _ => SqlType::Custom(String::from_str("Unknown")),
    }
}

/// The path type whose last segment is `name`, after the segments `path`.
pub open spec fn path_type(path: Seq<Seq<char>>, name: Seq<char>, arg: Option<Box<RustTypeView>>) -> RustTypeView {
    RustTypeView::Path { segments: path.push(name), first_arg: arg }
}

/// The type names that have a column type of their own.
pub open spec fn known_type_names() -> Seq<Seq<char>> {
    seq![
        "String"@, "NaiveDate"@, "NaiveDateTime"@, "bool"@, "i8"@, "i16"@, "i32"@, "i64"@,
        "u8"@, "u16"@, "u32"@, "u64"@, "f32"@, "f64"@,
    ]
}

proof fn lemma_name_literals()
    ensures
        "String"@.len() == 6 && "String"@[0] == 'S',
        "Option"@.len() == 6 && "Option"@[0] == 'O',
        "NaiveDate"@.len() == 9,
        "NaiveDateTime"@.len() == 13,
        "bool"@.len() == 4,
        "i8"@.len() == 2 && "i8"@[0] == 'i',
        "u8"@.len() == 2 && "u8"@[0] == 'u',
        "i16"@.len() == 3 && "i16"@[0] == 'i',
        "u16"@.len() == 3 && "u16"@[0] == 'u',
        "i32"@.len() == 3 && "i32"@[0] == 'i',
        "u32"@.len() == 3 && "u32"@[0] == 'u',
        "i64"@.len() == 3 && "i64"@[0] == 'i',
        "u64"@.len() == 3 && "u64"@[0] == 'u',
        "f32"@.len() == 3 && "f32"@[0] == 'f' && "f32"@[1] == '3',
        "f64"@.len() == 3 && "f64"@[0] == 'f' && "f64"@[1] == '6',
{
    reveal_strlit("Option");
    reveal_strlit("String");
    reveal_strlit("NaiveDate");
    reveal_strlit("NaiveDateTime");
    reveal_strlit("bool");
    reveal_strlit("i8");
    reveal_strlit("i16");
    reveal_strlit("i32");
    reveal_strlit("i64");
    reveal_strlit("u8");
    reveal_strlit("u16");
    reveal_strlit("u32");
    reveal_strlit("u64");
    reveal_strlit("f32");
    reveal_strlit("f64");
}

proof fn lemma_path_ident(path: Seq<Seq<char>>, name: Seq<char>, arg: Option<Box<RustTypeView>>)
    requires
        name != "Option"@ || arg is None,
    ensures
        sql_type_of_spec(path_type(path, name, arg)) == sql_type_of_ident(name),
{
    assert(path.push(name).last() == name);
}

proof fn lemma_text_names()
    ensures
        sql_type_of_ident("String"@) == SqlTypeView::Text,
        sql_type_of_ident("NaiveDate"@) == SqlTypeView::Date,
        sql_type_of_ident("NaiveDateTime"@) == SqlTypeView::Timestamp,
        sql_type_of_ident("bool"@) == SqlTypeView::Boolean,
{
    lemma_name_literals();
}

proof fn lemma_integer_name(id: Seq<char>)
    requires
        id == "i8"@ || id == "i16"@ || id == "i32"@ || id == "i64"@ || id == "u8"@ || id == "u16"@
            || id == "u32"@ || id == "u64"@,
    ensures
        sql_type_of_ident(id) == SqlTypeView::Integer,
{
    lemma_name_literals();
}

proof fn lemma_float_names()
    ensures
        sql_type_of_ident("f32"@) == SqlTypeView::Float,
        sql_type_of_ident("f64"@) == SqlTypeView::Double,
{
    lemma_name_literals();
}

proof fn lemma_other_name(name: Seq<char>)
    requires
        !known_type_names().contains(name),
    ensures
        sql_type_of_ident(name) == SqlTypeView::Custom(name),
{
    let k = known_type_names();
    assert(k[0] == "String"@);
    assert(k[1] == "NaiveDate"@);
    assert(k[2] == "NaiveDateTime"@);
    assert(k[3] == "bool"@);
    assert(k[4] == "i8"@);
    assert(k[5] == "i16"@);
    assert(k[6] == "i32"@);
    assert(k[7] == "i64"@);
    assert(k[8] == "u8"@);
    assert(k[9] == "u16"@);
    assert(k[10] == "u32"@);
    assert(k[11] == "u64"@);
    assert(k[12] == "f32"@);
    assert(k[13] == "f64"@);
}

proof fn lemma_not_option(name: Seq<char>)
    requires
        name == "String"@ || name == "NaiveDate"@ || name == "NaiveDateTime"@ || name == "bool"@
            || name == "i8"@ || name == "i16"@ || name == "i32"@ || name == "i64"@ || name == "u8"@
            || name == "u16"@ || name == "u32"@ || name == "u64"@ || name == "f32"@ || name
            == "f64"@,
    ensures
        name != "Option"@,
{
    lemma_name_literals();
}

/// A field's column type follows the name its Rust type ends with, whatever
/// path leads to it: every integer type (`i8` to `i64`, `u8` to `u64`) is
/// `INTEGER`, `String` is `TEXT`, `bool` is `BOOLEAN`, `NaiveDate` is
/// `DATE`, `NaiveDateTime` is `TIMESTAMP`, `f32` is `FLOAT` and `f64` is
/// `DOUBLE`; `Option<T>` has the column type of `T`; any other name is a
/// custom type of that name.
pub proof fn law_sql_type_of_rust_type(
    path: Seq<Seq<char>>,
    arg: Option<Box<RustTypeView>>,
    inner: RustTypeView,
)
    ensures
        sql_type_of_spec(path_type(path, "i8"@, arg)) == SqlTypeView::Integer,
        sql_type_of_spec(path_type(path, "i16"@, arg)) == SqlTypeView::Integer,
        sql_type_of_spec(path_type(path, "i32"@, arg)) == SqlTypeView::Integer,
        sql_type_of_spec(path_type(path, "i64"@, arg)) == SqlTypeView::Integer,
        sql_type_of_spec(path_type(path, "u8"@, arg)) == SqlTypeView::Integer,
        sql_type_of_spec(path_type(path, "u16"@, arg)) == SqlTypeView::Integer,
        sql_type_of_spec(path_type(path, "u32"@, arg)) == SqlTypeView::Integer,
        sql_type_of_spec(path_type(path, "u64"@, arg)) == SqlTypeView::Integer,
        sql_type_of_spec(path_type(path, "String"@, arg)) == SqlTypeView::Text,
        sql_type_of_spec(path_type(path, "bool"@, arg)) == SqlTypeView::Boolean,
        sql_type_of_spec(path_type(path, "NaiveDate"@, arg)) == SqlTypeView::Date,
        sql_type_of_spec(path_type(path, "NaiveDateTime"@, arg)) == SqlTypeView::Timestamp,
        sql_type_of_spec(path_type(path, "f32"@, arg)) == SqlTypeView::Float,
        sql_type_of_spec(path_type(path, "f64"@, arg)) == SqlTypeView::Double,
        sql_type_of_spec(path_type(path, "Option"@, Some(Box::new(inner)))) == sql_type_of_spec(
            inner,
        ),
        forall|name: Seq<char>|
            !known_type_names().contains(name) && (name != "Option"@ || arg is None)
                ==> #[trigger] sql_type_of_spec(path_type(path, name, arg)) == SqlTypeView::Custom(
                name,
            ),
{
    lemma_not_option("i8"@);
    lemma_not_option("i16"@);
    lemma_not_option("i32"@);
    lemma_not_option("i64"@);
    lemma_not_option("u8"@);
    lemma_not_option("u16"@);
    lemma_not_option("u32"@);
    lemma_not_option("u64"@);
    lemma_not_option("String"@);
    lemma_not_option("bool"@);
    lemma_not_option("NaiveDate"@);
    lemma_not_option("NaiveDateTime"@);
    lemma_not_option("f32"@);
    lemma_not_option("f64"@);
    lemma_path_ident(path, "i8"@, arg);
    lemma_path_ident(path, "i16"@, arg);
    lemma_path_ident(path, "i32"@, arg);
    lemma_path_ident(path, "i64"@, arg);
    lemma_path_ident(path, "u8"@, arg);
    lemma_path_ident(path, "u16"@, arg);
    lemma_path_ident(path, "u32"@, arg);
    lemma_path_ident(path, "u64"@, arg);
    lemma_path_ident(path, "String"@, arg);
    lemma_path_ident(path, "bool"@, arg);
    lemma_path_ident(path, "NaiveDate"@, arg);
    lemma_path_ident(path, "NaiveDateTime"@, arg);
    lemma_path_ident(path, "f32"@, arg);
    lemma_path_ident(path, "f64"@, arg);
    lemma_integer_name("i8"@);
    lemma_integer_name("i16"@);
    lemma_integer_name("i32"@);
    lemma_integer_name("i64"@);
    lemma_integer_name("u8"@);
    lemma_integer_name("u16"@);
    lemma_integer_name("u32"@);
    lemma_integer_name("u64"@);
    lemma_text_names();
    lemma_float_names();
    assert(path.push("Option"@).last() == "Option"@);
    assert forall|name: Seq<char>|
        !known_type_names().contains(name) && (name != "Option"@ || arg is None) implies #[trigger] sql_type_of_spec(
        path_type(path, name, arg),
    ) == SqlTypeView::Custom(name) by {
        lemma_path_ident(path, name, arg);
        lemma_other_name(name);
    }
}

} // verus!
