//! The structured model behind the Go parser: the Go types a field can
//! carry, their translation to Rust types, and the extraction of struct
//! definitions from parsed tokens.

use vstd::prelude::*;
use vstd::slice::{slice_subrange, slice_to_vec};
use vstd::string::StrSliceExecFns;
use vstd::string::StringExecFns;
use vstd::string::StringSliceAdditionalSpecFns;
use vstd::utf8::{decode_utf8, encode_utf8, valid_utf8};

use crate::codec::{str_eq, string_from_utf8};
use crate::goparse::{Rule, Token};

verus! {

/// A fault while turning parsed Go source into the Rust model: a token shape
/// this translation does not handle, or a qualified type it has no mapping
/// for.
#[derive(Clone, Copy, Debug, PartialEq, Eq, Structural)]
pub struct TranslateError {}

/// The Go types that can appear in an event definition.
#[derive(Debug)]
pub enum GoType {
    StringType,
    IntType,
    UnsignedIntType,
    FloatType,
    BoolType,
    ByteType,
    UserDefined(String),
    ArrayType(Box<GoType>),
    MapOf(Box<GoType>, Box<GoType>),
    InterfaceType,
    TimeType,
    TimestampMillisecondsType,
    TimestampSecondsType,
    JsonRawType,
}

/// The Rust rendering of one Go type: the type text, the serde annotations
/// it needs, and the imports it relies on.
#[derive(Debug, Clone, PartialEq)]
pub struct RustType {
    pub annotations: Vec<String>,
    pub libraries: Vec<String>,
    pub value: String,
}

/// A Rust type with the given text and no imports or annotations.
pub fn make_rust_type_with_no_libraries(value: &str) -> (r: RustType)
    ensures
        r.value@ == value@,
        r.annotations.deep_view() =~= Seq::<Seq<char>>::empty(),
        r.libraries.deep_view() =~= Seq::<Seq<char>>::empty(),
{
    RustType { annotations: Vec::new(), libraries: Vec::new(), value: value.to_owned() }
}

/// What the upper-camel-case conversion yields; the conversion depends on
/// the characters alone.
pub uninterp spec fn camel_of(s: Seq<char>) -> Seq<char>;

/// Relies on heck::ToUpperCamelCase::to_upper_camel_case: a pure case
/// conversion of the text; `camel_of` names its result.
#[verifier::external_body]
pub fn to_upper_camel(s: &str) -> (r: String)
    ensures
        r@ == camel_of(s@),
{
    heck::ToUpperCamelCase::to_upper_camel_case(s)
}

/// What the snake-case conversion yields; the conversion depends on the
/// characters alone.
pub uninterp spec fn snake_of(s: Seq<char>) -> Seq<char>;

/// Relies on heck::ToSnakeCase::to_snake_case: a pure case conversion of the
/// text; `snake_of` names its result.
#[verifier::external_body]
pub fn to_snake(s: &str) -> (r: String)
    ensures
        r@ == snake_of(s@),
{
    heck::ToSnakeCase::to_snake_case(s)
}

/// The field name to use in Rust: names that would collide with Rust
/// keywords get a trailing underscore.
pub open spec fn spec_mangle(s: Seq<char>) -> Seq<char> {
    if s == "ref"@ {
        "ref_"@
    } else if s == "type"@ {
        "type_"@
    } else {
        s
    }
}

/// Renames field names that would collide with Rust keywords.
pub fn mangle(s: &str) -> (r: String)
    ensures
        r@ == spec_mangle(s@),
{
    if str_eq(s, "ref") {
        String::from_str("ref_")
    } else if str_eq(s, "type") {
        String::from_str("type_")
    } else {
        s.to_owned()
    }
}

/// The byte range of `b` that remains after dropping one leading `//` and
/// the surrounding whitespace: the comment's text.
pub open spec fn spec_comment_span(b: Seq<u8>) -> (int, int) {
    let p0 = if b.len() >= 2 && b[0] == '/' as u8 && b[1] == '/' as u8 {
        2int
    } else {
        0int
    };
    let lo = crate::goparse::scan_ws(b, p0);
    let hi = spec_trim_end(b, lo);
    (lo, hi)
}

/// The end of the text once trailing whitespace at or after `lo` is dropped.
pub open spec fn spec_trim_end(b: Seq<u8>, lo: int) -> int
    decreases b.len(),
{
    spec_trim_end_from(b, lo, b.len() as int)
}

pub open spec fn spec_trim_end_from(b: Seq<u8>, lo: int, hi: int) -> int
    decreases hi,
{
    if hi > lo && hi - 1 >= 0 && hi - 1 < b.len() && crate::goparse::is_ws(b[hi - 1]) {
        spec_trim_end_from(b, lo, hi - 1)
    } else {
        hi
    }
}

/// Strips the comment marker and surrounding whitespace from a line
/// comment's text.
pub fn parse_comment(c: &str) -> (r: String)
    ensures
        ({
            let b = encode_utf8(c@);
            let span = spec_comment_span(b);
            if valid_utf8(b.subrange(span.0, span.1)) {
                r@ == decode_utf8(b.subrange(span.0, span.1))
            } else {
                r@ =~= Seq::<char>::empty()
            }
        }),
{
    let b = c.as_bytes();
    let p0: usize = if match_slash_slash(b) {
        2
    } else {
        0
    };
    let lo = ws_start_end(b, p0);
    let hi = trim_end_exec(b, lo);
    match span_text(b, lo, hi) {
        Some(s) => s,
        None => String::new(),
    }
}

fn match_slash_slash(b: &[u8]) -> (r: bool)
    ensures
        r == (b@.len() >= 2 && b@[0] == '/' as u8 && b@[1] == '/' as u8),
{
    b.len() >= 2 && *vstd::slice::slice_index_get(b, 0) == '/' as u8 && *vstd::slice::slice_index_get(
        b,
        1,
    ) == '/' as u8
}

fn ws_start_end(b: &[u8], pos: usize) -> (r: usize)
    requires
        pos <= b@.len(),
    ensures
        r == crate::goparse::scan_ws(b@, pos as int),
        pos <= r <= b@.len(),
{
    crate::goparse::ws_end(b, pos)
}

pub(crate) fn trim_end_exec(b: &[u8], lo: usize) -> (r: usize)
    requires
        lo <= b@.len(),
    ensures
        r == spec_trim_end(b@, lo as int),
        lo <= r <= b@.len(),
{
    let mut hi = b.len();
    while hi > lo && is_ws_at(b, hi - 1)
        invariant
            lo <= b@.len(),
            lo <= hi <= b@.len(),
            spec_trim_end_from(b@, lo as int, b@.len() as int) == spec_trim_end_from(
                b@,
                lo as int,
                hi as int,
            ),
        decreases hi,
    {
        hi = hi - 1;
    }
    hi
}

fn is_ws_at(b: &[u8], i: usize) -> (r: bool)
    requires
        i < b@.len(),
    ensures
        r == crate::goparse::is_ws(b@[i as int]),
{
    let c = *vstd::slice::slice_index_get(b, i);
    c == ' ' as u8 || c == '\t' as u8 || c == '\n' as u8 || c == '\r' as u8
}

/// The text of a byte span, when it is valid UTF-8.
pub fn span_text(b: &[u8], start: usize, end: usize) -> (r: Option<String>)
    requires
        start <= end <= b@.len(),
    ensures
        match r {
            Some(s) => valid_utf8(b@.subrange(start as int, end as int)) && s@ == decode_utf8(
                b@.subrange(start as int, end as int),
            ),
            None => !valid_utf8(b@.subrange(start as int, end as int)),
        },
{
    let raw = slice_to_vec(slice_subrange(b, start, end));
    string_from_utf8(raw)
}

/// The Go type a primitive keyword names.
pub fn parse_go_type_primitive(t: &str) -> (r: Result<GoType, TranslateError>)
    ensures
        if t@ == "string"@ {
            r == Ok::<GoType, TranslateError>(GoType::StringType)
        } else if t@ == "int"@ || t@ == "int32"@ || t@ == "int64"@ {
            r == Ok::<GoType, TranslateError>(GoType::IntType)
        } else if t@ == "uint"@ || t@ == "uint32"@ || t@ == "uint64"@ {
            r == Ok::<GoType, TranslateError>(GoType::UnsignedIntType)
        } else if t@ == "float"@ || t@ == "float32"@ || t@ == "float64"@ {
            r == Ok::<GoType, TranslateError>(GoType::FloatType)
        } else if t@ == "bool"@ {
            r == Ok::<GoType, TranslateError>(GoType::BoolType)
        } else if t@ == "byte"@ {
            r == Ok::<GoType, TranslateError>(GoType::ByteType)
        } else {
            r is Err
        },
{
    if str_eq(t, "string") {
        Ok(GoType::StringType)
    } else if str_eq(t, "int") || str_eq(t, "int32") || str_eq(t, "int64") {
        Ok(GoType::IntType)
    } else if str_eq(t, "uint") || str_eq(t, "uint32") || str_eq(t, "uint64") {
        Ok(GoType::UnsignedIntType)
    } else if str_eq(t, "float") || str_eq(t, "float32") || str_eq(t, "float64") {
        Ok(GoType::FloatType)
    } else if str_eq(t, "bool") {
        Ok(GoType::BoolType)
    } else if str_eq(t, "byte") {
        Ok(GoType::ByteType)
    } else {
        Err(TranslateError {})
    }
}

/// The Go type a bare identifier names: the two timestamp newtypes are
/// special, everything else is user-defined.
pub fn parse_go_ident(t: &str) -> (r: Result<GoType, TranslateError>)
    ensures
        if t@ == "MilliSecondsEpochTime"@ {
            r == Ok::<GoType, TranslateError>(GoType::TimestampMillisecondsType)
        } else if t@ == "SecondsEpochTime"@ {
            r == Ok::<GoType, TranslateError>(GoType::TimestampSecondsType)
        } else {
            r matches Ok(g) && g matches GoType::UserDefined(u) && u@ == t@
        },
{
    if str_eq(t, "MilliSecondsEpochTime") {
        Ok(GoType::TimestampMillisecondsType)
    } else if str_eq(t, "SecondsEpochTime") {
        Ok(GoType::TimestampSecondsType)
    } else {
        Ok(GoType::UserDefined(t.to_owned()))
    }
}

/// The Go type a qualified identifier names; only the two mappings the
/// event definitions use exist.
pub fn parse_go_package_ident(t: &str) -> (r: Result<GoType, TranslateError>)
    ensures
        if t@ == "time.Time"@ {
            r == Ok::<GoType, TranslateError>(GoType::TimeType)
        } else if t@ == "json.RawMessage"@ {
            r == Ok::<GoType, TranslateError>(GoType::JsonRawType)
        } else {
            r is Err
        },
{
    if str_eq(t, "time.Time") {
        Ok(GoType::TimeType)
    } else if str_eq(t, "json.RawMessage") {
        Ok(GoType::JsonRawType)
    } else {
        Err(TranslateError {})
    }
}

/// An interface type is carried as a generic JSON value; callers deal with
/// its contents.
pub fn parse_go_type_interface(_t: &str) -> (r: Result<GoType, TranslateError>)
    ensures
        r == Ok::<GoType, TranslateError>(GoType::InterfaceType),
{
    Ok(GoType::InterfaceType)
}

// ---------------------------------------------------------------------------
// Translation to Rust types
// ---------------------------------------------------------------------------

/// The import that the custom field deserializers live behind.
pub open spec fn spec_deserializers_lib() -> Seq<char> {
    "super::super::deserializers::*"@
}

/// The Rust type text that stands for the given Go type.
pub open spec fn spec_rust_value(t: GoType) -> Seq<char>
    decreases t,
{
    match t {
        GoType::StringType => "String"@,
        GoType::BoolType => "bool"@,
        GoType::ByteType => "u8"@,
        GoType::IntType => "i64"@,
        GoType::UnsignedIntType => "u64"@,
        GoType::FloatType => "f64"@,
        GoType::UserDefined(x) => camel_of(x@),
        GoType::ArrayType(inner) => "Vec<"@ + spec_rust_value(*inner) + ">"@,
        GoType::MapOf(k, v) => "HashMap<"@ + spec_rust_value(*k) + ", "@ + spec_rust_value(*v)
            + ">"@,
        GoType::InterfaceType => "Value"@,
        GoType::JsonRawType => "Value"@,
        GoType::TimeType => "DateTime<Utc>"@,
        GoType::TimestampMillisecondsType => "DateTime<Utc>"@,
        GoType::TimestampSecondsType => "DateTime<Utc>"@,
    }
}

/// The serde annotations the field carrying this type needs.
pub open spec fn spec_rust_annotations(t: GoType) -> Seq<Seq<char>> {
    match t {
        GoType::ArrayType(inner) => if spec_rust_value(*inner) == "u8"@ {
            seq!["#[serde(deserialize_with = \"deserialize_base64\")]"@]
        } else {
            seq![]
        },
        GoType::TimestampSecondsType => seq![
            "#[serde(deserialize_with = \"deserialize_seconds\")]"@,
        ],
        GoType::TimestampMillisecondsType => seq![
            "#[serde(deserialize_with = \"deserialize_milliseconds\")]"@,
        ],
        _ => seq![],
    }
}

/// Appends a library to the list unless it is already there.
pub open spec fn spec_add_lib(l: Seq<Seq<char>>, s: Seq<char>) -> Seq<Seq<char>> {
    if l.contains(s) {
        l
    } else {
        l.push(s)
    }
}

pub open spec fn spec_lib_union_from(l1: Seq<Seq<char>>, l2: Seq<Seq<char>>, i: int) -> Seq<
    Seq<char>,
>
    decreases l2.len() - i,
{
    if 0 <= i < l2.len() {
        spec_lib_union_from(spec_add_lib(l1, l2[i]), l2, i + 1)
    } else {
        l1
    }
}

/// The first list extended by whatever of the second it lacks, in order.
pub open spec fn spec_lib_union(l1: Seq<Seq<char>>, l2: Seq<Seq<char>>) -> Seq<Seq<char>> {
    spec_lib_union_from(l1, l2, 0)
}

/// The imports the Rust rendering of this type relies on, first use first,
/// each at most once.
pub open spec fn spec_rust_libraries(t: GoType) -> Seq<Seq<char>>
    decreases t,
{
    match t {
        GoType::UserDefined(_) => seq![],
        GoType::ArrayType(inner) => if spec_rust_value(*inner) == "u8"@ {
            spec_add_lib(spec_rust_libraries(*inner), spec_deserializers_lib())
        } else {
            spec_rust_libraries(*inner)
        },
        GoType::MapOf(k, v) => spec_add_lib(
            spec_lib_union(spec_rust_libraries(*k), spec_rust_libraries(*v)),
            "std::collections::HashMap"@,
        ),
        GoType::InterfaceType => seq!["serde_json::Value"@],
        GoType::JsonRawType => seq!["serde_json::Value"@],
        GoType::TimeType => seq!["chrono::DateTime"@, "chrono::Utc"@],
        GoType::TimestampMillisecondsType => seq![
            "chrono::DateTime"@,
            "chrono::Utc"@,
            spec_deserializers_lib(),
        ],
        GoType::TimestampSecondsType => seq![
            "chrono::DateTime"@,
            "chrono::Utc"@,
            spec_deserializers_lib(),
        ],
        _ => seq![],
    }
}

/// Whether the list already holds this text.
fn vec_contains_str(v: &Vec<String>, s: &str) -> (r: bool)
    ensures
        r == v.deep_view().contains(s@),
{
    let mut i: usize = 0;
    while i < v.len()
        invariant
            i <= v.len(),
            forall|j: int| 0 <= j < i ==> v.deep_view()[j] != s@,
        decreases v.len() - i,
    {
        if str_eq(v[i].as_str(), s) {
            assert(v.deep_view()[i as int] == s@);
            return true;
        }
        i = i + 1;
    }
    assert(!v.deep_view().contains(s@)) by {
        assert(forall|j: int| 0 <= j < v.deep_view().len() ==> v.deep_view()[j] != s@);
    }
    false
}

/// Appends the text unless the list already holds it.
pub(crate) fn push_unique(v: &mut Vec<String>, s: String)
    ensures
        final(v).deep_view() == spec_add_lib(old(v).deep_view(), s@),
{
    if !vec_contains_str(v, s.as_str()) {
        let ghost old_dv = v.deep_view();
        v.push(s);
        proof {
            assert(v.deep_view() =~= old_dv.push(s@));
        }
    }
}

/// Moves every library of `src` into `dst`, keeping each at most once.
fn add_libs(dst: &mut Vec<String>, src: Vec<String>)
    ensures
        final(dst).deep_view() == spec_lib_union(old(dst).deep_view(), src.deep_view()),
{
    let ghost sv = src.deep_view();
    let mut i: usize = 0;
    while i < src.len()
        invariant
            i <= src.len(),
            sv == src.deep_view(),
            sv.len() == src.len(),
            spec_lib_union(old(dst).deep_view(), sv) == spec_lib_union_from(
                dst.deep_view(),
                sv,
                i as int,
            ),
        decreases src.len() - i,
    {
        let entry = src[i].clone();
        proof {
            assert(entry@ == sv[i as int]);
        }
        push_unique(dst, entry);
        i = i + 1;
    }
}

/// The Rust rendering of a Go type: its type text, annotations and imports,
/// exactly as `spec_rust_value`, `spec_rust_annotations` and
/// `spec_rust_libraries` lay them down.
pub fn translate_go_type_to_rust_type(go_type: GoType) -> (r: Result<RustType, TranslateError>)
    ensures
        r matches Ok(rt) && rt.value@ == spec_rust_value(go_type) && rt.annotations.deep_view()
            == spec_rust_annotations(go_type) && rt.libraries.deep_view() == spec_rust_libraries(
            go_type,
        ),
    decreases go_type,
{
    let rt = match go_type {
        GoType::StringType => make_rust_type_with_no_libraries("String"),
        GoType::BoolType => make_rust_type_with_no_libraries("bool"),
        GoType::ByteType => make_rust_type_with_no_libraries("u8"),
        GoType::IntType => make_rust_type_with_no_libraries("i64"),
        GoType::UnsignedIntType => make_rust_type_with_no_libraries("u64"),
        GoType::FloatType => make_rust_type_with_no_libraries("f64"),
        GoType::UserDefined(x) => {
            let value = to_upper_camel(x.as_str());
            RustType { annotations: Vec::new(), libraries: Vec::new(), value }
        },
        GoType::ArrayType(inner) => {
            let ghost ig = *inner;
            let i = match translate_go_type_to_rust_type(*inner) {
                Ok(v) => v,
                Err(e) => {
                    return Err(e);
                },
            };
            let mut value = String::from_str("Vec<");
            value.append(i.value.as_str());
            value.append(">");
            proof {
                assert(value@ =~= "Vec<"@ + spec_rust_value(ig) + ">"@);
            }
            if str_eq(i.value.as_str(), "u8") {
                let mut libraries = i.libraries;
                push_unique(&mut libraries, String::from_str("super::super::deserializers::*"));
                let annotations = vec![
                    String::from_str("#[serde(deserialize_with = \"deserialize_base64\")]"),
                ];
                proof {
                    assert(annotations.deep_view() =~= spec_rust_annotations(
                        GoType::ArrayType(Box::new(ig)),
                    ));
                }
                RustType { annotations, libraries, value }
            } else {
                RustType { annotations: Vec::new(), libraries: i.libraries, value }
            }
        },
        GoType::MapOf(k, v) => {
            let ghost kg = *k;
            let ghost vg = *v;
            let key_data = match translate_go_type_to_rust_type(*k) {
                Ok(kd) => kd,
                Err(e) => {
                    return Err(e);
                },
            };
            let value_data = match translate_go_type_to_rust_type(*v) {
                Ok(vd) => vd,
                Err(e) => {
                    return Err(e);
                },
            };
            let mut libraries = key_data.libraries;
            add_libs(&mut libraries, value_data.libraries);
            push_unique(&mut libraries, String::from_str("std::collections::HashMap"));
            let mut value = String::from_str("HashMap<");
            value.append(key_data.value.as_str());
            value.append(", ");
            value.append(value_data.value.as_str());
            value.append(">");
            proof {
                assert(value@ =~= "HashMap<"@ + spec_rust_value(kg) + ", "@ + spec_rust_value(vg)
                    + ">"@);
            }
            RustType { annotations: Vec::new(), libraries, value }
        },
        GoType::InterfaceType => RustType {
            annotations: Vec::new(),
            libraries: vec![String::from_str("serde_json::Value")],
            value: String::from_str("Value"),
        },
        GoType::JsonRawType => RustType {
            annotations: Vec::new(),
            libraries: vec![String::from_str("serde_json::Value")],
            value: String::from_str("Value"),
        },
        GoType::TimeType => RustType {
            annotations: Vec::new(),
            libraries: vec![
                String::from_str("chrono::DateTime"),
                String::from_str("chrono::Utc"),
            ],
            value: String::from_str("DateTime<Utc>"),
        },
        GoType::TimestampSecondsType => RustType {
            annotations: vec![
                String::from_str("#[serde(deserialize_with = \"deserialize_seconds\")]"),
            ],
            libraries: vec![
                String::from_str("chrono::DateTime"),
                String::from_str("chrono::Utc"),
                String::from_str("super::super::deserializers::*"),
            ],
            value: String::from_str("DateTime<Utc>"),
        },
        GoType::TimestampMillisecondsType => RustType {
            annotations: vec![
                String::from_str("#[serde(deserialize_with = \"deserialize_milliseconds\")]"),
            ],
            libraries: vec![
                String::from_str("chrono::DateTime"),
                String::from_str("chrono::Utc"),
                String::from_str("super::super::deserializers::*"),
            ],
            value: String::from_str("DateTime<Utc>"),
        },
    };
    proof {
        assert(rt.annotations.deep_view() =~= spec_rust_annotations(go_type));
        assert(rt.libraries.deep_view() =~= spec_rust_libraries(go_type));
    }
    Ok(rt)
}

} // verus!
