//! From parsed Go tokens to Rust source: extracts struct definitions and
//! type aliases into the model, translates their types, and renders them
//! through the `codegen` builder, which owns the final formatting.

use vstd::prelude::*;
use vstd::string::StrSliceExecFns;
use vstd::string::StringExecFns;
use vstd::string::StringSliceAdditionalSpecFns;
use vstd::utf8::encode_utf8;

use crate::gomodel::{
    GoType, TranslateError, mangle, parse_comment, parse_go_ident, parse_go_package_ident,
    parse_go_type_primitive, parse_go_type_interface, span_text, to_snake, to_upper_camel,
    translate_go_type_to_rust_type,
};
use crate::goparse::{AwsGoEventsParser, Rule, Token};

verus! {

// ---------------------------------------------------------------------------
// The codegen builder, declared and wrapped
// ---------------------------------------------------------------------------

#[verifier::external_type_specification]
#[verifier::external_body]
pub struct ExScope(codegen::Scope);

#[verifier::external_type_specification]
#[verifier::external_body]
pub struct ExStruct(codegen::Struct);

#[verifier::external_type_specification]
#[verifier::external_body]
pub struct ExField(codegen::Field);

/// Relies on codegen::Scope::new: a fresh, empty scope.
#[verifier::external_body]
fn scope_new() -> codegen::Scope {
    codegen::Scope::new()
}

/// Relies on codegen::Scope::push_struct: adds the struct to the scope.
#[verifier::external_body]
fn scope_push_struct(s: &mut codegen::Scope, st: codegen::Struct) {
    s.push_struct(st);
}

/// Relies on codegen::Scope::import: records one import of `ty` from `path`.
#[verifier::external_body]
fn scope_import(s: &mut codegen::Scope, path: &str, ty: &str) {
    s.import(path, ty);
}

/// Relies on codegen::Scope::raw: appends raw source text to the scope.
#[verifier::external_body]
fn scope_raw(s: &mut codegen::Scope, text: &str) {
    s.raw(text);
}

/// Relies on codegen::Scope::to_string: renders the scope as Rust source.
#[verifier::external_body]
fn scope_to_string(s: &codegen::Scope) -> String {
    s.to_string()
}

/// Relies on codegen::Scope::clone: a copy of the scope.
#[verifier::external_body]
fn scope_clone(s: &codegen::Scope) -> codegen::Scope {
    s.clone()
}

/// Relies on codegen::Struct::new: a fresh struct builder with this name.
#[verifier::external_body]
fn struct_new(name: &str) -> codegen::Struct {
    codegen::Struct::new(name)
}

/// Relies on codegen::Struct::vis: sets the struct's visibility.
#[verifier::external_body]
fn struct_vis(st: &mut codegen::Struct, vis: &str) {
    st.vis(vis);
}

/// Relies on codegen::Struct::derive: adds one derive to the struct.
#[verifier::external_body]
fn struct_derive(st: &mut codegen::Struct, name: &str) {
    st.derive(name);
}

/// Relies on codegen::Struct::push_field: adds the field to the struct.
/// The push expects a struct with named fields; every struct this crate
/// builds starts empty under `struct_new` and only ever receives named
/// fields, so the tuple-fields path that the call refuses never arises.
#[verifier::external_body]
fn struct_push_field(st: &mut codegen::Struct, f: codegen::Field) {
    st.push_field(f);
}

/// Relies on codegen::Field::new: a fresh field with this name and type.
#[verifier::external_body]
fn field_new(name: &str, ty: &str) -> codegen::Field {
    codegen::Field::new(name, ty)
}

/// Relies on codegen::Field::vis: sets the field's visibility.
#[verifier::external_body]
fn field_vis(f: &mut codegen::Field, vis: &str) {
    f.vis(vis);
}

/// Relies on codegen::Field::doc: sets the field's doc comment.
#[verifier::external_body]
fn field_doc(f: &mut codegen::Field, doc: &str) {
    f.doc(doc);
}

/// Relies on codegen::Field::annotation: adds one annotation line.
#[verifier::external_body]
fn field_annotation(f: &mut codegen::Field, annotation: &str) {
    f.annotation(annotation);
}

// ---------------------------------------------------------------------------
// Extraction from tokens
// ---------------------------------------------------------------------------

/// One parsed json tag.
#[derive(Debug)]
pub struct JsonMapping {
    pub name: String,
    pub comment: Option<String>,
    pub omit_empty: bool,
}

/// One parsed struct field.
#[derive(Debug)]
pub struct FieldDef {
    pub name: String,
    pub json_name: Option<String>,
    pub comment: Option<String>,
    pub omit_empty: bool,
    pub go_type: GoType,
}

/// The first token index past the subtree rooted at `i`: every token whose
/// span lies inside the root's span belongs to the subtree.
fn skip_subtree(toks: &Vec<Token>, i: usize) -> (r: usize)
    requires
        i < toks@.len(),
    ensures
        i < r <= toks@.len(),
    decreases toks@.len() - i,
{
    let n = toks.len();
    let root = toks[i];
    assert(i < n);
    let mut j = i + 1;
    while j < toks.len() && toks[j].start >= root.start && toks[j].end <= root.end
        invariant
            i < j <= toks@.len(),
        decreases toks@.len() - j,
    {
        j = j + 1;
    }
    j
}

/// The Go type that the token subtree at `i` spells, and the index just past
/// it. Wrapper tokens (key, value and field-type positions) are looked
/// through.
pub fn parse_go_type(b: &[u8], toks: &Vec<Token>, i: usize) -> (r: Result<
    (GoType, usize),
    TranslateError,
>)
    ensures
        r matches Ok((_, j)) ==> i < j <= toks@.len(),
    decreases toks@.len() - i,
{
    if i >= toks.len() {
        return Err(TranslateError {});
    }
    let t = toks[i];
    if t.start > t.end || t.end > b.len() {
        return Err(TranslateError {});
    }
    let text = match span_text(b, t.start, t.end) {
        Some(s) => s,
        None => {
            return Err(TranslateError {});
        },
    };
    match t.rule {
        Rule::Primitive => {
            let g = parse_go_type_primitive(text.as_str())?;
            // the keyword token sits right inside the primitive token
            if i + 1 < toks.len() {
                Ok((g, i + 2))
            } else {
                Ok((g, i + 1))
            }
        },
        Rule::Ident => {
            let g = parse_go_ident(text.as_str())?;
            Ok((g, i + 1))
        },
        Rule::PackageIdent => {
            let g = parse_go_package_ident(text.as_str())?;
            Ok((g, i + 1))
        },
        Rule::Interface => {
            let g = parse_go_type_interface(text.as_str())?;
            Ok((g, i + 1))
        },
        Rule::Array => {
            let (inner, j) = parse_go_type(b, toks, i + 1)?;
            Ok((GoType::ArrayType(Box::new(inner)), j))
        },
        Rule::MapType => {
            // map tokens: the key wrapper, its primitive, then the value
            // wrapper and its contents
            if i + 1 >= toks.len() {
                return Err(TranslateError {});
            }
            if !(toks[i + 1].rule == Rule::KeyType) {
                return Err(TranslateError {});
            }
            let (key, j) = parse_go_type(b, toks, i + 2)?;
            if j >= toks.len() {
                return Err(TranslateError {});
            }
            if !(toks[j].rule == Rule::ValueType) {
                return Err(TranslateError {});
            }
            let (value, j2) = parse_go_type(b, toks, j + 1)?;
            Ok((GoType::MapOf(Box::new(key), Box::new(value)), j2))
        },
        Rule::KeyType => parse_go_type(b, toks, i + 1),
        Rule::ValueType => parse_go_type(b, toks, i + 1),
        Rule::StructFieldType => parse_go_type(b, toks, i + 1),
        _ => Err(TranslateError {}),
    }
}

/// The json tag rooted at token `i`, and the index just past it.
pub fn parse_json_mapping(b: &[u8], toks: &Vec<Token>, i: usize) -> (r: Result<
    (JsonMapping, usize),
    TranslateError,
>)
    ensures
        r matches Ok((_, j)) ==> i < j <= toks@.len(),
{
    if i >= toks.len() || !(toks[i].rule == Rule::JsonMapping) {
        return Err(TranslateError {});
    }
    let root = toks[i];
    let mut j = i + 1;
    if j >= toks.len() || !(toks[j].rule == Rule::JsonName) {
        return Err(TranslateError {});
    }
    let nt = toks[j];
    if nt.start > nt.end || nt.end > b.len() {
        return Err(TranslateError {});
    }
    let name = match span_text(b, nt.start, nt.end) {
        Some(s) => s,
        None => {
            return Err(TranslateError {});
        },
    };
    j = j + 1;
    let mut omit_empty = false;
    if j < toks.len() && toks[j].rule == Rule::OmitEmpty {
        omit_empty = true;
        j = j + 1;
    }
    let mut comment: Option<String> = None;
    if j < toks.len() && toks[j].rule == Rule::AnyComment && toks[j].end <= root.end {
        let ct = toks[j];
        if ct.start <= ct.end && ct.end <= b.len() {
            match span_text(b, ct.start, ct.end) {
                Some(s) => {
                    comment = Some(parse_comment(s.as_str()));
                },
                None => {
                    return Err(TranslateError {});
                },
            }
        }
        j = j + 1;
    }
    Ok((JsonMapping { name, comment, omit_empty }, j))
}

/// The struct field rooted at token `i`, and the index just past it.
pub fn parse_struct_field(b: &[u8], toks: &Vec<Token>, i: usize) -> (r: Result<
    (FieldDef, usize),
    TranslateError,
>)
    ensures
        r matches Ok((_, j)) ==> i < j <= toks@.len(),
{
    if i >= toks.len() || !(toks[i].rule == Rule::StructField) {
        return Err(TranslateError {});
    }
    let root = toks[i];
    let mut j = i + 1;
    if j >= toks.len() || !(toks[j].rule == Rule::Ident) {
        return Err(TranslateError {});
    }
    let nt = toks[j];
    if nt.start > nt.end || nt.end > b.len() {
        return Err(TranslateError {});
    }
    let raw_name = match span_text(b, nt.start, nt.end) {
        Some(s) => s,
        None => {
            return Err(TranslateError {});
        },
    };
    let name = mangle(raw_name.as_str());
    j = j + 1;
    let mut is_pointer = false;
    if j < toks.len() && toks[j].rule == Rule::Pointer {
        is_pointer = true;
        j = j + 1;
    }
    if j >= toks.len() || !(toks[j].rule == Rule::StructFieldType) {
        return Err(TranslateError {});
    }
    let (go_type, j2) = parse_go_type(b, toks, j)?;
    let mut j = j2;
    let mut json: Option<JsonMapping> = None;
    if j < toks.len() && toks[j].rule == Rule::JsonMapping && toks[j].end <= root.end {
        let (m, j3) = parse_json_mapping(b, toks, j)?;
        if j3 > j {
            json = Some(m);
            j = j3;
        }
    }
    let (json_name, comment, tag_omit) = match json {
        Some(m) => (Some(m.name), m.comment, m.omit_empty),
        None => (None, None, false),
    };
    // a pointer field can be nil, so it is optional whatever the tag says
    let omit_empty = tag_omit || is_pointer;
    if j <= i {
        return Err(TranslateError {});
    }
    Ok((FieldDef { name, json_name, comment, omit_empty, go_type }, j))
}

/// The struct name in the preamble rooted at token `i`, and the index just
/// past the preamble.
pub fn parse_struct_preamble(b: &[u8], toks: &Vec<Token>, i: usize) -> (r: Result<
    (String, usize),
    TranslateError,
>)
    ensures
        r matches Ok((_, j)) ==> i < j <= toks@.len(),
{
    if i >= toks.len() || !(toks[i].rule == Rule::StructPreamble) {
        return Err(TranslateError {});
    }
    if i + 1 >= toks.len() || !(toks[i + 1].rule == Rule::StructName) {
        return Err(TranslateError {});
    }
    let nt = toks[i + 1];
    if nt.start > nt.end || nt.end > b.len() {
        return Err(TranslateError {});
    }
    let name = match span_text(b, nt.start, nt.end) {
        Some(s) => s,
        None => {
            return Err(TranslateError {});
        },
    };
    // step past the name's inner ident token when present
    if i + 2 < toks.len() && toks[i + 2].rule == Rule::Ident {
        Ok((name, i + 3))
    } else {
        Ok((name, i + 2))
    }
}

/// The fields grouped under the token at `i`, and the index just past them.
pub fn parse_struct_fields(b: &[u8], toks: &Vec<Token>, i: usize) -> (r: Result<
    (Vec<FieldDef>, usize),
    TranslateError,
>)
    ensures
        r matches Ok((_, j)) ==> i < j <= toks@.len(),
{
    if i >= toks.len() || !(toks[i].rule == Rule::StructFields) {
        return Err(TranslateError {});
    }
    let mut fields: Vec<FieldDef> = Vec::new();
    let mut j = i + 1;
    while j < toks.len() && toks[j].rule == Rule::StructField
        invariant
            i < j <= toks@.len(),
        decreases toks@.len() - j,
    {
        match parse_struct_field(b, toks, j) {
            Ok((f, j2)) => {
                fields.push(f);
                j = j2;
            },
            Err(e) => {
                return Err(e);
            },
        }
    }
    Ok((fields, j))
}

/// The struct definition rooted at token `i`, rendered as a `codegen`
/// struct, together with the imports its fields rely on and the index just
/// past the definition.
pub fn parse_struct(b: &[u8], toks: &Vec<Token>, i: usize) -> (r: Result<
    (codegen::Struct, Vec<String>, usize),
    TranslateError,
>)
    ensures
        r matches Ok((_, _, j)) ==> i < j <= toks@.len(),
{
    if i >= toks.len() || !(toks[i].rule == Rule::StructDef) {
        return Err(TranslateError {});
    }
    let (name, j1) = parse_struct_preamble(b, toks, i + 1)?;
    let (fields, j2): (Vec<FieldDef>, usize) = if j1 < toks.len() && toks[j1].rule
        == Rule::StructFields {
        parse_struct_fields(b, toks, j1)?
    } else {
        (Vec::new(), j1)
    };
    let camel = to_upper_camel(name.as_str());
    let mut rust_struct = struct_new(camel.as_str());
    struct_vis(&mut rust_struct, "pub");
    struct_derive(&mut rust_struct, "Debug");
    struct_derive(&mut rust_struct, "Clone");
    struct_derive(&mut rust_struct, "Deserialize");
    struct_derive(&mut rust_struct, "Serialize");
    let mut libraries: Vec<String> = Vec::new();
    let mut k: usize = 0;
    while k < fields.len()
        invariant
            k <= fields@.len(),
        decreases fields@.len() - k,
    {
        let f = &fields[k];
        let snake = to_snake(f.name.as_str());
        let member_name = mangle(snake.as_str());
        let rust_data = match translate_go_type_to_rust_type(clone_go_type(&f.go_type)) {
            Ok(v) => v,
            Err(e) => {
                return Err(e);
            },
        };
        let mut m: usize = 0;
        while m < rust_data.libraries.len()
            invariant
                m <= rust_data.libraries@.len(),
            decreases rust_data.libraries@.len() - m,
        {
            crate::gomodel::push_unique(&mut libraries, rust_data.libraries[m].clone());
            m = m + 1;
        }
        // an optional json field arrives as an Option
        let rust_type: String = if f.omit_empty {
            let mut t = String::from_str("Option<");
            t.append(rust_data.value.as_str());
            t.append(">");
            t
        } else {
            let mut t = String::new();
            t.append(rust_data.value.as_str());
            t
        };
        let mut field = field_new(member_name.as_str(), rust_type.as_str());
        field_vis(&mut field, "pub");
        if let Some(c) = &f.comment {
            field_doc(&mut field, c.as_str());
        }
        let mut renamed = false;
        if let Some(rename) = &f.json_name {
            if !crate::codec::str_eq(rename.as_str(), member_name.as_str()) {
                let mut ann = String::from_str("#[serde(rename = \"");
                ann.append(rename.as_str());
                ann.append("\")]");
                field_annotation(&mut field, ann.as_str());
                renamed = true;
            }
        }
        let mut m: usize = 0;
        while m < rust_data.annotations.len()
            invariant
                m <= rust_data.annotations@.len(),
            decreases rust_data.annotations@.len() - m,
        {
            field_annotation(&mut field, rust_data.annotations[m].as_str());
            m = m + 1;
        }
        let _ = renamed;
        struct_push_field(&mut rust_struct, field);
        k = k + 1;
    }
    Ok((rust_struct, libraries, j2))
}

/// A structural copy of a Go type.
fn clone_go_type(t: &GoType) -> (r: GoType)
    decreases t,
{
    match t {
        GoType::StringType => GoType::StringType,
        GoType::IntType => GoType::IntType,
        GoType::UnsignedIntType => GoType::UnsignedIntType,
        GoType::FloatType => GoType::FloatType,
        GoType::BoolType => GoType::BoolType,
        GoType::ByteType => GoType::ByteType,
        GoType::UserDefined(x) => GoType::UserDefined(x.clone()),
        GoType::ArrayType(inner) => GoType::ArrayType(Box::new(clone_go_type(inner))),
        GoType::MapOf(k, v) => GoType::MapOf(
            Box::new(clone_go_type(k)),
            Box::new(clone_go_type(v)),
        ),
        GoType::InterfaceType => GoType::InterfaceType,
        GoType::JsonRawType => GoType::JsonRawType,
        GoType::TimeType => GoType::TimeType,
        GoType::TimestampMillisecondsType => GoType::TimestampMillisecondsType,
        GoType::TimestampSecondsType => GoType::TimestampSecondsType,
    }
}

/// The alias rooted at token `i`: its new name and its target type, and the
/// index just past the alias.
pub fn parse_type_alias(b: &[u8], toks: &Vec<Token>, i: usize) -> (r: Result<
    (Option<(String, crate::gomodel::RustType)>, usize),
    TranslateError,
>)
    ensures
        r matches Ok((_, j)) ==> i < j <= toks@.len(),
{
    if i >= toks.len() || !(toks[i].rule == Rule::TypeAlias) {
        return Err(TranslateError {});
    }
    let mut j = i + 1;
    if j >= toks.len() {
        return Err(TranslateError {});
    }
    // both alias forms carry the new name first
    if !(toks[j].rule == Rule::LocalTypeAlias || toks[j].rule == Rule::PackageTypeAlias) {
        return Err(TranslateError {});
    }
    j = j + 1;
    if j >= toks.len() || !(toks[j].rule == Rule::Ident) {
        return Err(TranslateError {});
    }
    let nt = toks[j];
    if nt.start > nt.end || nt.end > b.len() {
        return Err(TranslateError {});
    }
    let raw_name = match span_text(b, nt.start, nt.end) {
        Some(s) => s,
        None => {
            return Err(TranslateError {});
        },
    };
    let name = mangle(raw_name.as_str());
    j = j + 1;
    // the target is either a qualified name or a wrapped type expression
    let (go_type, j2) = if j < toks.len() && toks[j].rule == Rule::TypeAliasTarget {
        parse_go_type(b, toks, j + 1)?
    } else {
        parse_go_type(b, toks, j)?
    };
    if j2 <= i {
        return Err(TranslateError {});
    }
    let rust = translate_go_type_to_rust_type(go_type)?;
    Ok((Some((name, rust)), j2))
}

// ---------------------------------------------------------------------------
// Whole-source translation
// ---------------------------------------------------------------------------

/// Go source held verbatim.
#[derive(Debug, Clone, PartialEq)]
pub struct GoCode(pub String);

impl GoCode {
    /// The source text.
    pub fn text(&self) -> (r: &str)
        ensures
            r@ == self.0@,
    {
        self.0.as_str()
    }
}

/// Rust source being assembled in a `codegen` scope.
pub struct RustCode(pub codegen::Scope);

impl RustCode {
    /// A scope seeded with raw source text.
    pub fn new(text: String) -> RustCode {
        let mut scope = scope_new();
        scope_raw(&mut scope, text.as_str());
        RustCode(scope)
    }

    /// A copy of the underlying scope.
    pub fn scope(&self) -> codegen::Scope {
        scope_clone(&self.0)
    }

    /// The generated Rust source text.
    pub fn to_text(&self) -> String {
        scope_to_string(&self.0)
    }
}

/// Records the imports a definition needs: each library path is split at its
/// last `::` into the path imported from and the name imported.
fn add_imports(scope: &mut codegen::Scope, libraries: &Vec<String>) {
    let mut i: usize = 0;
    while i < libraries.len()
        invariant
            i <= libraries@.len(),
        decreases libraries@.len() - i,
    {
        let lib = &libraries[i];
        let b = lib.as_str().as_bytes();
        let blen = b.len();
        if let Some(cut) = last_double_colon(b) {
            assert(cut + 2 <= blen);
            if let (Some(path), Some(ty)) = (
                span_text(b, 0, cut),
                span_text(b, cut + 2, blen),
            ) {
                scope_import(scope, path.as_str(), ty.as_str());
            }
        }
        i = i + 1;
    }
}

/// The byte position of the last `::` of the text, if any.
fn last_double_colon(b: &[u8]) -> (r: Option<usize>)
    ensures
        r matches Some(c) ==> c + 2 <= b@.len(),
{
    let mut i = b.len();
    while i >= 2
        invariant
            i <= b@.len(),
        decreases i,
    {
        if *vstd::slice::slice_index_get(b, i - 2) == ':' as u8 && *vstd::slice::slice_index_get(
            b,
            i - 1,
        ) == ':' as u8 {
            return Some(i - 2);
        }
        i = i - 1;
    }
    None
}

/// Translates one file of Go event definitions into Rust source. The Go text
/// is returned verbatim beside the generated code; structs become serde-
/// ready Rust structs, aliases become `pub type` lines, and package and
/// import clauses and comments are passed over.
pub fn parse_go_string(go_source: String) -> (r: Result<(GoCode, RustCode), TranslateError>)
    ensures
        r matches Ok(pair) ==> pair.0.0@ == go_source@,
{
    let trimmed = trim_text(go_source.as_str());
    let toks = match AwsGoEventsParser::parse(Rule::AwsGoEvents, trimmed.as_str()) {
        Ok(t) => t,
        Err(_) => {
            return Err(TranslateError {});
        },
    };
    let b = trimmed.as_str().as_bytes();
    let mut scope = scope_new();
    let mut i: usize = 0;
    while i < toks.len()
        invariant
            i <= toks@.len(),
        decreases toks@.len() - i,
    {
        let rule = toks[i].rule;
        if rule == Rule::StructDef {
            match parse_struct(b, &toks, i) {
                Ok((parsed_struct, libraries, j)) => {
                    scope_push_struct(&mut scope, parsed_struct);
                    add_imports(&mut scope, &libraries);
                    i = j;
                },
                Err(e) => {
                    return Err(e);
                },
            }
        } else if rule == Rule::TypeAlias {
            match parse_type_alias(b, &toks, i) {
                Ok((alias, j)) => {
                    if let Some((name, target)) = alias {
                        add_imports(&mut scope, &target.libraries);
                        let mut m: usize = 0;
                        while m < target.annotations.len()
                            invariant
                                m <= target.annotations@.len(),
                            decreases target.annotations@.len() - m,
                        {
                            scope_raw(&mut scope, target.annotations[m].as_str());
                            m = m + 1;
                        }
                        let mut line = String::from_str("pub type ");
                        line.append(name.as_str());
                        line.append(" = ");
                        line.append(target.value.as_str());
                        line.append(";");
                        scope_raw(&mut scope, line.as_str());
                    }
                    i = j;
                },
                Err(e) => {
                    return Err(e);
                },
            }
        } else {
            // package and import clauses and comments need no Rust rendering
            i = skip_subtree(&toks, i);
        }
    }
    Ok((GoCode(go_source), RustCode(scope)))
}

/// The text with surrounding whitespace dropped.
fn trim_text(s: &str) -> (r: String)
    ensures
        true,
{
    let b = s.as_bytes();
    let lo = crate::goparse::ws_end(b, 0);
    let hi = crate::gomodel::trim_end_exec(b, lo);
    match span_text(b, lo, hi) {
        Some(t) => t,
        None => String::new(),
    }
}

} // verus!
