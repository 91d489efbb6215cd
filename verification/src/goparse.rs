//! Parser for the subset of Go source that the event-shape definitions use:
//! package and import clauses, struct definitions with tagged fields, type
//! aliases, and comments.
//!
//! Parsing produces a flat pre-order list of tokens, each naming its grammar
//! rule and the half-open byte span it covers. The grammar is pinned down by
//! the `spec_*` functions; every executable parse function returns exactly
//! what its spec computes.

use vstd::prelude::*;
use vstd::slice::slice_index_get;
use vstd::string::StrSliceExecFns;
use vstd::string::StringSliceAdditionalSpecFns;
use vstd::utf8::encode_utf8;

verus! {

/// The grammar rules; each parsed token names the rule it matched.
#[derive(Clone, Copy, Debug, PartialEq, Eq, Structural)]
pub enum Rule {
    AwsGoEvents,
    PackageDef,
    Import,
    ImportMultiple,
    ImportPackage,
    PackageName,
    StructDef,
    StructPreamble,
    StructName,
    StructFields,
    StructField,
    StructFieldType,
    Pointer,
    JsonMapping,
    JsonName,
    OmitEmpty,
    AnyComment,
    TypeAlias,
    LocalTypeAlias,
    PackageTypeAlias,
    TypeAliasTarget,
    Ident,
    PackageIdent,
    Primitive,
    Str,
    Boolean,
    Int,
    Uint,
    Float,
    Byte,
    Array,
    MapType,
    KeyType,
    ValueType,
    Interface,
}

/// One matched rule and the half-open byte span it covers.
#[derive(Clone, Copy, Debug, PartialEq, Eq, Structural)]
pub struct Token {
    pub rule: Rule,
    pub start: usize,
    pub end: usize,
}

/// Rejected input: the text does not match the requested rule.
#[derive(Clone, Copy, Debug, PartialEq, Eq, Structural)]
pub struct ParseError {}

// ---------------------------------------------------------------------------
// Character classes and scanners
// ---------------------------------------------------------------------------

pub open spec fn is_sp(c: u8) -> bool {
    c == ' ' as u8 || c == '\t' as u8
}

pub open spec fn is_nl(c: u8) -> bool {
    c == '\n' as u8 || c == '\r' as u8
}

pub open spec fn is_ws(c: u8) -> bool {
    is_sp(c) || is_nl(c)
}

pub open spec fn is_digit(c: u8) -> bool {
    '0' as u8 <= c <= '9' as u8
}

pub open spec fn is_alpha(c: u8) -> bool {
    ('a' as u8 <= c <= 'z' as u8) || ('A' as u8 <= c <= 'Z' as u8)
}

pub open spec fn is_ident_start(c: u8) -> bool {
    is_alpha(c) || c == '_' as u8
}

pub open spec fn is_ident_char(c: u8) -> bool {
    is_ident_start(c) || is_digit(c)
}

pub open spec fn is_json_name_char(c: u8) -> bool {
    c != '"' as u8 && c != ',' as u8 && !is_nl(c)
}

pub open spec fn is_package_name_char(c: u8) -> bool {
    c != '"' as u8 && !is_nl(c)
}

/// The first position at or after `pos` whose byte is not a space.
pub open spec fn scan_sp(b: Seq<u8>, pos: int) -> int
    decreases b.len() - pos,
{
    if 0 <= pos < b.len() && is_sp(b[pos]) {
        scan_sp(b, pos + 1)
    } else {
        pos
    }
}

/// The first position at or after `pos` whose byte is not whitespace.
pub open spec fn scan_ws(b: Seq<u8>, pos: int) -> int
    decreases b.len() - pos,
{
    if 0 <= pos < b.len() && is_ws(b[pos]) {
        scan_ws(b, pos + 1)
    } else {
        pos
    }
}

/// The first position at or after `pos` whose byte cannot continue an
/// identifier.
pub open spec fn scan_ident(b: Seq<u8>, pos: int) -> int
    decreases b.len() - pos,
{
    if 0 <= pos < b.len() && is_ident_char(b[pos]) {
        scan_ident(b, pos + 1)
    } else {
        pos
    }
}

/// The first position at or after `pos` that starts a new line (or the end).
pub open spec fn scan_line(b: Seq<u8>, pos: int) -> int
    decreases b.len() - pos,
{
    if 0 <= pos < b.len() && !is_nl(b[pos]) {
        scan_line(b, pos + 1)
    } else {
        pos
    }
}

/// The first position at or after `pos` whose byte cannot continue a json
/// field name.
pub open spec fn scan_json_name(b: Seq<u8>, pos: int) -> int
    decreases b.len() - pos,
{
    if 0 <= pos < b.len() && is_json_name_char(b[pos]) {
        scan_json_name(b, pos + 1)
    } else {
        pos
    }
}

/// The first position at or after `pos` whose byte cannot continue a package
/// path.
pub open spec fn scan_package_name(b: Seq<u8>, pos: int) -> int
    decreases b.len() - pos,
{
    if 0 <= pos < b.len() && is_package_name_char(b[pos]) {
        scan_package_name(b, pos + 1)
    } else {
        pos
    }
}

/// Every scanner stays within the buffer and never moves backwards.
proof fn lemma_scan_bounds(b: Seq<u8>, pos: int)
    requires
        0 <= pos <= b.len(),
    ensures
        pos <= scan_sp(b, pos) <= b.len(),
        pos <= scan_ws(b, pos) <= b.len(),
        pos <= scan_ident(b, pos) <= b.len(),
        pos <= scan_line(b, pos) <= b.len(),
        pos <= scan_json_name(b, pos) <= b.len(),
        pos <= scan_package_name(b, pos) <= b.len(),
    decreases b.len() - pos,
{
    if pos < b.len() {
        lemma_scan_bounds(b, pos + 1);
    }
}

fn sp_end(b: &[u8], pos: usize) -> (r: usize)
    requires
        pos <= b@.len(),
    ensures
        r == scan_sp(b@, pos as int),
        pos <= r <= b@.len(),
{
    let mut i: usize = pos;
    while i < b.len() && is_sp_exec(*slice_index_get(b, i))
        invariant
            pos <= i <= b@.len(),
            scan_sp(b@, pos as int) == scan_sp(b@, i as int),
        decreases b@.len() - i,
    {
        i = i + 1;
    }
    proof {
        lemma_scan_bounds(b@, pos as int);
    }
    i
}

pub(crate) fn ws_end(b: &[u8], pos: usize) -> (r: usize)
    requires
        pos <= b@.len(),
    ensures
        r == scan_ws(b@, pos as int),
        pos <= r <= b@.len(),
{
    let mut i: usize = pos;
    while i < b.len() && is_ws_exec(*slice_index_get(b, i))
        invariant
            pos <= i <= b@.len(),
            scan_ws(b@, pos as int) == scan_ws(b@, i as int),
        decreases b@.len() - i,
    {
        i = i + 1;
    }
    proof {
        lemma_scan_bounds(b@, pos as int);
    }
    i
}

fn ident_end(b: &[u8], pos: usize) -> (r: usize)
    requires
        pos <= b@.len(),
    ensures
        r == scan_ident(b@, pos as int),
        pos <= r <= b@.len(),
{
    let mut i: usize = pos;
    while i < b.len() && is_ident_char_exec(*slice_index_get(b, i))
        invariant
            pos <= i <= b@.len(),
            scan_ident(b@, pos as int) == scan_ident(b@, i as int),
        decreases b@.len() - i,
    {
        i = i + 1;
    }
    proof {
        lemma_scan_bounds(b@, pos as int);
    }
    i
}

fn line_end(b: &[u8], pos: usize) -> (r: usize)
    requires
        pos <= b@.len(),
    ensures
        r == scan_line(b@, pos as int),
        pos <= r <= b@.len(),
{
    let mut i: usize = pos;
    while i < b.len() && !is_nl_exec(*slice_index_get(b, i))
        invariant
            pos <= i <= b@.len(),
            scan_line(b@, pos as int) == scan_line(b@, i as int),
        decreases b@.len() - i,
    {
        i = i + 1;
    }
    proof {
        lemma_scan_bounds(b@, pos as int);
    }
    i
}

fn json_name_end(b: &[u8], pos: usize) -> (r: usize)
    requires
        pos <= b@.len(),
    ensures
        r == scan_json_name(b@, pos as int),
        pos <= r <= b@.len(),
{
    let mut i: usize = pos;
    while i < b.len() && is_json_name_char_exec(*slice_index_get(b, i))
        invariant
            pos <= i <= b@.len(),
            scan_json_name(b@, pos as int) == scan_json_name(b@, i as int),
        decreases b@.len() - i,
    {
        i = i + 1;
    }
    proof {
        lemma_scan_bounds(b@, pos as int);
    }
    i
}

fn package_name_end(b: &[u8], pos: usize) -> (r: usize)
    requires
        pos <= b@.len(),
    ensures
        r == scan_package_name(b@, pos as int),
        pos <= r <= b@.len(),
{
    let mut i: usize = pos;
    while i < b.len() && is_package_name_char_exec(*slice_index_get(b, i))
        invariant
            pos <= i <= b@.len(),
            scan_package_name(b@, pos as int) == scan_package_name(b@, i as int),
        decreases b@.len() - i,
    {
        i = i + 1;
    }
    proof {
        lemma_scan_bounds(b@, pos as int);
    }
    i
}

fn is_sp_exec(c: u8) -> (r: bool)
    ensures
        r == is_sp(c),
{
    c == ' ' as u8 || c == '\t' as u8
}

fn is_nl_exec(c: u8) -> (r: bool)
    ensures
        r == is_nl(c),
{
    c == '\n' as u8 || c == '\r' as u8
}

fn is_ws_exec(c: u8) -> (r: bool)
    ensures
        r == is_ws(c),
{
    is_sp_exec(c) || is_nl_exec(c)
}

fn is_ident_start_exec(c: u8) -> (r: bool)
    ensures
        r == is_ident_start(c),
{
    ('a' as u8 <= c && c <= 'z' as u8) || ('A' as u8 <= c && c <= 'Z' as u8) || c == '_' as u8
}

fn is_ident_char_exec(c: u8) -> (r: bool)
    ensures
        r == is_ident_char(c),
{
    is_ident_start_exec(c) || ('0' as u8 <= c && c <= '9' as u8)
}

fn is_json_name_char_exec(c: u8) -> (r: bool)
    ensures
        r == is_json_name_char(c),
{
    c != '"' as u8 && c != ',' as u8 && !is_nl_exec(c)
}

fn is_package_name_char_exec(c: u8) -> (r: bool)
    ensures
        r == is_package_name_char(c),
{
    c != '"' as u8 && !is_nl_exec(c)
}

// ---------------------------------------------------------------------------
// Fixed text
// ---------------------------------------------------------------------------

/// The bytes at `pos` spell the given text.
pub open spec fn match_str_at(b: Seq<u8>, pos: int, s: Seq<char>) -> bool {
    &&& 0 <= pos
    &&& pos + encode_utf8(s).len() <= b.len()
    &&& b.subrange(pos, pos + encode_utf8(s).len()) == encode_utf8(s)
}

fn match_lit(b: &[u8], pos: usize, lit: &str) -> (r: bool)
    requires
        pos <= b@.len(),
    ensures
        r == match_str_at(b@, pos as int, lit@),
{
    let l = lit.as_bytes();
    let blen = b.len();
    if blen - pos < l.len() {
        return false;
    }
    let mut i: usize = 0;
    while i < l.len()
        invariant
            i <= l@.len(),
            blen == b@.len(),
            pos + l@.len() <= blen,
            l@ == encode_utf8(lit@),
            forall|j: int| 0 <= j < i ==> b@[pos + j] == l@[j],
        decreases l@.len() - i,
    {
        if *slice_index_get(b, pos + i) != *slice_index_get(l, i) {
            assert(b@.subrange(pos as int, pos + l@.len()) != l@) by {
                assert(b@.subrange(pos as int, pos + l@.len())[i as int] == b@[pos + i]);
            }
            return false;
        }
        i = i + 1;
    }
    assert(b@.subrange(pos as int, pos + l@.len()) =~= l@);
    true
}

/// The length in bytes of the given text.
pub open spec fn lit_len(s: Seq<char>) -> int {
    encode_utf8(s).len() as int
}

fn lit_len_exec(lit: &str) -> (r: usize)
    ensures
        r == lit_len(lit@),
{
    lit.as_bytes().len()
}

/// The bytes at `pos` spell the given keyword, with no identifier character
/// straight after it.
pub open spec fn kw_at(b: Seq<u8>, pos: int, s: Seq<char>) -> bool {
    &&& match_str_at(b, pos, s)
    &&& (pos + lit_len(s) == b.len() || !is_ident_char(b[pos + lit_len(s)]))
}

fn match_kw(b: &[u8], pos: usize, lit: &str) -> (r: bool)
    requires
        pos <= b@.len(),
    ensures
        r == kw_at(b@, pos as int, lit@),
{
    if !match_lit(b, pos, lit) {
        return false;
    }
    let blen = b.len();
    assert(pos + lit_len(lit@) <= blen);
    let e = pos + lit_len_exec(lit);
    e == blen || !is_ident_char_exec(*slice_index_get(b, e))
}

/// The position right after the literal, when it matches at `pos`.
fn lit_end(b: &[u8], pos: usize, lit: &str) -> (r: Option<usize>)
    requires
        pos <= b@.len(),
    ensures
        match r {
            Some(e) => match_str_at(b@, pos as int, lit@) && e == pos + lit_len(lit@) && e
                <= b@.len(),
            None => !match_str_at(b@, pos as int, lit@),
        },
{
    if match_lit(b, pos, lit) {
        let blen = b.len();
        assert(pos + lit_len(lit@) <= blen);
        Some(pos + lit_len_exec(lit))
    } else {
        None
    }
}

/// The position right after the keyword, when it matches at `pos` with a
/// word boundary.
fn kw_end(b: &[u8], pos: usize, lit: &str) -> (r: Option<usize>)
    requires
        pos <= b@.len(),
    ensures
        match r {
            Some(e) => kw_at(b@, pos as int, lit@) && e == pos + lit_len(lit@) && e <= b@.len(),
            None => !kw_at(b@, pos as int, lit@),
        },
{
    if match_kw(b, pos, lit) {
        let blen = b.len();
        assert(pos + lit_len(lit@) <= blen);
        Some(pos + lit_len_exec(lit))
    } else {
        None
    }
}

// ---------------------------------------------------------------------------
// Type expressions
// ---------------------------------------------------------------------------

/// An identifier: a letter or underscore, then letters, digits and
/// underscores.
pub open spec fn spec_ident(b: Seq<u8>, pos: int) -> Option<(Seq<Token>, int)> {
    if 0 <= pos < b.len() && is_ident_start(b[pos]) {
        let e = scan_ident(b, pos + 1);
        Some((seq![Token { rule: Rule::Ident, start: pos as usize, end: e as usize }], e))
    } else {
        None
    }
}

fn p_ident(b: &[u8], pos: usize) -> (r: Option<(Vec<Token>, usize)>)
    requires
        pos <= b@.len(),
    ensures
        match r {
            Some((t, p)) => spec_ident(b@, pos as int) == Some((t@, p as int)) && p <= b@.len(),
            None => spec_ident(b@, pos as int) is None,
        },
{
    if pos < b.len() && is_ident_start_exec(*slice_index_get(b, pos)) {
        let e = ident_end(b, pos + 1);
        let out = vec![Token { rule: Rule::Ident, start: pos, end: e }];
        proof {
            assert(out@ =~= seq![Token { rule: Rule::Ident, start: pos, end: e }]);
        }
        Some((out, e))
    } else {
        None
    }
}

/// A qualified name: identifier, dot, identifier, as one token.
pub open spec fn spec_package_ident(b: Seq<u8>, pos: int) -> Option<(Seq<Token>, int)> {
    if 0 <= pos < b.len() && is_ident_start(b[pos]) {
        let e1 = scan_ident(b, pos + 1);
        if e1 + 1 < b.len() && b[e1] == '.' as u8 && is_ident_start(b[e1 + 1]) {
            let e2 = scan_ident(b, e1 + 2);
            Some((seq![Token { rule: Rule::PackageIdent, start: pos as usize, end: e2 as usize }], e2))
        } else {
            None
        }
    } else {
        None
    }
}

fn p_package_ident(b: &[u8], pos: usize) -> (r: Option<(Vec<Token>, usize)>)
    requires
        pos <= b@.len(),
    ensures
        match r {
            Some((t, p)) => spec_package_ident(b@, pos as int) == Some((t@, p as int)) && p
                <= b@.len(),
            None => spec_package_ident(b@, pos as int) is None,
        },
{
    if pos < b.len() && is_ident_start_exec(*slice_index_get(b, pos)) {
        let e1 = ident_end(b, pos + 1);
        if e1 < b.len() && *slice_index_get(b, e1) == '.' as u8 && e1 + 1 < b.len()
            && is_ident_start_exec(*slice_index_get(b, e1 + 1)) {
            let e2 = ident_end(b, e1 + 2);
            let out = vec![Token { rule: Rule::PackageIdent, start: pos, end: e2 }];
            proof {
                assert(out@ =~= seq![Token { rule: Rule::PackageIdent, start: pos, end: e2 }]);
            }
            Some((out, e2))
        } else {
            None
        }
    } else {
        None
    }
}

/// The primitive keyword at `pos`, if any: the named rule and the span.
pub open spec fn spec_primitive_kw(b: Seq<u8>, pos: int) -> Option<(Rule, int)> {
    if kw_at(b, pos, "string"@) {
        Some((Rule::Str, pos + lit_len("string"@)))
    } else if kw_at(b, pos, "bool"@) {
        Some((Rule::Boolean, pos + lit_len("bool"@)))
    } else if kw_at(b, pos, "byte"@) {
        Some((Rule::Byte, pos + lit_len("byte"@)))
    } else if kw_at(b, pos, "int64"@) {
        Some((Rule::Int, pos + lit_len("int64"@)))
    } else if kw_at(b, pos, "int32"@) {
        Some((Rule::Int, pos + lit_len("int32"@)))
    } else if kw_at(b, pos, "int"@) {
        Some((Rule::Int, pos + lit_len("int"@)))
    } else if kw_at(b, pos, "uint64"@) {
        Some((Rule::Uint, pos + lit_len("uint64"@)))
    } else if kw_at(b, pos, "uint32"@) {
        Some((Rule::Uint, pos + lit_len("uint32"@)))
    } else if kw_at(b, pos, "uint"@) {
        Some((Rule::Uint, pos + lit_len("uint"@)))
    } else if kw_at(b, pos, "float64"@) {
        Some((Rule::Float, pos + lit_len("float64"@)))
    } else if kw_at(b, pos, "float32"@) {
        Some((Rule::Float, pos + lit_len("float32"@)))
    } else if kw_at(b, pos, "float"@) {
        Some((Rule::Float, pos + lit_len("float"@)))
    } else {
        None
    }
}

/// A primitive type keyword, wrapped in its `primitive` token.
pub open spec fn spec_primitive(b: Seq<u8>, pos: int) -> Option<(Seq<Token>, int)> {
    match spec_primitive_kw(b, pos) {
        Some((rule, e)) => Some(
            (
                seq![
                    Token { rule: Rule::Primitive, start: pos as usize, end: e as usize },
                    Token { rule, start: pos as usize, end: e as usize },
                ],
                e,
            ),
        ),
        None => None,
    }
}

fn p_primitive_kw(b: &[u8], pos: usize) -> (r: Option<(Rule, usize)>)
    requires
        pos <= b@.len(),
    ensures
        match r {
            Some((rule, p)) => spec_primitive_kw(b@, pos as int) == Some((rule, p as int)) && p
                <= b@.len(),
            None => spec_primitive_kw(b@, pos as int) is None,
        },
{
    if let Some(e) = kw_end(b, pos, "string") {
        Some((Rule::Str, e))
    } else if let Some(e) = kw_end(b, pos, "bool") {
        Some((Rule::Boolean, e))
    } else if let Some(e) = kw_end(b, pos, "byte") {
        Some((Rule::Byte, e))
    } else if let Some(e) = kw_end(b, pos, "int64") {
        Some((Rule::Int, e))
    } else if let Some(e) = kw_end(b, pos, "int32") {
        Some((Rule::Int, e))
    } else if let Some(e) = kw_end(b, pos, "int") {
        Some((Rule::Int, e))
    } else if let Some(e) = kw_end(b, pos, "uint64") {
        Some((Rule::Uint, e))
    } else if let Some(e) = kw_end(b, pos, "uint32") {
        Some((Rule::Uint, e))
    } else if let Some(e) = kw_end(b, pos, "uint") {
        Some((Rule::Uint, e))
    } else if let Some(e) = kw_end(b, pos, "float64") {
        Some((Rule::Float, e))
    } else if let Some(e) = kw_end(b, pos, "float32") {
        Some((Rule::Float, e))
    } else if let Some(e) = kw_end(b, pos, "float") {
        Some((Rule::Float, e))
    } else {
        None
    }
}

fn p_primitive(b: &[u8], pos: usize) -> (r: Option<(Vec<Token>, usize)>)
    requires
        pos <= b@.len(),
    ensures
        match r {
            Some((t, p)) => spec_primitive(b@, pos as int) == Some((t@, p as int)) && p
                <= b@.len(),
            None => spec_primitive(b@, pos as int) is None,
        },
{
    match p_primitive_kw(b, pos) {
        Some((rule, e)) => {
            let out = vec![
                Token { rule: Rule::Primitive, start: pos, end: e },
                Token { rule, start: pos, end: e },
            ];
            proof {
                assert(out@ =~= seq![
                    Token { rule: Rule::Primitive, start: pos, end: e },
                    Token { rule, start: pos, end: e },
                ]);
            }
            Some((out, e))
        },
        None => None,
    }
}

/// The empty interface type, written `interface{}`.
pub open spec fn spec_interface(b: Seq<u8>, pos: int) -> Option<(Seq<Token>, int)> {
    if match_str_at(b, pos, "interface{}"@) {
        let e = pos + lit_len("interface{}"@);
        Some((seq![Token { rule: Rule::Interface, start: pos as usize, end: e as usize }], e))
    } else {
        None
    }
}

fn p_interface(b: &[u8], pos: usize) -> (r: Option<(Vec<Token>, usize)>)
    requires
        pos <= b@.len(),
    ensures
        match r {
            Some((t, p)) => spec_interface(b@, pos as int) == Some((t@, p as int)) && p
                <= b@.len(),
            None => spec_interface(b@, pos as int) is None,
        },
{
    if let Some(e) = lit_end(b, pos, "interface{}") {
        let out = vec![Token { rule: Rule::Interface, start: pos, end: e }];
        proof {
            assert(out@ =~= seq![Token { rule: Rule::Interface, start: pos, end: e }]);
        }
        Some((out, e))
    } else {
        None
    }
}

/// A map type: `map[` key `]` value. The key is a primitive; the value is
/// any type expression.
pub open spec fn spec_map(b: Seq<u8>, pos: int) -> Option<(Seq<Token>, int)>
    decreases b.len() - pos, 1int,
{
    if 0 <= pos && match_str_at(b, pos, "map["@) {
        let kpos = pos + lit_len("map["@);
        match spec_primitive(b, kpos) {
            Some((ktoks, ke)) => if ke < b.len() && b[ke] == ']' as u8 && ke + 1 > pos {
                match spec_value_type(b, ke + 1) {
                    Some((vtoks, ve)) => Some(
                        (
                            seq![Token { rule: Rule::MapType, start: pos as usize, end: ve as usize }]
                                + (seq![
                                Token { rule: Rule::KeyType, start: kpos as usize, end: ke as usize },
                            ] + ktoks) + vtoks,
                            ve,
                        ),
                    ),
                    None => None,
                }
            } else {
                None
            },
            None => None,
        }
    } else {
        None
    }
}

/// An array (slice) type: `[]` then a map, primitive or named element type.
pub open spec fn spec_array(b: Seq<u8>, pos: int) -> Option<(Seq<Token>, int)>
    decreases b.len() - pos, 2int,
{
    if 0 <= pos && match_str_at(b, pos, "[]"@) {
        let ipos = pos + lit_len("[]"@);
        let inner = if ipos > pos {
            if spec_map(b, ipos) is Some {
                spec_map(b, ipos)
            } else if spec_primitive(b, ipos) is Some {
                spec_primitive(b, ipos)
            } else {
                spec_ident(b, ipos)
            }
        } else {
            None
        };
        match inner {
            Some((itoks, ie)) => Some(
                (
                    seq![Token { rule: Rule::Array, start: pos as usize, end: ie as usize }]
                        + itoks,
                    ie,
                ),
            ),
            None => None,
        }
    } else {
        None
    }
}

/// Any type expression: array, map, interface, primitive, qualified or plain
/// name — the first of these that matches.
pub open spec fn spec_type_inner(b: Seq<u8>, pos: int) -> Option<(Seq<Token>, int)>
    decreases b.len() - pos, 3int,
{
    if spec_array(b, pos) is Some {
        spec_array(b, pos)
    } else if spec_map(b, pos) is Some {
        spec_map(b, pos)
    } else if spec_interface(b, pos) is Some {
        spec_interface(b, pos)
    } else if spec_primitive(b, pos) is Some {
        spec_primitive(b, pos)
    } else if spec_package_ident(b, pos) is Some {
        spec_package_ident(b, pos)
    } else {
        spec_ident(b, pos)
    }
}

/// The value position of a map type, wrapped in its `value_type` token.
pub open spec fn spec_value_type(b: Seq<u8>, pos: int) -> Option<(Seq<Token>, int)>
    decreases b.len() - pos, 4int,
{
    match spec_type_inner(b, pos) {
        Some((itoks, ie)) => Some(
            (
                seq![Token { rule: Rule::ValueType, start: pos as usize, end: ie as usize }]
                    + itoks,
                ie,
            ),
        ),
        None => None,
    }
}

/// The type position of a struct field, wrapped in its own token.
pub open spec fn spec_struct_field_type(b: Seq<u8>, pos: int) -> Option<(Seq<Token>, int)> {
    match spec_type_inner(b, pos) {
        Some((itoks, ie)) => Some(
            (
                seq![Token { rule: Rule::StructFieldType, start: pos as usize, end: ie as usize }]
                    + itoks,
                ie,
            ),
        ),
        None => None,
    }
}

#[verifier::rlimit(100)]
fn p_map(b: &[u8], pos: usize) -> (r: Option<(Vec<Token>, usize)>)
    requires
        pos <= b@.len(),
    ensures
        match r {
            Some((t, p)) => spec_map(b@, pos as int) == Some((t@, p as int)) && p <= b@.len(),
            None => spec_map(b@, pos as int) is None,
        },
    decreases b@.len() - pos, 1int,
{
    if let Some(kpos) = lit_end(b, pos, "map[") {
        match p_primitive(b, kpos) {
            Some((mut ktoks, ke)) => {
                if ke < b.len() && *slice_index_get(b, ke) == ']' as u8 && ke + 1 > pos {
                    match p_value_type(b, ke + 1) {
                        Some((mut vtoks, ve)) => {
                            let ghost kview = ktoks@;
                            let ghost vview = vtoks@;
                            let mut out = vec![
                                Token { rule: Rule::MapType, start: pos, end: ve },
                                Token { rule: Rule::KeyType, start: kpos, end: ke },
                            ];
                            out.append(&mut ktoks);
                            out.append(&mut vtoks);
                            proof {
                                assert(out@ =~= seq![
                                    Token { rule: Rule::MapType, start: pos, end: ve },
                                ] + (seq![Token { rule: Rule::KeyType, start: kpos, end: ke }]
                                    + kview) + vview);
                            }
                            Some((out, ve))
                        },
                        None => None,
                    }
                } else {
                    None
                }
            },
            None => None,
        }
    } else {
        None
    }
}

fn p_array(b: &[u8], pos: usize) -> (r: Option<(Vec<Token>, usize)>)
    requires
        pos <= b@.len(),
    ensures
        match r {
            Some((t, p)) => spec_array(b@, pos as int) == Some((t@, p as int)) && p <= b@.len(),
            None => spec_array(b@, pos as int) is None,
        },
    decreases b@.len() - pos, 2int,
{
    if let Some(ipos) = lit_end(b, pos, "[]") {
        let inner = if ipos > pos {
            match p_map(b, ipos) {
                Some(v) => Some(v),
                None => match p_primitive(b, ipos) {
                    Some(v) => Some(v),
                    None => p_ident(b, ipos),
                },
            }
        } else {
            None
        };
        match inner {
            Some((mut itoks, ie)) => {
                let ghost iview = itoks@;
                let mut out = vec![Token { rule: Rule::Array, start: pos, end: ie }];
                out.append(&mut itoks);
                proof {
                    assert(out@ =~= seq![Token { rule: Rule::Array, start: pos, end: ie }]
                        + iview);
                }
                Some((out, ie))
            },
            None => None,
        }
    } else {
        None
    }
}

fn p_type_inner(b: &[u8], pos: usize) -> (r: Option<(Vec<Token>, usize)>)
    requires
        pos <= b@.len(),
    ensures
        match r {
            Some((t, p)) => spec_type_inner(b@, pos as int) == Some((t@, p as int)) && p
                <= b@.len(),
            None => spec_type_inner(b@, pos as int) is None,
        },
    decreases b@.len() - pos, 3int,
{
    match p_array(b, pos) {
        Some(v) => Some(v),
        None => match p_map(b, pos) {
            Some(v) => Some(v),
            None => match p_interface(b, pos) {
                Some(v) => Some(v),
                None => match p_primitive(b, pos) {
                    Some(v) => Some(v),
                    None => match p_package_ident(b, pos) {
                        Some(v) => Some(v),
                        None => p_ident(b, pos),
                    },
                },
            },
        },
    }
}

fn p_value_type(b: &[u8], pos: usize) -> (r: Option<(Vec<Token>, usize)>)
    requires
        pos <= b@.len(),
    ensures
        match r {
            Some((t, p)) => spec_value_type(b@, pos as int) == Some((t@, p as int)) && p
                <= b@.len(),
            None => spec_value_type(b@, pos as int) is None,
        },
    decreases b@.len() - pos, 4int,
{
    match p_type_inner(b, pos) {
        Some((mut itoks, ie)) => {
            let ghost iview = itoks@;
            let mut out = vec![Token { rule: Rule::ValueType, start: pos, end: ie }];
            out.append(&mut itoks);
            proof {
                assert(out@ =~= seq![Token { rule: Rule::ValueType, start: pos, end: ie }]
                    + iview);
            }
            Some((out, ie))
        },
        None => None,
    }
}

fn p_struct_field_type(b: &[u8], pos: usize) -> (r: Option<(Vec<Token>, usize)>)
    requires
        pos <= b@.len(),
    ensures
        match r {
            Some((t, p)) => spec_struct_field_type(b@, pos as int) == Some((t@, p as int)) && p
                <= b@.len(),
            None => spec_struct_field_type(b@, pos as int) is None,
        },
{
    match p_type_inner(b, pos) {
        Some((mut itoks, ie)) => {
            let ghost iview = itoks@;
            let mut out = vec![Token { rule: Rule::StructFieldType, start: pos, end: ie }];
            out.append(&mut itoks);
            proof {
                assert(out@ =~= seq![Token { rule: Rule::StructFieldType, start: pos, end: ie }]
                    + iview);
            }
            Some((out, ie))
        },
        None => None,
    }
}

// ---------------------------------------------------------------------------
// Comments, tags and struct fields
// ---------------------------------------------------------------------------

/// A line comment: `//` to the end of the line.
pub open spec fn spec_any_comment(b: Seq<u8>, pos: int) -> Option<(Seq<Token>, int)> {
    if match_str_at(b, pos, "//"@) {
        let e = scan_line(b, pos + lit_len("//"@));
        Some((seq![Token { rule: Rule::AnyComment, start: pos as usize, end: e as usize }], e))
    } else {
        None
    }
}

fn p_any_comment(b: &[u8], pos: usize) -> (r: Option<(Vec<Token>, usize)>)
    requires
        pos <= b@.len(),
    ensures
        match r {
            Some((t, p)) => spec_any_comment(b@, pos as int) == Some((t@, p as int)) && p
                <= b@.len(),
            None => spec_any_comment(b@, pos as int) is None,
        },
{
    match lit_end(b, pos, "//") {
        Some(c) => {
            let e = line_end(b, c);
            let out = vec![Token { rule: Rule::AnyComment, start: pos, end: e }];
            proof {
                assert(out@ =~= seq![Token { rule: Rule::AnyComment, start: pos, end: e }]);
            }
            Some((out, e))
        },
        None => None,
    }
}

/// A json field name inside a tag: anything up to a quote or comma.
pub open spec fn spec_json_name(b: Seq<u8>, pos: int) -> Option<(Seq<Token>, int)> {
    let e = scan_json_name(b, pos);
    if 0 <= pos && e > pos {
        Some((seq![Token { rule: Rule::JsonName, start: pos as usize, end: e as usize }], e))
    } else {
        None
    }
}

fn p_json_name(b: &[u8], pos: usize) -> (r: Option<(Vec<Token>, usize)>)
    requires
        pos <= b@.len(),
    ensures
        match r {
            Some((t, p)) => spec_json_name(b@, pos as int) == Some((t@, p as int)) && p
                <= b@.len(),
            None => spec_json_name(b@, pos as int) is None,
        },
{
    let e = json_name_end(b, pos);
    if e > pos {
        let out = vec![Token { rule: Rule::JsonName, start: pos, end: e }];
        proof {
            assert(out@ =~= seq![Token { rule: Rule::JsonName, start: pos, end: e }]);
        }
        Some((out, e))
    } else {
        None
    }
}

/// A struct tag: `` `json:"name,omitempty"` ``, optionally followed by a
/// trailing line comment that the tag token absorbs.
pub open spec fn spec_json_mapping(b: Seq<u8>, pos: int) -> Option<(Seq<Token>, int)> {
    if match_str_at(b, pos, "`json:\""@) {
        let npos = pos + lit_len("`json:\""@);
        match spec_json_name(b, npos) {
            Some((ntoks, ne)) => {
                let omit = match_str_at(b, ne, ",omitempty"@);
                let otoks: Seq<Token> = if omit {
                    seq![
                        Token {
                            rule: Rule::OmitEmpty,
                            start: ne as usize,
                            end: (ne + lit_len(",omitempty"@)) as usize,
                        },
                    ]
                } else {
                    seq![]
                };
                let oe = if omit {
                    ne + lit_len(",omitempty"@)
                } else {
                    ne
                };
                if match_str_at(b, oe, "\"`"@) {
                    let ce = oe + lit_len("\"`"@);
                    let q = scan_sp(b, ce);
                    match spec_any_comment(b, q) {
                        Some((ctoks, cend)) => Some(
                            (
                                seq![
                                    Token {
                                        rule: Rule::JsonMapping,
                                        start: pos as usize,
                                        end: cend as usize,
                                    },
                                ] + ntoks + otoks + ctoks,
                                cend,
                            ),
                        ),
                        None => Some(
                            (
                                seq![
                                    Token {
                                        rule: Rule::JsonMapping,
                                        start: pos as usize,
                                        end: ce as usize,
                                    },
                                ] + ntoks + otoks,
                                ce,
                            ),
                        ),
                    }
                } else {
                    None
                }
            },
            None => None,
        }
    } else {
        None
    }
}

fn p_json_mapping(b: &[u8], pos: usize) -> (r: Option<(Vec<Token>, usize)>)
    requires
        pos <= b@.len(),
    ensures
        match r {
            Some((t, p)) => spec_json_mapping(b@, pos as int) == Some((t@, p as int)) && p
                <= b@.len(),
            None => spec_json_mapping(b@, pos as int) is None,
        },
{
    let npos = match lit_end(b, pos, "`json:\"") {
        Some(v) => v,
        None => {
            return None;
        },
    };
    let (mut ntoks, ne) = match p_json_name(b, npos) {
        Some(v) => v,
        None => {
            return None;
        },
    };
    let ghost nview = ntoks@;
    let (mut otoks, oe): (Vec<Token>, usize) = match lit_end(b, ne, ",omitempty") {
        Some(e) => (vec![Token { rule: Rule::OmitEmpty, start: ne, end: e }], e),
        None => (Vec::new(), ne),
    };
    let ghost oview = otoks@;
    let ce = match lit_end(b, oe, "\"`") {
        Some(v) => v,
        None => {
            return None;
        },
    };
    let q = sp_end(b, ce);
    match p_any_comment(b, q) {
        Some((mut ctoks, cend)) => {
            let ghost cview = ctoks@;
            let mut out = vec![Token { rule: Rule::JsonMapping, start: pos, end: cend }];
            out.append(&mut ntoks);
            out.append(&mut otoks);
            out.append(&mut ctoks);
            proof {
                assert(out@ =~= seq![Token { rule: Rule::JsonMapping, start: pos, end: cend }]
                    + nview + oview + cview);
            }
            Some((out, cend))
        },
        None => {
            let mut out = vec![Token { rule: Rule::JsonMapping, start: pos, end: ce }];
            out.append(&mut ntoks);
            out.append(&mut otoks);
            proof {
                assert(out@ =~= seq![Token { rule: Rule::JsonMapping, start: pos, end: ce }]
                    + nview + oview);
            }
            Some((out, ce))
        },
    }
}

/// One struct field: name, optional pointer mark, type, then optionally a
/// json tag; trailing spaces on the same line belong to the field.
pub open spec fn spec_struct_field(b: Seq<u8>, pos: int) -> Option<(Seq<Token>, int)> {
    match spec_ident(b, pos) {
        Some((itoks, ie)) => {
            let p2 = scan_sp(b, ie);
            if p2 > ie {
                let ptr = p2 < b.len() && b[p2] == '*' as u8;
                let ptoks: Seq<Token> = if ptr {
                    seq![Token { rule: Rule::Pointer, start: p2 as usize, end: (p2 + 1) as usize }]
                } else {
                    seq![]
                };
                let p3 = if ptr {
                    p2 + 1
                } else {
                    p2
                };
                match spec_struct_field_type(b, p3) {
                    Some((ttoks, te)) => {
                        let p5 = scan_sp(b, te);
                        match spec_json_mapping(b, p5) {
                            Some((jtoks, je)) => {
                                let fend = scan_sp(b, je);
                                Some(
                                    (
                                        seq![
                                            Token {
                                                rule: Rule::StructField,
                                                start: pos as usize,
                                                end: fend as usize,
                                            },
                                        ] + itoks + ptoks + ttoks + jtoks,
                                        fend,
                                    ),
                                )
                            },
                            None => Some(
                                (
                                    seq![
                                        Token {
                                            rule: Rule::StructField,
                                            start: pos as usize,
                                            end: p5 as usize,
                                        },
                                    ] + itoks + ptoks + ttoks,
                                    p5,
                                ),
                            ),
                        }
                    },
                    None => None,
                }
            } else {
                None
            }
        },
        None => None,
    }
}

fn p_struct_field(b: &[u8], pos: usize) -> (r: Option<(Vec<Token>, usize)>)
    requires
        pos <= b@.len(),
    ensures
        match r {
            Some((t, p)) => spec_struct_field(b@, pos as int) == Some((t@, p as int)) && p
                <= b@.len(),
            None => spec_struct_field(b@, pos as int) is None,
        },
{
    let (mut itoks, ie) = match p_ident(b, pos) {
        Some(v) => v,
        None => {
            return None;
        },
    };
    let ghost iview = itoks@;
    let p2 = sp_end(b, ie);
    if p2 <= ie {
        return None;
    }
    let ptr = p2 < b.len() && *slice_index_get(b, p2) == '*' as u8;
    let (mut ptoks, p3): (Vec<Token>, usize) = if ptr {
        (vec![Token { rule: Rule::Pointer, start: p2, end: p2 + 1 }], p2 + 1)
    } else {
        (Vec::new(), p2)
    };
    let ghost pview = ptoks@;
    let (mut ttoks, te) = match p_struct_field_type(b, p3) {
        Some(v) => v,
        None => {
            return None;
        },
    };
    let ghost tview = ttoks@;
    let p5 = sp_end(b, te);
    match p_json_mapping(b, p5) {
        Some((mut jtoks, je)) => {
            let ghost jview = jtoks@;
            let fend = sp_end(b, je);
            let mut out = vec![Token { rule: Rule::StructField, start: pos, end: fend }];
            out.append(&mut itoks);
            out.append(&mut ptoks);
            out.append(&mut ttoks);
            out.append(&mut jtoks);
            proof {
                assert(out@ =~= seq![Token { rule: Rule::StructField, start: pos, end: fend }]
                    + iview + pview + tview + jview);
            }
            Some((out, fend))
        },
        None => {
            let mut out = vec![Token { rule: Rule::StructField, start: pos, end: p5 }];
            out.append(&mut itoks);
            out.append(&mut ptoks);
            out.append(&mut ttoks);
            proof {
                assert(out@ =~= seq![Token { rule: Rule::StructField, start: pos, end: p5 }]
                    + iview + pview + tview);
            }
            Some((out, p5))
        },
    }
}

/// Further fields after the first, each separated by at least one whitespace
/// character; stops before whatever is not a field.
pub open spec fn spec_fields_more(b: Seq<u8>, pos: int) -> (Seq<Token>, int)
    decreases b.len() - pos,
{
    let q = scan_ws(b, pos);
    if q > pos {
        match spec_struct_field(b, q) {
            Some((ftoks, p2)) => if p2 > pos && p2 <= b.len() {
                let rest = spec_fields_more(b, p2);
                (ftoks + rest.0, rest.1)
            } else {
                (seq![], pos)
            },
            None => (seq![], pos),
        }
    } else {
        (seq![], pos)
    }
}

fn p_fields_more(b: &[u8], pos: usize) -> (r: (Vec<Token>, usize))
    requires
        pos <= b@.len(),
    ensures
        spec_fields_more(b@, pos as int) == (r.0@, r.1 as int),
        r.1 <= b@.len(),
    decreases b@.len() - pos,
{
    let q = ws_end(b, pos);
    if q > pos {
        match p_struct_field(b, q) {
            Some((mut ftoks, p2)) => {
                if p2 > pos {
                    let ghost fview = ftoks@;
                    let (mut rest, pend) = p_fields_more(b, p2);
                    let ghost rview = rest@;
                    let mut out = ftoks;
                    out.append(&mut rest);
                    proof {
                        assert(out@ =~= fview + rview);
                    }
                    (out, pend)
                } else {
                    (Vec::new(), pos)
                }
            },
            None => (Vec::new(), pos),
        }
    } else {
        (Vec::new(), pos)
    }
}

/// The fields of a struct body: one or more fields; the span runs from the
/// first field's start to the last field's end.
pub open spec fn spec_struct_fields(b: Seq<u8>, pos: int) -> Option<(Seq<Token>, int)> {
    match spec_struct_field(b, pos) {
        Some((ftoks, p1)) => {
            let rest = spec_fields_more(b, p1);
            Some(
                (
                    seq![
                        Token {
                            rule: Rule::StructFields,
                            start: pos as usize,
                            end: rest.1 as usize,
                        },
                    ] + ftoks + rest.0,
                    rest.1,
                ),
            )
        },
        None => None,
    }
}

fn p_struct_fields(b: &[u8], pos: usize) -> (r: Option<(Vec<Token>, usize)>)
    requires
        pos <= b@.len(),
    ensures
        match r {
            Some((t, p)) => spec_struct_fields(b@, pos as int) == Some((t@, p as int)) && p
                <= b@.len(),
            None => spec_struct_fields(b@, pos as int) is None,
        },
{
    match p_struct_field(b, pos) {
        Some((mut ftoks, p1)) => {
            let ghost fview = ftoks@;
            let (mut rest, pend) = p_fields_more(b, p1);
            let ghost rview = rest@;
            let mut out = vec![Token { rule: Rule::StructFields, start: pos, end: pend }];
            out.append(&mut ftoks);
            out.append(&mut rest);
            proof {
                assert(out@ =~= seq![Token { rule: Rule::StructFields, start: pos, end: pend }]
                    + fview + rview);
            }
            Some((out, pend))
        },
        None => None,
    }
}

/// `type`, the struct's name, then `struct`.
pub open spec fn spec_struct_preamble(b: Seq<u8>, pos: int) -> Option<(Seq<Token>, int)> {
    if match_str_at(b, pos, "type"@) {
        let p1 = pos + lit_len("type"@);
        let p2 = scan_sp(b, p1);
        if p2 > p1 {
            match spec_ident(b, p2) {
                Some((itoks, ie)) => {
                    let p3 = scan_sp(b, ie);
                    if p3 > ie && kw_at(b, p3, "struct"@) {
                        let e = p3 + lit_len("struct"@);
                        Some(
                            (
                                seq![
                                    Token {
                                        rule: Rule::StructPreamble,
                                        start: pos as usize,
                                        end: e as usize,
                                    },
                                    Token {
                                        rule: Rule::StructName,
                                        start: p2 as usize,
                                        end: ie as usize,
                                    },
                                ] + itoks,
                                e,
                            ),
                        )
                    } else {
                        None
                    }
                },
                None => None,
            }
        } else {
            None
        }
    } else {
        None
    }
}

fn p_struct_preamble(b: &[u8], pos: usize) -> (r: Option<(Vec<Token>, usize)>)
    requires
        pos <= b@.len(),
    ensures
        match r {
            Some((t, p)) => spec_struct_preamble(b@, pos as int) == Some((t@, p as int)) && p
                <= b@.len(),
            None => spec_struct_preamble(b@, pos as int) is None,
        },
{
    let p1 = match lit_end(b, pos, "type") {
        Some(v) => v,
        None => {
            return None;
        },
    };
    let p2 = sp_end(b, p1);
    if p2 <= p1 {
        return None;
    }
    let (mut itoks, ie) = match p_ident(b, p2) {
        Some(v) => v,
        None => {
            return None;
        },
    };
    let ghost iview = itoks@;
    let p3 = sp_end(b, ie);
    if p3 <= ie {
        return None;
    }
    match kw_end(b, p3, "struct") {
        Some(e) => {
            let mut out = vec![
                Token { rule: Rule::StructPreamble, start: pos, end: e },
                Token { rule: Rule::StructName, start: p2, end: ie },
            ];
            out.append(&mut itoks);
            proof {
                assert(out@ =~= seq![
                    Token { rule: Rule::StructPreamble, start: pos, end: e },
                    Token { rule: Rule::StructName, start: p2, end: ie },
                ] + iview);
            }
            Some((out, e))
        },
        None => None,
    }
}

/// A whole struct definition: preamble, then a brace-enclosed body that is
/// empty or holds fields.
pub open spec fn spec_struct_def(b: Seq<u8>, pos: int) -> Option<(Seq<Token>, int)> {
    match spec_struct_preamble(b, pos) {
        Some((ptoks, p1)) => {
            let q = scan_sp(b, p1);
            if q < b.len() && b[q] == '{' as u8 {
                let r = scan_ws(b, q + 1);
                if r < b.len() && b[r] == '}' as u8 {
                    let e = r + 1;
                    Some(
                        (
                            seq![
                                Token {
                                    rule: Rule::StructDef,
                                    start: pos as usize,
                                    end: e as usize,
                                },
                            ] + ptoks,
                            e,
                        ),
                    )
                } else {
                    match spec_struct_fields(b, r) {
                        Some((ftoks, p2)) => {
                            let s = scan_ws(b, p2);
                            if s < b.len() && b[s] == '}' as u8 {
                                let e = s + 1;
                                Some(
                                    (
                                        seq![
                                            Token {
                                                rule: Rule::StructDef,
                                                start: pos as usize,
                                                end: e as usize,
                                            },
                                        ] + ptoks + ftoks,
                                        e,
                                    ),
                                )
                            } else {
                                None
                            }
                        },
                        None => None,
                    }
                }
            } else {
                None
            }
        },
        None => None,
    }
}

fn p_struct_def(b: &[u8], pos: usize) -> (r: Option<(Vec<Token>, usize)>)
    requires
        pos <= b@.len(),
    ensures
        match r {
            Some((t, p)) => spec_struct_def(b@, pos as int) == Some((t@, p as int)) && p
                <= b@.len(),
            None => spec_struct_def(b@, pos as int) is None,
        },
{
    let (mut ptoks, p1) = match p_struct_preamble(b, pos) {
        Some(v) => v,
        None => {
            return None;
        },
    };
    let ghost pview = ptoks@;
    let q = sp_end(b, p1);
    if !(q < b.len() && *slice_index_get(b, q) == '{' as u8) {
        return None;
    }
    let r = ws_end(b, q + 1);
    if r < b.len() && *slice_index_get(b, r) == '}' as u8 {
        let e = r + 1;
        let mut out = vec![Token { rule: Rule::StructDef, start: pos, end: e }];
        out.append(&mut ptoks);
        proof {
            assert(out@ =~= seq![Token { rule: Rule::StructDef, start: pos, end: e }] + pview);
        }
        return Some((out, e));
    }
    match p_struct_fields(b, r) {
        Some((mut ftoks, p2)) => {
            let ghost fview = ftoks@;
            let s = ws_end(b, p2);
            if s < b.len() && *slice_index_get(b, s) == '}' as u8 {
                let e = s + 1;
                let mut out = vec![Token { rule: Rule::StructDef, start: pos, end: e }];
                out.append(&mut ptoks);
                out.append(&mut ftoks);
                proof {
                    assert(out@ =~= seq![Token { rule: Rule::StructDef, start: pos, end: e }]
                        + pview + fview);
                }
                Some((out, e))
            } else {
                None
            }
        },
        None => None,
    }
}

// ---------------------------------------------------------------------------
// Package, imports and type aliases
// ---------------------------------------------------------------------------

/// `package` and the package's name.
pub open spec fn spec_package_def(b: Seq<u8>, pos: int) -> Option<(Seq<Token>, int)> {
    if match_str_at(b, pos, "package"@) {
        let p1 = pos + lit_len("package"@);
        let p2 = scan_sp(b, p1);
        if p2 > p1 {
            match spec_ident(b, p2) {
                Some((itoks, ie)) => Some(
                    (
                        seq![
                            Token {
                                rule: Rule::PackageDef,
                                start: pos as usize,
                                end: ie as usize,
                            },
                        ] + itoks,
                        ie,
                    ),
                ),
                None => None,
            }
        } else {
            None
        }
    } else {
        None
    }
}

fn p_package_def(b: &[u8], pos: usize) -> (r: Option<(Vec<Token>, usize)>)
    requires
        pos <= b@.len(),
    ensures
        match r {
            Some((t, p)) => spec_package_def(b@, pos as int) == Some((t@, p as int)) && p
                <= b@.len(),
            None => spec_package_def(b@, pos as int) is None,
        },
{
    let p1 = match lit_end(b, pos, "package") {
        Some(v) => v,
        None => {
            return None;
        },
    };
    let p2 = sp_end(b, p1);
    if p2 <= p1 {
        return None;
    }
    match p_ident(b, p2) {
        Some((mut itoks, ie)) => {
            let ghost iview = itoks@;
            let mut out = vec![Token { rule: Rule::PackageDef, start: pos, end: ie }];
            out.append(&mut itoks);
            proof {
                assert(out@ =~= seq![Token { rule: Rule::PackageDef, start: pos, end: ie }]
                    + iview);
            }
            Some((out, ie))
        },
        None => None,
    }
}

/// A quoted package path.
pub open spec fn spec_import_package(b: Seq<u8>, pos: int) -> Option<(Seq<Token>, int)> {
    if 0 <= pos < b.len() && b[pos] == '"' as u8 {
        let ne = scan_package_name(b, pos + 1);
        if ne > pos + 1 && ne < b.len() && b[ne] == '"' as u8 {
            let e = ne + 1;
            Some(
                (
                    seq![
                        Token { rule: Rule::ImportPackage, start: pos as usize, end: e as usize },
                        Token {
                            rule: Rule::PackageName,
                            start: (pos + 1) as usize,
                            end: ne as usize,
                        },
                    ],
                    e,
                ),
            )
        } else {
            None
        }
    } else {
        None
    }
}

fn p_import_package(b: &[u8], pos: usize) -> (r: Option<(Vec<Token>, usize)>)
    requires
        pos <= b@.len(),
    ensures
        match r {
            Some((t, p)) => spec_import_package(b@, pos as int) == Some((t@, p as int)) && p
                <= b@.len(),
            None => spec_import_package(b@, pos as int) is None,
        },
{
    if pos < b.len() && *slice_index_get(b, pos) == '"' as u8 {
        let ne = package_name_end(b, pos + 1);
        if ne > pos + 1 && ne < b.len() && *slice_index_get(b, ne) == '"' as u8 {
            let e = ne + 1;
            let out = vec![
                Token { rule: Rule::ImportPackage, start: pos, end: e },
                Token { rule: Rule::PackageName, start: pos + 1, end: ne },
            ];
            proof {
                assert(out@ =~= seq![
                    Token { rule: Rule::ImportPackage, start: pos, end: e },
                    Token { rule: Rule::PackageName, start: (pos + 1) as usize, end: ne },
                ]);
            }
            Some((out, e))
        } else {
            None
        }
    } else {
        None
    }
}

/// A single import clause.
pub open spec fn spec_import(b: Seq<u8>, pos: int) -> Option<(Seq<Token>, int)> {
    if match_str_at(b, pos, "import"@) {
        let p1 = pos + lit_len("import"@);
        let p2 = scan_sp(b, p1);
        if p2 > p1 {
            match spec_import_package(b, p2) {
                Some((ptoks, pe)) => Some(
                    (
                        seq![Token { rule: Rule::Import, start: pos as usize, end: pe as usize }]
                            + ptoks,
                        pe,
                    ),
                ),
                None => None,
            }
        } else {
            None
        }
    } else {
        None
    }
}

fn p_import(b: &[u8], pos: usize) -> (r: Option<(Vec<Token>, usize)>)
    requires
        pos <= b@.len(),
    ensures
        match r {
            Some((t, p)) => spec_import(b@, pos as int) == Some((t@, p as int)) && p <= b@.len(),
            None => spec_import(b@, pos as int) is None,
        },
{
    let p1 = match lit_end(b, pos, "import") {
        Some(v) => v,
        None => {
            return None;
        },
    };
    let p2 = sp_end(b, p1);
    if p2 <= p1 {
        return None;
    }
    match p_import_package(b, p2) {
        Some((mut ptoks, pe)) => {
            let ghost pview = ptoks@;
            let mut out = vec![Token { rule: Rule::Import, start: pos, end: pe }];
            out.append(&mut ptoks);
            proof {
                assert(out@ =~= seq![Token { rule: Rule::Import, start: pos, end: pe }] + pview);
            }
            Some((out, pe))
        },
        None => None,
    }
}

/// The quoted package paths inside a grouped import, each preceded by
/// whitespace; ends right after the last path.
pub open spec fn spec_import_pkgs(b: Seq<u8>, pos: int) -> (Seq<Token>, int)
    decreases b.len() - pos,
{
    let q = scan_ws(b, pos);
    match spec_import_package(b, q) {
        Some((ptoks, pe)) => if pe > pos && pe <= b.len() {
            let rest = spec_import_pkgs(b, pe);
            (ptoks + rest.0, rest.1)
        } else {
            (seq![], pos)
        },
        None => (seq![], pos),
    }
}

fn p_import_pkgs(b: &[u8], pos: usize) -> (r: (Vec<Token>, usize))
    requires
        pos <= b@.len(),
    ensures
        spec_import_pkgs(b@, pos as int) == (r.0@, r.1 as int),
        r.1 <= b@.len(),
    decreases b@.len() - pos,
{
    let q = ws_end(b, pos);
    match p_import_package(b, q) {
        Some((mut ptoks, pe)) => {
            if pe > pos {
                let ghost pview = ptoks@;
                let (mut rest, rend) = p_import_pkgs(b, pe);
                let ghost rview = rest@;
                let mut out = ptoks;
                out.append(&mut rest);
                proof {
                    assert(out@ =~= pview + rview);
                }
                (out, rend)
            } else {
                (Vec::new(), pos)
            }
        },
        None => (Vec::new(), pos),
    }
}

/// A grouped import clause: `import ( ... )`.
pub open spec fn spec_import_multiple(b: Seq<u8>, pos: int) -> Option<(Seq<Token>, int)> {
    if match_str_at(b, pos, "import"@) {
        let p1 = pos + lit_len("import"@);
        let p2 = scan_sp(b, p1);
        if p2 < b.len() && b[p2] == '(' as u8 && p2 + 1 <= b.len() {
            let pkgs = spec_import_pkgs(b, p2 + 1);
            let s = scan_ws(b, pkgs.1);
            if s < b.len() && b[s] == ')' as u8 {
                let e = s + 1;
                Some(
                    (
                        seq![
                            Token {
                                rule: Rule::ImportMultiple,
                                start: pos as usize,
                                end: e as usize,
                            },
                        ] + pkgs.0,
                        e,
                    ),
                )
            } else {
                None
            }
        } else {
            None
        }
    } else {
        None
    }
}

fn p_import_multiple(b: &[u8], pos: usize) -> (r: Option<(Vec<Token>, usize)>)
    requires
        pos <= b@.len(),
    ensures
        match r {
            Some((t, p)) => spec_import_multiple(b@, pos as int) == Some((t@, p as int)) && p
                <= b@.len(),
            None => spec_import_multiple(b@, pos as int) is None,
        },
{
    let p1 = match lit_end(b, pos, "import") {
        Some(v) => v,
        None => {
            return None;
        },
    };
    let p2 = sp_end(b, p1);
    if !(p2 < b.len() && *slice_index_get(b, p2) == '(' as u8) {
        return None;
    }
    let (mut pkgs, pend) = p_import_pkgs(b, p2 + 1);
    let ghost pkview = pkgs@;
    let s = ws_end(b, pend);
    if s < b.len() && *slice_index_get(b, s) == ')' as u8 {
        let e = s + 1;
        let mut out = vec![Token { rule: Rule::ImportMultiple, start: pos, end: e }];
        out.append(&mut pkgs);
        proof {
            assert(out@ =~= seq![Token { rule: Rule::ImportMultiple, start: pos, end: e }]
                + pkview);
        }
        Some((out, e))
    } else {
        None
    }
}

/// A type alias: `type` and a name, then either a qualified name from
/// another package, or any local type expression.
pub open spec fn spec_type_alias(b: Seq<u8>, pos: int) -> Option<(Seq<Token>, int)> {
    if match_str_at(b, pos, "type"@) {
        let p1 = pos + lit_len("type"@);
        let p2 = scan_sp(b, p1);
        if p2 > p1 {
            match spec_ident(b, p2) {
                Some((itoks, ie)) => {
                    let p3 = scan_sp(b, ie);
                    if p3 > ie && !kw_at(b, p3, "struct"@) {
                        match spec_package_ident(b, p3) {
                            Some((ptoks, pe)) => Some(
                                (
                                    seq![
                                        Token {
                                            rule: Rule::TypeAlias,
                                            start: pos as usize,
                                            end: pe as usize,
                                        },
                                        Token {
                                            rule: Rule::PackageTypeAlias,
                                            start: pos as usize,
                                            end: pe as usize,
                                        },
                                    ] + itoks + ptoks,
                                    pe,
                                ),
                            ),
                            None => match spec_type_inner(b, p3) {
                                Some((ttoks, te)) => Some(
                                    (
                                        seq![
                                            Token {
                                                rule: Rule::TypeAlias,
                                                start: pos as usize,
                                                end: te as usize,
                                            },
                                            Token {
                                                rule: Rule::LocalTypeAlias,
                                                start: pos as usize,
                                                end: te as usize,
                                            },
                                        ] + itoks + seq![
                                            Token {
                                                rule: Rule::TypeAliasTarget,
                                                start: p3 as usize,
                                                end: te as usize,
                                            },
                                        ] + ttoks,
                                        te,
                                    ),
                                ),
                                None => None,
                            },
                        }
                    } else {
                        None
                    }
                },
                None => None,
            }
        } else {
            None
        }
    } else {
        None
    }
}

fn p_type_alias(b: &[u8], pos: usize) -> (r: Option<(Vec<Token>, usize)>)
    requires
        pos <= b@.len(),
    ensures
        match r {
            Some((t, p)) => spec_type_alias(b@, pos as int) == Some((t@, p as int)) && p
                <= b@.len(),
            None => spec_type_alias(b@, pos as int) is None,
        },
{
    let p1 = match lit_end(b, pos, "type") {
        Some(v) => v,
        None => {
            return None;
        },
    };
    let p2 = sp_end(b, p1);
    if p2 <= p1 {
        return None;
    }
    let (mut itoks, ie) = match p_ident(b, p2) {
        Some(v) => v,
        None => {
            return None;
        },
    };
    let ghost iview = itoks@;
    let p3 = sp_end(b, ie);
    if p3 <= ie || match_kw(b, p3, "struct") {
        return None;
    }
    match p_package_ident(b, p3) {
        Some((mut ptoks, pe)) => {
            let ghost pview = ptoks@;
            let mut out = vec![
                Token { rule: Rule::TypeAlias, start: pos, end: pe },
                Token { rule: Rule::PackageTypeAlias, start: pos, end: pe },
            ];
            out.append(&mut itoks);
            out.append(&mut ptoks);
            proof {
                assert(out@ =~= seq![
                    Token { rule: Rule::TypeAlias, start: pos, end: pe },
                    Token { rule: Rule::PackageTypeAlias, start: pos, end: pe },
                ] + iview + pview);
            }
            Some((out, pe))
        },
        None => match p_type_inner(b, p3) {
            Some((mut ttoks, te)) => {
                let ghost tview = ttoks@;
                let mut out = vec![
                    Token { rule: Rule::TypeAlias, start: pos, end: te },
                    Token { rule: Rule::LocalTypeAlias, start: pos, end: te },
                ];
                out.append(&mut itoks);
                out.push(Token { rule: Rule::TypeAliasTarget, start: p3, end: te });
                out.append(&mut ttoks);
                proof {
                    assert(out@ =~= seq![
                        Token { rule: Rule::TypeAlias, start: pos, end: te },
                        Token { rule: Rule::LocalTypeAlias, start: pos, end: te },
                    ] + iview + seq![Token { rule: Rule::TypeAliasTarget, start: p3, end: te }]
                        + tview);
                }
                Some((out, te))
            },
            None => None,
        },
    }
}

// ---------------------------------------------------------------------------
// Whole files
// ---------------------------------------------------------------------------

/// The items of a file from `pos` on: package and import clauses, struct
/// definitions, type aliases and comments, in any order, separated by
/// whitespace. `None` when something else appears.
pub open spec fn spec_top(b: Seq<u8>, pos: int) -> Option<(Seq<Token>, int)>
    decreases b.len() - pos,
{
    let q = scan_ws(b, pos);
    if q >= b.len() {
        Some((seq![], q))
    } else {
        let item = if kw_at(b, q, "package"@) {
            spec_package_def(b, q)
        } else if kw_at(b, q, "import"@) {
            let la = scan_sp(b, q + lit_len("import"@));
            if la < b.len() && b[la] == '(' as u8 {
                spec_import_multiple(b, q)
            } else {
                spec_import(b, q)
            }
        } else if match_str_at(b, q, "//"@) {
            spec_any_comment(b, q)
        } else if kw_at(b, q, "type"@) {
            if spec_struct_def(b, q) is Some {
                spec_struct_def(b, q)
            } else {
                spec_type_alias(b, q)
            }
        } else {
            None
        };
        match item {
            Some((itoks, e)) => if e > pos && e <= b.len() {
                match spec_top(b, e) {
                    Some((rest, fin)) => Some((itoks + rest, fin)),
                    None => None,
                }
            } else {
                None
            },
            None => None,
        }
    }
}

fn p_top(b: &[u8], pos: usize) -> (r: Option<(Vec<Token>, usize)>)
    requires
        pos <= b@.len(),
    ensures
        match r {
            Some((t, p)) => spec_top(b@, pos as int) == Some((t@, p as int)) && p <= b@.len(),
            None => spec_top(b@, pos as int) is None,
        },
    decreases b@.len() - pos,
{
    let q = ws_end(b, pos);
    if q >= b.len() {
        return Some((Vec::new(), q));
    }
    let item: Option<(Vec<Token>, usize)> = if match_kw(b, q, "package") {
        p_package_def(b, q)
    } else if match_kw(b, q, "import") {
        let la = sp_end(b, q + lit_len_exec("import"));
        if la < b.len() && *slice_index_get(b, la) == '(' as u8 {
            p_import_multiple(b, q)
        } else {
            p_import(b, q)
        }
    } else if match_lit(b, q, "//") {
        p_any_comment(b, q)
    } else if match_kw(b, q, "type") {
        match p_struct_def(b, q) {
            Some(v) => Some(v),
            None => p_type_alias(b, q),
        }
    } else {
        None
    };
    match item {
        Some((mut itoks, e)) => {
            if e > pos {
                let ghost iview = itoks@;
                match p_top(b, e) {
                    Some((mut rest, fin)) => {
                        let ghost rview = rest@;
                        let mut out = itoks;
                        out.append(&mut rest);
                        proof {
                            assert(out@ =~= iview + rview);
                        }
                        Some((out, fin))
                    },
                    None => None,
                }
            } else {
                None
            }
        },
        None => None,
    }
}

/// The result of parsing the named rule against the whole input: the token
/// list when the rule matches and consumes every byte, nothing otherwise.
/// Only the rules that can head a parse are accepted as start rules.
pub open spec fn spec_parse_rule(rule: Rule, b: Seq<u8>) -> Option<Seq<Token>> {
    if rule == Rule::AwsGoEvents {
        spec_complete(spec_top(b, 0), b)
    } else if rule == Rule::Ident {
        spec_complete(spec_ident(b, 0), b)
    } else if rule == Rule::PackageIdent {
        spec_complete(spec_package_ident(b, 0), b)
    } else if rule == Rule::Primitive {
        spec_complete(spec_primitive(b, 0), b)
    } else if rule == Rule::Interface {
        spec_complete(spec_interface(b, 0), b)
    } else if rule == Rule::Array {
        spec_complete(spec_array(b, 0), b)
    } else if rule == Rule::MapType {
        spec_complete(spec_map(b, 0), b)
    } else if rule == Rule::PackageDef {
        spec_complete(spec_package_def(b, 0), b)
    } else if rule == Rule::StructDef {
        spec_complete(spec_struct_def(b, 0), b)
    } else if rule == Rule::StructField {
        spec_complete(spec_struct_field(b, 0), b)
    } else if rule == Rule::JsonMapping {
        spec_complete(spec_json_mapping(b, 0), b)
    } else if rule == Rule::Import {
        spec_complete(spec_import(b, 0), b)
    } else if rule == Rule::ImportMultiple {
        spec_complete(spec_import_multiple(b, 0), b)
    } else if rule == Rule::TypeAlias {
        spec_complete(spec_type_alias(b, 0), b)
    } else {
        None
    }
}

/// Keeps a parse only when it consumed the whole input.
pub open spec fn spec_complete(r: Option<(Seq<Token>, int)>, b: Seq<u8>) -> Option<Seq<Token>> {
    match r {
        Some((toks, e)) => if e == b.len() {
            Some(toks)
        } else {
            None
        },
        None => None,
    }
}

/// The parser for the event-shape subset of Go.
pub struct AwsGoEventsParser;

impl AwsGoEventsParser {
    /// Parses the whole input against the named start rule, yielding the
    /// pre-order token list of the match.
    pub fn parse(rule: Rule, input: &str) -> (r: Result<Vec<Token>, ParseError>)
        ensures
            match r {
                Ok(toks) => spec_parse_rule(rule, encode_utf8(input@)) == Some(toks@),
                Err(_) => spec_parse_rule(rule, encode_utf8(input@)) is None,
            },
    {
        let b = input.as_bytes();
        let parsed: Option<(Vec<Token>, usize)> = if rule == Rule::AwsGoEvents {
            p_top(b, 0)
        } else if rule == Rule::Ident {
            p_ident(b, 0)
        } else if rule == Rule::PackageIdent {
            p_package_ident(b, 0)
        } else if rule == Rule::Primitive {
            p_primitive(b, 0)
        } else if rule == Rule::Interface {
            p_interface(b, 0)
        } else if rule == Rule::Array {
            p_array(b, 0)
        } else if rule == Rule::MapType {
            p_map(b, 0)
        } else if rule == Rule::PackageDef {
            p_package_def(b, 0)
        } else if rule == Rule::StructDef {
            p_struct_def(b, 0)
        } else if rule == Rule::StructField {
            p_struct_field(b, 0)
        } else if rule == Rule::JsonMapping {
            p_json_mapping(b, 0)
        } else if rule == Rule::Import {
            p_import(b, 0)
        } else if rule == Rule::ImportMultiple {
            p_import_multiple(b, 0)
        } else if rule == Rule::TypeAlias {
            p_type_alias(b, 0)
        } else {
            return Err(ParseError {});
        };
        match parsed {
            Some((toks, e)) => {
                if e == b.len() {
                    Ok(toks)
                } else {
                    Err(ParseError {})
                }
            },
            None => Err(ParseError {}),
        }
    }
}

} // verus!
