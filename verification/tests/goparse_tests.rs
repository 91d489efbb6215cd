use aws_lambda::goparse::{AwsGoEventsParser, Rule, Token};

fn tok(rule: Rule, start: usize, end: usize) -> Token {
    Token { rule, start, end }
}

fn parsed(rule: Rule, input: &str) -> Vec<Token> {
    AwsGoEventsParser::parse(rule, input).expect("input matches the rule")
}

#[test]
fn test_parses_array() {
    assert_eq!(
        parsed(Rule::Array, "[]bool"),
        vec![
            tok(Rule::Array, 0, 6),
            tok(Rule::Primitive, 2, 6),
            tok(Rule::Boolean, 2, 6),
        ]
    );

    assert_eq!(
        parsed(Rule::Array, "[]blah"),
        vec![tok(Rule::Array, 0, 6), tok(Rule::Ident, 2, 6)]
    );
}

#[test]
fn test_parses_map() {
    assert_eq!(
        parsed(Rule::MapType, "map[string]interface{}"),
        vec![
            tok(Rule::MapType, 0, 22),
            tok(Rule::KeyType, 4, 10),
            tok(Rule::Primitive, 4, 10),
            tok(Rule::Str, 4, 10),
            tok(Rule::ValueType, 11, 22),
            tok(Rule::Interface, 11, 22),
        ]
    );
}

#[test]
fn test_parses_package_def() {
    assert_eq!(
        parsed(Rule::PackageDef, "package foo"),
        vec![tok(Rule::PackageDef, 0, 11), tok(Rule::Ident, 8, 11)]
    );
}

#[test]
fn test_parses_struct_def() {
    assert_eq!(
        parsed(Rule::StructDef, "type MyFoo struct {}"),
        vec![
            tok(Rule::StructDef, 0, 20),
            tok(Rule::StructPreamble, 0, 17),
            tok(Rule::StructName, 5, 10),
            tok(Rule::Ident, 5, 10),
        ]
    );

    assert_eq!(
        parsed(Rule::StructDef, "type MyFoo struct { foo string }"),
        vec![
            tok(Rule::StructDef, 0, 32),
            tok(Rule::StructPreamble, 0, 17),
            tok(Rule::StructName, 5, 10),
            tok(Rule::Ident, 5, 10),
            tok(Rule::StructFields, 20, 31),
            tok(Rule::StructField, 20, 31),
            tok(Rule::Ident, 20, 23),
            tok(Rule::StructFieldType, 24, 30),
            tok(Rule::Primitive, 24, 30),
            tok(Rule::Str, 24, 30),
        ]
    );

    assert_eq!(
        parsed(
            Rule::StructDef,
            r#"type MyFoo struct {
                  foo string
                  bar int
                }"#
        ),
        vec![
            tok(Rule::StructDef, 0, 92),
            tok(Rule::StructPreamble, 0, 17),
            tok(Rule::StructName, 5, 10),
            tok(Rule::Ident, 5, 10),
            tok(Rule::StructFields, 38, 74),
            tok(Rule::StructField, 38, 48),
            tok(Rule::Ident, 38, 41),
            tok(Rule::StructFieldType, 42, 48),
            tok(Rule::Primitive, 42, 48),
            tok(Rule::Str, 42, 48),
            tok(Rule::StructField, 67, 74),
            tok(Rule::Ident, 67, 70),
            tok(Rule::StructFieldType, 71, 74),
            tok(Rule::Primitive, 71, 74),
            tok(Rule::Int, 71, 74),
        ]
    );
}

#[test]
fn test_parses_struct_field() {
    assert_eq!(
        parsed(Rule::StructField, "EventVersion string"),
        vec![
            tok(Rule::StructField, 0, 19),
            tok(Rule::Ident, 0, 12),
            tok(Rule::StructFieldType, 13, 19),
            tok(Rule::Primitive, 13, 19),
            tok(Rule::Str, 13, 19),
        ]
    );

    assert_eq!(
        parsed(Rule::StructField, "EventVersion bool"),
        vec![
            tok(Rule::StructField, 0, 17),
            tok(Rule::Ident, 0, 12),
            tok(Rule::StructFieldType, 13, 17),
            tok(Rule::Primitive, 13, 17),
            tok(Rule::Boolean, 13, 17),
        ]
    );

    assert_eq!(
        parsed(Rule::StructField, "EventVersion *bool"),
        vec![
            tok(Rule::StructField, 0, 18),
            tok(Rule::Ident, 0, 12),
            tok(Rule::Pointer, 13, 14),
            tok(Rule::StructFieldType, 14, 18),
            tok(Rule::Primitive, 14, 18),
            tok(Rule::Boolean, 14, 18),
        ]
    );

    assert_eq!(
        parsed(Rule::StructField, "EventVersion MyType"),
        vec![
            tok(Rule::StructField, 0, 19),
            tok(Rule::Ident, 0, 12),
            tok(Rule::StructFieldType, 13, 19),
            tok(Rule::Ident, 13, 19),
        ]
    );
}

#[test]
fn test_parses_json_mapping() {
    assert_eq!(
        parsed(Rule::JsonMapping, "`json:\"fooBar\"`"),
        vec![tok(Rule::JsonMapping, 0, 15), tok(Rule::JsonName, 7, 13)]
    );

    assert_eq!(
        parsed(Rule::JsonMapping, "`json:\"foo-x\"`"),
        vec![tok(Rule::JsonMapping, 0, 14), tok(Rule::JsonName, 7, 12)]
    );

    assert_eq!(
        parsed(Rule::JsonMapping, "`json:\"foo.x\"`"),
        vec![tok(Rule::JsonMapping, 0, 14), tok(Rule::JsonName, 7, 12)]
    );

    assert_eq!(
        parsed(Rule::JsonMapping, "`json:\"foo,omitempty\"`"),
        vec![
            tok(Rule::JsonMapping, 0, 22),
            tok(Rule::JsonName, 7, 10),
            tok(Rule::OmitEmpty, 10, 20),
        ]
    );

    assert_eq!(
        parsed(Rule::JsonMapping, "`json:\"fooBar\"` // whatever"),
        vec![
            tok(Rule::JsonMapping, 0, 27),
            tok(Rule::JsonName, 7, 13),
            tok(Rule::AnyComment, 16, 27),
        ]
    );
}

#[test]
fn test_parses_import() {
    assert_eq!(
        parsed(Rule::Import, "import \"foo\""),
        vec![
            tok(Rule::Import, 0, 12),
            tok(Rule::ImportPackage, 7, 12),
            tok(Rule::PackageName, 8, 11),
        ]
    );

    assert_eq!(
        parsed(Rule::Import, "import \"a/b\""),
        vec![
            tok(Rule::Import, 0, 12),
            tok(Rule::ImportPackage, 7, 12),
            tok(Rule::PackageName, 8, 11),
        ]
    );
}

#[test]
fn test_parses_mutiple_imports() {
    assert_eq!(
        parsed(Rule::ImportMultiple, "import (\n\"foo\"\n \"bar\"\n)"),
        vec![
            tok(Rule::ImportMultiple, 0, 23),
            tok(Rule::ImportPackage, 9, 14),
            tok(Rule::PackageName, 10, 13),
            tok(Rule::ImportPackage, 16, 21),
            tok(Rule::PackageName, 17, 20),
        ]
    );
}

#[test]
fn rejects_unknown_top_level_text() {
    assert!(AwsGoEventsParser::parse(Rule::AwsGoEvents, "func main() {}").is_err());
}

#[test]
fn parses_whole_file_of_items() {
    let source = "package events\n\nimport (\n\"encoding/json\"\n)\n\ntype MyEvent struct { name string `json:\"name\"` }\n";
    let toks = AwsGoEventsParser::parse(Rule::AwsGoEvents, source.trim()).unwrap();
    assert!(toks.iter().any(|t| t.rule == Rule::PackageDef));
    assert!(toks.iter().any(|t| t.rule == Rule::ImportMultiple));
    assert!(toks.iter().any(|t| t.rule == Rule::StructDef));
    assert!(toks.iter().any(|t| t.rule == Rule::JsonName));
}
