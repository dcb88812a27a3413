use genius_rs::json::{Json, Number};
use genius_rs::schema::{PathStep, SchemaError, SchemaErrorKind};

fn text(s: &str) -> Json {
    Json::String(s.to_string())
}

fn unsigned(n: u64) -> Json {
    Json::Number(Number::Unsigned(n))
}

#[test]
fn the_values_of_json_are_parsed_variant_for_variant() {
    assert_eq!(Json::parse("null"), Ok(Json::Null));
    assert_eq!(Json::parse("true"), Ok(Json::Bool(true)));
    assert_eq!(Json::parse("false"), Ok(Json::Bool(false)));
    assert_eq!(Json::parse("\"a\\u00e9\\n\""), Ok(text("a\u{e9}\n")));
    assert_eq!(Json::parse("[]"), Ok(Json::Array(Vec::new())));
    assert_eq!(Json::parse("{}"), Ok(Json::Object(Vec::new())));
    assert_eq!(
        Json::parse(" [1, [true, null], \"x\"] "),
        Ok(Json::Array(vec![
            unsigned(1),
            Json::Array(vec![Json::Bool(true), Json::Null]),
            text("x"),
        ]))
    );
}

#[test]
fn numbers_are_parsed_as_integers_where_they_are_integers() {
    assert_eq!(Json::parse("0"), Ok(unsigned(0)));
    assert_eq!(Json::parse("18446744073709551615"), Ok(unsigned(u64::MAX)));
    assert_eq!(Json::parse("-1"), Ok(Json::Number(Number::Signed(-1))));
    assert_eq!(
        Json::parse("-9223372036854775808"),
        Ok(Json::Number(Number::Signed(i64::MIN)))
    );
    assert_eq!(Json::parse("0.5"), Ok(Json::Number(Number::Fraction("0.5".to_string()))));
    assert_eq!(Json::parse("-2.25"), Ok(Json::Number(Number::Fraction("-2.25".to_string()))));
    assert_eq!(Json::parse("1.0"), Ok(Json::Number(Number::Fraction("1.0".to_string()))));
}

#[test]
fn the_members_of_an_object_come_by_name_each_name_once() {
    assert_eq!(
        Json::parse("{\"b\":1,\"a\":{\"z\":null,\"y\":[]},\"b\":2}"),
        Ok(Json::Object(vec![
            (
                "a".to_string(),
                Json::Object(vec![
                    ("y".to_string(), Json::Array(Vec::new())),
                    ("z".to_string(), Json::Null),
                ])
            ),
            ("b".to_string(), unsigned(2)),
        ]))
    );
}

#[test]
fn a_text_that_is_no_document_is_malformed() {
    for bad in ["", "{", "[1,]", "{\"a\" 1}", "nul", "1 2", "'a'", "{\"a\":1e999}"] {
        assert_eq!(
            Json::parse(bad),
            Err(SchemaError { kind: SchemaErrorKind::Malformed, path: Vec::new() })
        );
    }
}

#[test]
fn a_value_is_printed_without_spaces() {
    assert_eq!(Json::Null.to_text(), "null");
    assert_eq!(Json::Bool(true).to_text(), "true");
    assert_eq!(unsigned(42).to_text(), "42");
    assert_eq!(Json::Number(Number::Signed(-42)).to_text(), "-42");
    assert_eq!(Json::Number(Number::Signed(42)).to_text(), "42");
    assert_eq!(Json::Number(Number::Fraction("0.5".to_string())).to_text(), "0.5");
    assert_eq!(text("a\"b\n").to_text(), "\"a\\\"b\\n\"");
    assert_eq!(
        Json::Array(vec![unsigned(1), Json::Null, text("x")]).to_text(),
        "[1,null,\"x\"]"
    );
    assert_eq!(
        Json::Object(vec![
            ("b".to_string(), unsigned(1)),
            ("a".to_string(), Json::Array(vec![Json::Bool(false)])),
        ])
        .to_text(),
        "{\"a\":[false],\"b\":1}"
    );
}

#[test]
fn the_last_member_of_a_name_is_the_one_printed() {
    assert_eq!(
        Json::Object(vec![
            ("a".to_string(), unsigned(1)),
            ("b".to_string(), unsigned(2)),
            ("a".to_string(), unsigned(3)),
        ])
        .to_text(),
        "{\"a\":3,\"b\":2}"
    );
}

#[test]
fn a_fraction_that_spells_no_number_is_printed_as_null() {
    assert_eq!(Json::Number(Number::Fraction("half".to_string())).to_text(), "null");
    assert_eq!(Json::Number(Number::Fraction("[1]".to_string())).to_text(), "null");
    assert_eq!(Json::Number(Number::Fraction(String::new())).to_text(), "null");
}

#[test]
fn what_is_printed_parses_back() {
    let value = Json::Object(vec![
        ("flag".to_string(), Json::Bool(true)),
        ("list".to_string(), Json::Array(vec![unsigned(7), Json::Number(Number::Signed(-7))])),
        ("ratio".to_string(), Json::Number(Number::Fraction("0.125".to_string()))),
        ("text".to_string(), text("tab\there")),
    ]);
    assert_eq!(Json::parse(&value.to_text()), Ok(value));
}

#[test]
fn a_member_is_found_by_its_name_the_last_of_them() {
    let object = Json::Object(vec![
        ("a".to_string(), unsigned(1)),
        ("b".to_string(), unsigned(2)),
        ("a".to_string(), unsigned(3)),
    ]);
    assert_eq!(object.get("a"), Some(&unsigned(3)));
    assert_eq!(object.get("b"), Some(&unsigned(2)));
    assert_eq!(object.get("c"), None);
    assert_eq!(object.get(""), None);
    assert_eq!(Json::Object(Vec::new()).get("a"), None);
    assert_eq!(Json::Array(vec![unsigned(1)]).get("a"), None);
    assert_eq!(text("a").get("a"), None);
    assert_eq!(Json::Null.get("a"), None);
}

#[test]
fn only_an_object_is_an_object() {
    assert!(Json::Object(Vec::new()).is_object());
    assert!(Json::object(vec![("a".to_string(), Json::Null)]).is_object());
    assert!(!Json::Array(Vec::new()).is_object());
    assert!(!Json::array(vec![Json::Null]).is_object());
    assert!(!Json::Null.is_object());
    assert!(!text("{}").is_object());
    assert!(!unsigned(0).is_object());
    assert!(!Json::Bool(true).is_object());
}

#[test]
fn a_copy_is_equal_to_the_value_copied() {
    let value = Json::Object(vec![
        ("a".to_string(), Json::Array(vec![Json::Null, Json::Bool(true), unsigned(5)])),
        ("b".to_string(), Json::Object(vec![("c".to_string(), text("d"))])),
        ("n".to_string(), Json::Number(Number::Fraction("1.5".to_string()))),
    ]);
    assert_eq!(value.duplicate(), value);
    assert_eq!(Json::Null.duplicate(), Json::Null);
    assert_eq!(Number::Signed(-3).duplicate(), Number::Signed(-3));
    match &value {
        Json::Object(members) => assert_eq!(Json::object_of(members), value),
        _ => unreachable!(),
    }
}

#[test]
fn an_error_is_moved_outward_step_by_step() {
    let e = SchemaError::at_root(SchemaErrorKind::WrongType);
    assert_eq!(e, SchemaError { kind: SchemaErrorKind::WrongType, path: Vec::new() });
    let e = e.below(PathStep::Item(3)).below(PathStep::Field("hits".to_string()));
    assert_eq!(
        e,
        SchemaError {
            kind: SchemaErrorKind::WrongType,
            path: vec![PathStep::Field("hits".to_string()), PathStep::Item(3)],
        }
    );
}
