use corrosion_orm::model::index::{IndexAttribute, IndexDefinition};

#[test]
fn test_generate_index_name() {
    let name = IndexDefinition::generate_name("users", &["email".to_string()]);
    assert_eq!(name, "idx_users_email");

    let name = IndexDefinition::generate_name(
        "users",
        &["created_at".to_string(), "user_id".to_string()],
    );
    assert_eq!(name, "idx_users_created_at_user_id");

    let name = IndexDefinition::generate_name("users", &[]);
    assert_eq!(name, "idx_users");
}

#[test]
fn test_index_definition_creation() {
    let idx = IndexDefinition::new(
        "idx_test_email".to_string(),
        vec!["email".to_string()],
        true,
    );
    assert_eq!(idx.name, "idx_test_email");
    assert_eq!(idx.fields, vec!["email"]);
    assert!(idx.unique);
}

#[test]
fn test_index_definition_from_attribute() {
    let attr = IndexAttribute {
        name: "idx_custom".to_string(),
        fields: vec!["field1".to_string(), "field2".to_string()],
        unique: false,
    };
    let idx: IndexDefinition = IndexDefinition::from(attr);
    assert_eq!(idx.name, "idx_custom");
    assert_eq!(idx.fields.len(), 2);
    assert!(!idx.unique);
}

#[test]
fn index_attribute_parses_all_arguments() {
    let a = IndexAttribute::parse(r#"name = "idx_email", fields = ["email", "name"], unique = true"#)
        .unwrap();
    assert_eq!(a.name, "idx_email");
    assert_eq!(a.fields, vec!["email", "name"]);
    assert!(a.unique);
}

#[test]
fn index_attribute_defaults_and_escapes() {
    let a = IndexAttribute::parse(r#"fields = ["a\"b"]"#).unwrap();
    assert_eq!(a.name, "");
    assert_eq!(a.fields, vec!["a\"b"]);
    assert!(!a.unique);
}

#[test]
fn index_attribute_rejects_bad_syntax() {
    assert!(IndexAttribute::parse(r#"unique = maybe"#).is_none());
    assert!(IndexAttribute::parse(r#"name = "unterminated"#).is_none());
    assert!(IndexAttribute::parse(r#"colour = "red""#).is_none());
}

#[test]
fn index_attribute_accepts_raw_strings() {
    let a = IndexAttribute::parse(r##"name = r"idx_raw", fields = [r#"a"b"#, r"c\d"]"##).unwrap();
    assert_eq!(a.name, "idx_raw");
    assert_eq!(a.fields, vec!["a\"b", "c\\d"]);
    let b = IndexAttribute::parse(r###"fields = [r##"x"#y"##]"###).unwrap();
    assert_eq!(b.fields, vec!["x\"#y"]);
}

#[test]
fn index_attribute_accepts_numeric_escapes() {
    let a = IndexAttribute::parse(r#"fields = ["\x41b", "\u{1F600}", "\u{1_F6_00}", "\u{e9}"]"#).unwrap();
    assert_eq!(a.fields, vec!["Ab", "\u{1F600}", "\u{1F600}", "é"]);
}

#[test]
fn index_attribute_accepts_line_continuation() {
    let a = IndexAttribute::parse("fields = [\"ab\\\n     cd\"]").unwrap();
    assert_eq!(a.fields, vec!["abcd"]);
    let b = IndexAttribute::parse("fields = [\"a\r\nb\"]").unwrap();
    assert_eq!(b.fields, vec!["a\nb"]);
}

#[test]
fn index_attribute_rejects_bad_literals() {
    assert!(IndexAttribute::parse(r#"fields = ["\x80"]"#).is_none());
    assert!(IndexAttribute::parse(r#"fields = ["\xG1"]"#).is_none());
    assert!(IndexAttribute::parse(r#"fields = ["\u{D800}"]"#).is_none());
    assert!(IndexAttribute::parse(r#"fields = ["\u{110000}"]"#).is_none());
    assert!(IndexAttribute::parse(r#"fields = ["\u{}"]"#).is_none());
    assert!(IndexAttribute::parse(r#"fields = ["\u{_1}"]"#).is_none());
    assert!(IndexAttribute::parse(r#"fields = ["\u{1234567}"]"#).is_none());
    assert!(IndexAttribute::parse(r#"fields = ["\u1234"]"#).is_none());
    assert!(IndexAttribute::parse(r#"fields = ["\q"]"#).is_none());
    assert!(IndexAttribute::parse("fields = [\"a\rb\"]").is_none());
    assert!(IndexAttribute::parse(r##"fields = [r#"open"]"##).is_none());
    assert!(IndexAttribute::parse(r##"fields = [r#x"a"#]"##).is_none());
}

#[test]
fn index_attribute_ignores_literal_suffixes() {
    let a = IndexAttribute::parse(r##"name = "idx"_x, fields = ["a"suffix, r#"b"#s2]"##).unwrap();
    assert_eq!(a.name, "idx");
    assert_eq!(a.fields, vec!["a", "b"]);
    assert!(IndexAttribute::parse(r#"fields = ["a" suffix]"#).is_none());
}
