use corrosion_orm::model::rust_type::RustType;
use corrosion_orm::validation::{
    is_string_type, parse_field_validations, parse_validation, validated_args, validator_call,
    EmailAttribute, NotNullAttribute, PatternAttribute, SizeAttribute, ValidationFieldInput,
    ValidationType, ValidatorKind, EMAIL_PATTERN,
};

fn ty(name: &str) -> RustType {
    RustType::Path { segments: vec![name.to_string()], first_arg: None }
}

fn plain(ident: &str, t: RustType) -> ValidationFieldInput {
    ValidationFieldInput {
        ident: Some(ident.to_string()),
        ty: t,
        not_null: None,
        size: None,
        pattern: None,
        email: None,
    }
}

#[test]
fn rules_come_in_attribute_order() {
    let f = ValidationFieldInput {
        not_null: Some(NotNullAttribute { message: None }),
        size: Some(SizeAttribute { min: Some(3), max: Some(20), message: Some("bad size".into()) }),
        email: Some(EmailAttribute { message: None }),
        ..plain("username", ty("String"))
    };
    let rules = parse_field_validations(&f).unwrap();
    assert_eq!(rules.len(), 3);
    assert!(matches!(rules[0].validation.ty, ValidationType::NotNull));
    assert!(matches!(rules[1].validation.ty, ValidationType::Size { min: Some(3), max: Some(20) }));
    assert_eq!(rules[1].validation.message, "bad size");
    assert!(matches!(rules[2].validation.ty, ValidationType::Email));
    assert_eq!(rules[2].ident, "username");
}

#[test]
fn text_rules_need_string_fields() {
    let f = ValidationFieldInput {
        size: Some(SizeAttribute { min: Some(1), max: None, message: None }),
        ..plain("age", ty("i32"))
    };
    assert_eq!(parse_field_validations(&f).err().unwrap(), "#[Size] is only supported for String types");
    let f = ValidationFieldInput {
        pattern: Some(PatternAttribute { pattern: "x".into(), message: None }),
        ..plain("age", ty("i32"))
    };
    assert_eq!(parse_field_validations(&f).err().unwrap(), "#[Pattern] is only supported for String types");
    let f = ValidationFieldInput { email: Some(EmailAttribute { message: None }), ..plain("age", ty("i32")) };
    assert_eq!(parse_field_validations(&f).err().unwrap(), "#[Email] is only supported for String types");
    let f = ValidationFieldInput { not_null: Some(NotNullAttribute { message: None }), ..plain("age", ty("i32")) };
    assert_eq!(parse_field_validations(&f).unwrap().len(), 1);
}

#[test]
fn unnamed_fields_and_non_structs_fail() {
    let mut f = plain("x", ty("String"));
    f.ident = None;
    assert_eq!(parse_field_validations(&f).err().unwrap(), "Field must have an identifier");
    assert_eq!(parse_validation(false, &vec![]).err().unwrap(), "Validation can only be derived on structs");
}

#[test]
fn struct_rules_concatenate_fields() {
    let fields = vec![
        ValidationFieldInput { not_null: Some(NotNullAttribute { message: None }), ..plain("a", ty("String")) },
        plain("b", ty("String")),
        ValidationFieldInput {
            pattern: Some(PatternAttribute { pattern: r"^\d{10}$".into(), message: None }),
            ..plain("c", ty("String"))
        },
    ];
    let rules = parse_validation(true, &fields).unwrap();
    let idents: Vec<&str> = rules.iter().map(|r| r.ident.as_str()).collect();
    assert_eq!(idents, vec!["a", "c"]);
}

#[test]
fn validator_calls() {
    let f = ValidationFieldInput {
        email: Some(EmailAttribute { message: Some("no".into()) }),
        pattern: Some(PatternAttribute { pattern: "p".into(), message: None }),
        ..plain("mail", ty("String"))
    };
    let rules = parse_field_validations(&f).unwrap();
    let pattern = validator_call(&rules[0]);
    assert!(matches!(&pattern.kind, ValidatorKind::Pattern { pattern, email: false } if pattern == "p"));
    assert_eq!(pattern.message, None);
    let email = validator_call(&rules[1]);
    assert!(matches!(&email.kind, ValidatorKind::Pattern { pattern, email: true } if pattern == EMAIL_PATTERN));
    assert_eq!(email.message, Some("no".to_string()));
    assert_eq!(email.field_name, "mail");
}

#[test]
fn string_type_detection() {
    assert!(is_string_type(&ty("String")));
    assert!(is_string_type(&RustType::Path {
        segments: vec!["std".into(), "string".into(), "String".into()],
        first_arg: None
    }));
    assert!(!is_string_type(&RustType::Wrapped(Box::new(ty("String")))));
    assert!(!is_string_type(&ty("str")));
}

#[test]
fn arguments_bound_to_names_are_validated() {
    let args = vec![Some("user".to_string()), None, Some("order".to_string())];
    assert_eq!(validated_args(&args), vec!["user", "order"]);
}
