use ahecha_macro::validator::{
    parse_usize, AttrMeta, DateValidator, LengthCheck, LengthValidator, NestedMeta, RequiredValidator, Validator,
    ValidatorAttribute,
};

fn attr(name: &str, pairs: &[(&str, &str)]) -> ValidatorAttribute {
    ValidatorAttribute {
        name: name.to_string(),
        attrs: pairs.iter().map(|(k, v)| (k.to_string(), v.to_string())).collect(),
    }
}

#[test]
fn numbers_read_like_usize_parse() {
    assert_eq!(parse_usize("10"), Some(10));
    assert_eq!(parse_usize("+7"), Some(7));
    assert_eq!(parse_usize("007"), Some(7));
    assert_eq!(parse_usize(""), None);
    assert_eq!(parse_usize("+"), None);
    assert_eq!(parse_usize("-1"), None);
    assert_eq!(parse_usize("1a"), None);
    assert_eq!(parse_usize("18446744073709551615"), "18446744073709551615".parse::<usize>().ok());
    assert_eq!(parse_usize("18446744073709551616"), None);
}

#[test]
fn length_validator_messages() {
    let (v, report) = LengthValidator::new(
        "field1".to_string(),
        attr("length", &[("min", "10"), ("max", "20"), ("message", "A test")]),
    );
    assert_eq!(v.min, Some(10));
    assert_eq!(v.max, Some(20));
    assert_eq!(v.message, "The field `field1` expects to have a value with length between 10 and 20");
    assert_eq!(report, "They attributes min,max,message are not supported.");

    let (v, _) = LengthValidator::new("f".to_string(), attr("length", &[("max", "5")]));
    assert_eq!(v.min, None);
    assert_eq!(v.message, "The field `f` expects to have a value with a max length of 5");

    let (v, report) = LengthValidator::new("f".to_string(), attr("length", &[("min", "3"), ("max", "x"), ("foo", "1")]));
    assert_eq!(v.max, None);
    assert_eq!(v.message, "The field `f` expects to have a value with a min length of 3");
    assert_eq!(report, "They attributes min,max are not supported.");
}

#[test]
fn required_validator_messages() {
    let (v, report) = RequiredValidator::new("name".to_string(), None);
    assert_eq!(v.message, "The field name is required");
    assert!(report.is_none());
    let (v, report) = RequiredValidator::new("name".to_string(), Some(attr("required", &[("message", "Needed")])));
    assert_eq!(v.message, "Needed");
    assert_eq!(report.unwrap(), "They attributes message are not supported.");
    let (v, report) = RequiredValidator::new("name".to_string(), Some(attr("required", &[("other", "x")])));
    assert_eq!(v.message, "The field name is required");
    assert_eq!(report.unwrap(), "They attributes  are not supported.");
}

#[test]
fn date_validator_defaults() {
    let (v, _) = DateValidator::new("born".to_string(), attr("date", &[]));
    assert_eq!(v.format, "YYYY-MM-DD");
    assert_eq!(v.message, "The provided date from `born` doesn't have a valid format");
    let (v, _) = DateValidator::new("born".to_string(), attr("date", &[("format", "DD/MM"), ("message", "bad")]));
    assert_eq!(v.format, "DD/MM");
    assert_eq!(v.message, "bad");
}

#[test]
fn attribute_values_by_key() {
    let a = attr("length", &[("min", "1"), ("min", "2")]);
    assert_eq!(a.get("min"), Some("2".to_string()));
    assert_eq!(a.get("max"), None);
}

#[test]
fn validate_lists_give_required_validators_and_reports() {
    let nested = vec![
        NestedMeta::Path("required".to_string()),
        NestedMeta::Path("email".to_string()),
        NestedMeta::List,
        NestedMeta::NameValue,
        NestedMeta::Lit,
    ];
    let (validators, reports) = Validator::from_nested_meta(&"name".to_string(), &nested);
    assert_eq!(validators.len(), 1);
    match &validators[0] {
        Validator::Required(r) => {
            assert_eq!(r.field, "name");
            assert_eq!(r.message, "The field name is required");
        }
        _ => panic!("expected a required validator"),
    }
    assert_eq!(
        reports,
        vec![
            "email isn't a supported validator".to_string(),
            "Unsuported named value at this level".to_string(),
            "Literals are not supported".to_string(),
        ]
    );
}

#[test]
fn only_validate_attributes_count() {
    let field = "name".to_string();
    let attrs = vec![
        ("serde".to_string(), Ok(AttrMeta::Other)),
        ("validate".to_string(), Ok(AttrMeta::List(vec![NestedMeta::Path("required".to_string())]))),
        ("validate".to_string(), Ok(AttrMeta::Other)),
        ("validate".to_string(), Err("expected attribute arguments".to_string())),
    ];
    let (validators, reports) = Validator::from(&field, &attrs);
    assert_eq!(validators.len(), 1);
    assert_eq!(reports, vec!["Unsuported format".to_string(), "expected attribute arguments".to_string()]);
}

#[test]
fn rendered_numbers_read_back() {
    for n in [0usize, 7, 10, 99, 1234567, usize::MAX] {
        let text = ahecha_macro::text::decimal_string(n as u128);
        assert_eq!(text, n.to_string());
        assert_eq!(parse_usize(&text), Some(n));
    }
}

#[test]
fn length_checks_in_order() {
    let (v, _) = LengthValidator::new("f".to_string(), attr("length", &[("max", "20"), ("min", "10")]));
    assert_eq!(v.checks(), vec![LengthCheck::AtLeast(10), LengthCheck::AtMost(20)]);
    let (v, _) = LengthValidator::new("f".to_string(), attr("length", &[("max", "20")]));
    assert_eq!(v.checks(), vec![LengthCheck::AtMost(20)]);
}

#[test]
fn length_rejects_values_outside_the_bounds() {
    let (v, _) = LengthValidator::new("f".to_string(), attr("length", &[("max", "20"), ("min", "10")]));
    assert!(v.rejects(9));
    assert!(!v.rejects(10));
    assert!(!v.rejects(20));
    assert!(v.rejects(21));
    let (v, _) = LengthValidator::new("f".to_string(), attr("length", &[("max", "3")]));
    assert!(!v.rejects(0));
    assert!(v.rejects(4));
    let (v, _) = LengthValidator::new("f".to_string(), attr("length", &[("min", "2")]));
    assert!(v.rejects(1));
    assert!(!v.rejects(1000));
    assert!(LengthCheck::AtLeast(5).fails(4));
    assert!(!LengthCheck::AtMost(5).fails(5));
}
