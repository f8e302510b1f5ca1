use ahecha_macro::component::{api_name_report, FnInput, FnInfo};

#[test]
fn function_information() {
    let inputs = vec![FnInput::Typed("id".to_string()), FnInput::Receiver, FnInput::Typed("name".to_string())];
    let (info, reports) = FnInfo::new("UserPage".to_string(), true, &inputs);
    assert!(info.is_ident_capitalized);
    assert!(info.is_async);
    assert_eq!(info.metadata_ident, "__UserPage_metadata");
    assert_eq!(info.input_names, vec!["id".to_string(), "name".to_string()]);
    assert_eq!(reports, vec!["Don't use `self` on components".to_string()]);
    assert!(info.page_name_reports().is_empty());
}

#[test]
fn page_naming_rules() {
    let (info, _) = FnInfo::new("user".to_string(), false, &vec![]);
    assert!(!info.is_ident_capitalized);
    assert_eq!(
        info.page_name_reports(),
        vec![
            "Pages must start with a upper letter".to_string(),
            "Pages must have the `Page` suffix, example: `userPage`".to_string(),
        ]
    );
}

#[test]
fn api_functions_start_lowercase() {
    assert!(api_name_report("list_users").is_none());
    assert!(api_name_report("_private").is_none());
    assert_eq!(api_name_report("ListUsers").unwrap(), "Rest API functions must lower case");
}

#[test]
fn uri_type_parameters_are_letters() {
    assert_eq!(FnInfo::uri_generics(0), Vec::<String>::new());
    assert_eq!(FnInfo::uri_generics(3), vec!["A".to_string(), "B".to_string(), "C".to_string()]);
    assert_eq!(FnInfo::uri_generics(26)[25], "Z");
}
