use opencli::{
    DecodeError, Field, OpenCliArgument, OpenCliArity, OpenCliCommand, OpenCliContact,
    OpenCliConventions, OpenCliDocument, OpenCliExitCode, OpenCliInfo, OpenCliLicense,
    OpenCliMetadata, OpenCliOption,
};

fn tree(text: &str) -> serde_json::Value {
    serde_json::from_str::<serde_json::Value>(text).unwrap()
}

fn command(text: &str) -> Result<OpenCliCommand, DecodeError> {
    OpenCliCommand::from_value(&tree(text))
}

#[test]
fn a_missing_sequence_an_empty_one_and_null_read_alike() {
    let absent = command(r#"{"name":"c"}"#).unwrap();
    let empty = command(r#"{"name":"c","options":[]}"#).unwrap();
    let null = command(r#"{"name":"c","options":null}"#).unwrap();
    assert!(absent.options.is_empty());
    assert_eq!(absent, empty);
    assert_eq!(absent, null);
}

#[test]
fn every_sequence_of_a_command_defaults_to_empty() {
    let absent = command(r#"{"name":"c"}"#).unwrap();
    let empty = command(
        r#"{"name":"c","aliases":[],"options":[],"arguments":[],"commands":[],"exitCodes":[],"examples":[],"metadata":[]}"#,
    )
    .unwrap();
    let null = command(
        r#"{"name":"c","aliases":null,"options":null,"arguments":null,"commands":null,"exitCodes":null,"examples":null,"metadata":null}"#,
    )
    .unwrap();
    assert_eq!(absent, empty);
    assert_eq!(absent, null);
    assert!(absent.aliases.is_empty() && absent.arguments.is_empty() && absent.commands.is_empty());
    assert!(absent.exit_codes.is_empty() && absent.examples.is_empty() && absent.metadata.is_empty());
}

#[test]
fn an_optional_member_of_null_is_absent() {
    let c = command(r#"{"name":"c","description":null,"hidden":null,"interactive":null}"#).unwrap();
    assert_eq!(c.description, None);
    assert_eq!(c.hidden, None);
    assert_eq!(c.interactive, None);
    let info = OpenCliInfo::from_value(&tree(
        r#"{"title":"t","version":"v","contact":null,"license":null,"summary":null}"#,
    ))
    .unwrap();
    assert_eq!(info.contact, None);
    assert_eq!(info.license, None);
    assert_eq!(info.summary, None);
}

#[test]
fn a_present_empty_value_is_not_absent() {
    let c = command(r#"{"name":"","description":"","hidden":false}"#).unwrap();
    assert_eq!(c.name, "");
    assert_eq!(c.description, Some(String::new()));
    assert_eq!(c.hidden, Some(false));
    let info =
        OpenCliInfo::from_value(&tree(r#"{"title":"t","version":"v","contact":{}}"#)).unwrap();
    assert_eq!(info.contact, Some(OpenCliContact { name: None, url: None, email: None }));
}

#[test]
fn a_required_member_must_be_there() {
    assert_eq!(command(r#"{}"#), Err(DecodeError::MissingField(Field::Name)));
    assert_eq!(command(r#"{"name":null}"#), Err(DecodeError::InvalidField(Field::Name)));
    assert_eq!(
        OpenCliExitCode::from_value(&tree(r#"{"description":"d"}"#)),
        Err(DecodeError::MissingField(Field::Code))
    );
    assert_eq!(
        OpenCliMetadata::from_value(&tree(r#"{"value":1}"#)),
        Err(DecodeError::MissingField(Field::Name))
    );
    assert_eq!(
        OpenCliArgument::from_value(&tree(r#"{}"#)),
        Err(DecodeError::MissingField(Field::Name))
    );
    assert_eq!(
        OpenCliOption::from_value(&tree(r#"{}"#)),
        Err(DecodeError::MissingField(Field::Name))
    );
    assert_eq!(
        OpenCliInfo::from_value(&tree(r#"{"version":"v"}"#)),
        Err(DecodeError::MissingField(Field::Title))
    );
    assert_eq!(
        OpenCliInfo::from_value(&tree(r#"{"title":"t"}"#)),
        Err(DecodeError::MissingField(Field::Version))
    );
    assert_eq!(
        OpenCliDocument::from_value(&tree(r#"{"info":{"title":"t","version":"v"}}"#)),
        Err(DecodeError::MissingField(Field::Opencli))
    );
    assert_eq!(
        OpenCliDocument::from_value(&tree(r#"{"opencli":"0.1"}"#)),
        Err(DecodeError::MissingField(Field::Info))
    );
}

#[test]
fn a_value_of_the_wrong_type_is_refused() {
    assert_eq!(command(r#"{"name":7}"#), Err(DecodeError::InvalidField(Field::Name)));
    assert_eq!(
        command(r#"{"name":"c","hidden":"yes"}"#),
        Err(DecodeError::InvalidField(Field::Hidden))
    );
    assert_eq!(
        command(r#"{"name":"c","description":["d"]}"#),
        Err(DecodeError::InvalidField(Field::Description))
    );
    assert_eq!(
        command(r#"{"name":"c","options":{}}"#),
        Err(DecodeError::InvalidField(Field::Options))
    );
    assert_eq!(
        command(r#"{"name":"c","aliases":"a"}"#),
        Err(DecodeError::InvalidField(Field::Aliases))
    );
    assert_eq!(
        command(r#"{"name":"c","aliases":["a",1]}"#),
        Err(DecodeError::InvalidField(Field::Aliases))
    );
    assert_eq!(
        command(r#"{"name":"c","examples":[null]}"#),
        Err(DecodeError::InvalidField(Field::Examples))
    );
    assert_eq!(
        OpenCliConventions::from_value(&tree(r#"{"groupOptions":1}"#)),
        Err(DecodeError::InvalidField(Field::GroupOptions))
    );
    assert_eq!(
        OpenCliConventions::from_value(&tree(r#"{"optionArgumentSeparator":true}"#)),
        Err(DecodeError::InvalidField(Field::OptionArgumentSeparator))
    );
    assert_eq!(
        OpenCliLicense::from_value(&tree(r#"{"identifier":1}"#)),
        Err(DecodeError::InvalidField(Field::Identifier))
    );
    assert_eq!(
        OpenCliContact::from_value(&tree(r#"{"url":1}"#)),
        Err(DecodeError::InvalidField(Field::Url))
    );
}

#[test]
fn a_record_must_be_an_object() {
    assert_eq!(command(r#"["c"]"#), Err(DecodeError::NotAnObject));
    assert_eq!(command(r#""c""#), Err(DecodeError::NotAnObject));
    assert_eq!(OpenCliDocument::from_value(&tree("null")), Err(DecodeError::NotAnObject));
    assert_eq!(OpenCliArity::from_value(&tree("3")), Err(DecodeError::NotAnObject));
    assert_eq!(
        OpenCliInfo::from_value(&tree(r#"{"title":"t","version":"v","contact":"me"}"#)),
        Err(DecodeError::NotAnObject)
    );
    assert_eq!(command(r#"{"name":"c","commands":["x"]}"#), Err(DecodeError::NotAnObject));
}

#[test]
fn the_first_member_that_fails_decides() {
    assert_eq!(
        command(r#"{"hidden":"yes","aliases":3}"#),
        Err(DecodeError::MissingField(Field::Name))
    );
    assert_eq!(
        command(r#"{"name":"c","hidden":"yes","aliases":3}"#),
        Err(DecodeError::InvalidField(Field::Aliases))
    );
    assert_eq!(
        command(r#"{"name":"c","metadata":[{}],"interactive":3}"#),
        Err(DecodeError::InvalidField(Field::Interactive))
    );
}

#[test]
fn the_first_item_that_fails_decides() {
    assert_eq!(
        command(r#"{"name":"c","commands":[{"name":"a"},{"name":"b","hidden":1},{}]}"#),
        Err(DecodeError::InvalidField(Field::Hidden))
    );
    assert_eq!(
        command(r#"{"name":"c","arguments":[{"name":"a"},{}]}"#),
        Err(DecodeError::MissingField(Field::Name))
    );
    assert_eq!(
        command(r#"{"name":"c","exitCodes":[{"code":1},{"code":"x"}]}"#),
        Err(DecodeError::InvalidField(Field::Code))
    );
    assert_eq!(
        command(r#"{"name":"c","commands":[{"name":"a","commands":[{"name":"b","commands":[{}]}]}]}"#),
        Err(DecodeError::MissingField(Field::Name))
    );
}

#[test]
fn an_exit_code_is_an_integer_of_32_bits() {
    let code = |text: &str| OpenCliExitCode::from_value(&tree(text)).map(|e| e.code);
    assert_eq!(code(r#"{"code":0}"#), Ok(0));
    assert_eq!(code(r#"{"code":2147483647}"#), Ok(i32::MAX));
    assert_eq!(code(r#"{"code":-2147483648}"#), Ok(i32::MIN));
    assert_eq!(code(r#"{"code":2147483648}"#), Err(DecodeError::InvalidField(Field::Code)));
    assert_eq!(code(r#"{"code":-2147483649}"#), Err(DecodeError::InvalidField(Field::Code)));
    assert_eq!(code(r#"{"code":18446744073709551615}"#), Err(DecodeError::InvalidField(Field::Code)));
    assert_eq!(code(r#"{"code":1.0}"#), Err(DecodeError::InvalidField(Field::Code)));
    assert_eq!(code(r#"{"code":"1"}"#), Err(DecodeError::InvalidField(Field::Code)));
    assert_eq!(code(r#"{"code":null}"#), Err(DecodeError::InvalidField(Field::Code)));
}

#[test]
fn an_arity_is_kept_as_written() {
    let arity = OpenCliArity::from_value(&tree(r#"{"minimum":5,"maximum":2}"#)).unwrap();
    assert_eq!(arity, OpenCliArity { minimum: Some(5), maximum: Some(2) });
    let open = OpenCliArity::from_value(&tree(r#"{"minimum":null}"#)).unwrap();
    assert_eq!(open, OpenCliArity { minimum: None, maximum: None });
    assert_eq!(
        OpenCliArity::from_value(&tree(r#"{"maximum":0.5}"#)),
        Err(DecodeError::InvalidField(Field::Maximum))
    );
    assert_eq!(
        OpenCliArity::from_value(&tree(r#"{"minimum":4294967296}"#)),
        Err(DecodeError::InvalidField(Field::Minimum))
    );
}

#[test]
fn a_metadata_value_is_kept_whatever_it_is() {
    let read = |text: &str| OpenCliMetadata::from_value(&tree(text)).unwrap().value;
    assert_eq!(read(r#"{"name":"n"}"#), None);
    assert_eq!(read(r#"{"name":"n","value":null}"#), Some(serde_json::Value::Null));
    assert_eq!(read(r#"{"name":"n","value":true}"#), Some(serde_json::Value::Bool(true)));
    assert_eq!(read(r#"{"name":"n","value":-3}"#), Some(serde_json::Value::from(-3)));
    assert_eq!(read(r#"{"name":"n","value":"s"}"#), Some(serde_json::Value::from("s")));
    assert_eq!(read(r#"{"name":"n","value":[1,[2]]}"#), Some(tree("[1,[2]]")));
    assert_eq!(read(r#"{"name":"n","value":{"a":{"b":null}}}"#), Some(tree(r#"{"a":{"b":null}}"#)));
}

#[test]
fn unknown_members_are_passed_over() {
    let c = command(r#"{"name":"c","colour":"red","exit_codes":[1]}"#).unwrap();
    assert_eq!(c, command(r#"{"name":"c"}"#).unwrap());
}

#[test]
fn member_names_are_in_camel_case() {
    let a = OpenCliArgument::from_value(&tree(r#"{"name":"a","acceptedValues":["x"]}"#)).unwrap();
    assert_eq!(a.accepted_values, vec!["x".to_string()]);
    let a = OpenCliArgument::from_value(&tree(r#"{"name":"a","accepted_values":["x"]}"#)).unwrap();
    assert!(a.accepted_values.is_empty());
    let c = command(r#"{"name":"c","exitCodes":[{"code":2}]}"#).unwrap();
    assert_eq!(c.exit_codes, vec![OpenCliExitCode { code: 2, description: None }]);
    let v = OpenCliConventions::from_value(&tree(
        r#"{"groupOptions":false,"optionArgumentSeparator":":"}"#,
    ))
    .unwrap();
    assert_eq!(
        v,
        OpenCliConventions {
            group_options: Some(false),
            option_argument_separator: Some(":".to_string())
        }
    );
}

#[test]
fn an_option_takes_arguments_of_its_own() {
    let o = OpenCliOption::from_value(&tree(
        r#"{"name":"--out","required":true,"aliases":["-o"],"arguments":[{"name":"file","arity":{"minimum":1}}],"group":"io","recursive":false,"hidden":false,"metadata":[{"name":"m"}]}"#,
    ))
    .unwrap();
    assert_eq!(o.name, "--out");
    assert_eq!(o.required, Some(true));
    assert_eq!(o.aliases, vec!["-o".to_string()]);
    assert_eq!(o.arguments.len(), 1);
    assert_eq!(o.arguments[0].name, "file");
    assert_eq!(o.arguments[0].arity, Some(OpenCliArity { minimum: Some(1), maximum: None }));
    assert_eq!(o.group.as_deref(), Some("io"));
    assert_eq!(o.description, None);
    assert_eq!(o.recursive, Some(false));
    assert_eq!(o.hidden, Some(false));
    assert_eq!(o.metadata, vec![OpenCliMetadata { name: "m".to_string(), value: None }]);
}

#[test]
fn aliases_need_not_differ() {
    let c = command(r#"{"name":"c","aliases":["x","x"]}"#).unwrap();
    assert_eq!(c.aliases, vec!["x".to_string(), "x".to_string()]);
}
