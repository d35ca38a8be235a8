use opencli::{
    DecodeError, Error, Field, OpenCliCommand, OpenCliContact, OpenCliDocument, OpenCliMetadata,
};

const NAMES: [(Field, &str); 33] = [
    (Field::Opencli, "opencli"),
    (Field::Info, "info"),
    (Field::Conventions, "conventions"),
    (Field::Arguments, "arguments"),
    (Field::Options, "options"),
    (Field::Commands, "commands"),
    (Field::ExitCodes, "exitCodes"),
    (Field::Examples, "examples"),
    (Field::Interactive, "interactive"),
    (Field::Metadata, "metadata"),
    (Field::Title, "title"),
    (Field::Summary, "summary"),
    (Field::Description, "description"),
    (Field::Contact, "contact"),
    (Field::License, "license"),
    (Field::Version, "version"),
    (Field::GroupOptions, "groupOptions"),
    (Field::OptionArgumentSeparator, "optionArgumentSeparator"),
    (Field::Name, "name"),
    (Field::Url, "url"),
    (Field::Email, "email"),
    (Field::Identifier, "identifier"),
    (Field::Aliases, "aliases"),
    (Field::Hidden, "hidden"),
    (Field::Required, "required"),
    (Field::Arity, "arity"),
    (Field::AcceptedValues, "acceptedValues"),
    (Field::Group, "group"),
    (Field::Recursive, "recursive"),
    (Field::Minimum, "minimum"),
    (Field::Maximum, "maximum"),
    (Field::Code, "code"),
    (Field::Value, "value"),
];

#[test]
fn every_member_has_its_name() {
    for (field, name) in NAMES {
        assert_eq!(field.name(), name);
    }
}

#[test]
fn no_two_members_share_a_name() {
    for (i, (a, _)) in NAMES.iter().enumerate() {
        for (k, (b, _)) in NAMES.iter().enumerate() {
            assert_eq!(a.name() == b.name(), i == k);
            assert_eq!(a == b, i == k);
        }
    }
}

#[test]
fn a_decode_failure_says_what_failed() {
    assert_eq!(DecodeError::NotAnObject.message(), "expected an object");
    assert_eq!(DecodeError::MissingField(Field::Opencli).message(), "missing field `opencli`");
    assert_eq!(
        DecodeError::InvalidField(Field::ExitCodes).message(),
        "invalid value of field `exitCodes`"
    );
}

#[test]
fn a_failure_is_reported_under_its_heading() {
    assert_eq!(Error::Parse("expected value".to_string()).message(), "Parsing error");
    assert_eq!(Error::Io("no such file".to_string()).message(), "Filesystem access error");
    assert_eq!(Error::Other("utf8").message(), "Other error");
}

#[test]
fn the_kinds_of_failure_differ() {
    assert_ne!(Error::Parse("x".to_string()), Error::Io("x".to_string()));
    assert_ne!(Error::Parse("utf8".to_string()), Error::Other("utf8"));
    assert_eq!(Error::Other("utf8").clone(), Error::Other("utf8"));
}

#[test]
fn a_clone_equals_what_it_was_taken_from() {
    let text = r#"{"opencli":"0.1","info":{"title":"t","version":"v","contact":{"name":"n"},"license":{"identifier":"MIT"}},"conventions":{"groupOptions":true},"arguments":[{"name":"a","arity":{"minimum":1},"acceptedValues":["x"],"metadata":[{"name":"m","value":{"k":[1,2]}}]}],"options":[{"name":"-o","aliases":["--o"],"arguments":[{"name":"b"}]}],"commands":[{"name":"c","commands":[{"name":"d","commands":[{"name":"e","exitCodes":[{"code":3}]}]}]}],"exitCodes":[{"code":1,"description":"d"}],"examples":["e"],"interactive":true,"metadata":[{"name":"m"}]}"#;
    let doc = OpenCliDocument::from_str(text).unwrap();
    let copy = doc.clone();
    assert_eq!(copy, doc);
    assert_eq!(copy.commands[0].commands[0].commands[0].exit_codes[0].code, 3);
    assert_eq!(copy.arguments[0].metadata[0], doc.arguments[0].metadata[0].clone());
    assert_eq!(copy.info.clone(), doc.info);
    assert_eq!(copy.conventions.clone(), doc.conventions);
    assert_eq!(copy.options[0].clone(), doc.options[0]);
    assert_eq!(copy.exit_codes[0].clone(), doc.exit_codes[0]);
    assert_eq!(copy.arguments[0].arity.clone(), doc.arguments[0].arity);
    assert_eq!(copy.info.contact.clone(), doc.info.contact);
    assert_eq!(copy.info.license.clone(), doc.info.license);
}

#[test]
fn a_clone_is_a_value_of_its_own() {
    let source = OpenCliCommand::from_value(
        &serde_json::from_str::<serde_json::Value>(r#"{"name":"c","commands":[{"name":"d"}]}"#)
            .unwrap(),
    )
    .unwrap();
    let mut copy = source.clone();
    copy.commands[0].name.push('x');
    copy.aliases.push("a".to_string());
    assert_eq!(source.commands[0].name, "d");
    assert!(source.aliases.is_empty());
    assert_ne!(copy, source);
}

#[test]
fn absent_differs_from_present_and_empty() {
    let absent = OpenCliContact { name: None, url: None, email: None };
    let empty = OpenCliContact { name: Some(String::new()), url: None, email: None };
    assert_ne!(absent, empty);
    let none = OpenCliMetadata { name: "n".to_string(), value: None };
    let null = OpenCliMetadata { name: "n".to_string(), value: Some(serde_json::Value::Null) };
    assert_ne!(none, null);
}
