use opencli::{
    OpenCliArgument, OpenCliArity, OpenCliCommand, OpenCliContact, OpenCliConventions,
    OpenCliDocument, OpenCliExitCode, OpenCliInfo, OpenCliLicense, OpenCliMetadata,
    OpenCliOption,
};

fn tree(text: &str) -> serde_json::Value {
    serde_json::from_str::<serde_json::Value>(text).unwrap()
}

fn info() -> OpenCliInfo {
    OpenCliInfo {
        title: "demo".to_string(),
        summary: None,
        description: None,
        contact: None,
        license: None,
        version: "1.0".to_string(),
    }
}

fn bare_command(name: &str) -> OpenCliCommand {
    OpenCliCommand {
        name: name.to_string(),
        aliases: vec![],
        options: vec![],
        arguments: vec![],
        commands: vec![],
        exit_codes: vec![],
        description: None,
        hidden: None,
        examples: vec![],
        interactive: None,
        metadata: vec![],
    }
}

fn bare_document() -> OpenCliDocument {
    OpenCliDocument {
        opencli: "0.1".to_string(),
        info: info(),
        conventions: None,
        arguments: vec![],
        options: vec![],
        commands: vec![],
        exit_codes: vec![],
        examples: vec![],
        interactive: None,
        metadata: vec![],
    }
}

fn full_document() -> OpenCliDocument {
    let argument = OpenCliArgument {
        name: "target".to_string(),
        required: Some(true),
        arity: Some(OpenCliArity { minimum: Some(3), maximum: Some(1) }),
        accepted_values: vec!["debug".to_string(), "release".to_string()],
        group: Some("g".to_string()),
        description: Some(String::new()),
        hidden: Some(false),
        metadata: vec![OpenCliMetadata {
            name: "m".to_string(),
            value: Some(tree(r#"{"k":[1,-2,3.5,"s",true,null,{}]}"#)),
        }],
    };
    let option = OpenCliOption {
        name: "--out".to_string(),
        required: None,
        aliases: vec!["-o".to_string(), "-o".to_string()],
        arguments: vec![argument.clone()],
        group: None,
        description: Some("where \"to\"\n".to_string()),
        recursive: Some(true),
        hidden: None,
        metadata: vec![OpenCliMetadata { name: "n".to_string(), value: None }],
    };
    let mut leaf = bare_command("leaf");
    leaf.exit_codes = vec![
        OpenCliExitCode { code: i32::MIN, description: None },
        OpenCliExitCode { code: i32::MAX, description: Some("worst".to_string()) },
    ];
    let mut middle = bare_command("middle");
    middle.commands = vec![leaf, bare_command("other")];
    middle.options = vec![option.clone()];
    middle.hidden = Some(true);
    let mut top = bare_command("top");
    top.aliases = vec!["t".to_string()];
    top.arguments = vec![argument.clone()];
    top.commands = vec![middle];
    top.description = Some("caf\u{e9} \u{1f600}".to_string());
    top.examples = vec!["top middle leaf".to_string()];
    top.interactive = Some(false);
    top.metadata = vec![OpenCliMetadata { name: "x".to_string(), value: Some(tree("0")) }];
    OpenCliDocument {
        opencli: "0.1".to_string(),
        info: OpenCliInfo {
            title: "demo".to_string(),
            summary: Some("s".to_string()),
            description: Some("d".to_string()),
            contact: Some(OpenCliContact {
                name: Some("n".to_string()),
                url: Some("https://example.org".to_string()),
                email: None,
            }),
            license: Some(OpenCliLicense { name: Some("MIT License".to_string()), identifier: None }),
            version: "1.0".to_string(),
        },
        conventions: Some(OpenCliConventions {
            group_options: Some(true),
            option_argument_separator: Some(" ".to_string()),
        }),
        arguments: vec![argument],
        options: vec![option],
        commands: vec![top, bare_command("second")],
        exit_codes: vec![OpenCliExitCode { code: 0, description: Some("ok".to_string()) }],
        examples: vec!["demo".to_string(), String::new()],
        interactive: Some(true),
        metadata: vec![
            OpenCliMetadata { name: "y".to_string(), value: Some(tree("[]")) },
            OpenCliMetadata { name: "z".to_string(), value: Some(serde_json::Value::Null) },
        ],
    }
}

#[test]
fn a_bare_document_is_written_without_its_empty_members() {
    let doc = bare_document();
    assert_eq!(doc.to_value(), tree(r#"{"opencli":"0.1","info":{"title":"demo","version":"1.0"}}"#));
    assert_eq!(
        doc.to_json().unwrap(),
        r#"{"info":{"title":"demo","version":"1.0"},"opencli":"0.1"}"#
    );
}

#[test]
fn a_bare_command_is_written_as_its_name() {
    assert_eq!(bare_command("build").to_value(), tree(r#"{"name":"build"}"#));
}

#[test]
fn members_are_written_in_camel_case() {
    let conventions = OpenCliConventions {
        group_options: Some(true),
        option_argument_separator: Some("=".to_string()),
    };
    assert_eq!(
        conventions.to_value(),
        tree(r#"{"groupOptions":true,"optionArgumentSeparator":"="}"#)
    );
    let mut c = bare_command("c");
    c.exit_codes = vec![OpenCliExitCode { code: -7, description: None }];
    assert_eq!(c.to_value(), tree(r#"{"name":"c","exitCodes":[{"code":-7}]}"#));
    let a = OpenCliArgument {
        name: "a".to_string(),
        required: None,
        arity: None,
        accepted_values: vec!["x".to_string()],
        group: None,
        description: None,
        hidden: None,
        metadata: vec![],
    };
    assert_eq!(a.to_value(), tree(r#"{"name":"a","acceptedValues":["x"]}"#));
}

#[test]
fn every_member_of_a_full_document_is_written() {
    let doc = full_document();
    let written = doc.to_value();
    assert_eq!(written["opencli"], tree(r#""0.1""#));
    assert_eq!(
        written["info"],
        tree(
            r#"{"title":"demo","summary":"s","description":"d","contact":{"name":"n","url":"https://example.org"},"license":{"name":"MIT License"},"version":"1.0"}"#
        )
    );
    assert_eq!(written["conventions"], tree(r#"{"groupOptions":true,"optionArgumentSeparator":" "}"#));
    assert_eq!(written["exitCodes"], tree(r#"[{"code":0,"description":"ok"}]"#));
    assert_eq!(written["examples"], tree(r#"["demo",""]"#));
    assert_eq!(written["interactive"], tree("true"));
    assert_eq!(
        written["metadata"],
        tree(r#"[{"name":"y","value":[]},{"name":"z","value":null}]"#)
    );
    assert_eq!(
        written["arguments"],
        tree(
            r#"[{"name":"target","required":true,"arity":{"minimum":3,"maximum":1},"acceptedValues":["debug","release"],"group":"g","description":"","hidden":false,"metadata":[{"name":"m","value":{"k":[1,-2,3.5,"s",true,null,{}]}}]}]"#
        )
    );
    assert_eq!(written["options"][0]["aliases"], tree(r#"["-o","-o"]"#));
    assert_eq!(written["options"][0]["recursive"], tree("true"));
    assert_eq!(written["options"][0]["metadata"], tree(r#"[{"name":"n"}]"#));
    assert_eq!(written["options"][0]["arguments"], written["arguments"]);
    assert_eq!(written["commands"][1], tree(r#"{"name":"second"}"#));
    assert_eq!(written["commands"][0]["commands"][0]["commands"][1], tree(r#"{"name":"other"}"#));
    assert_eq!(
        written["commands"][0]["commands"][0]["commands"][0],
        tree(r#"{"name":"leaf","exitCodes":[{"code":-2147483648},{"code":2147483647,"description":"worst"}]}"#)
    );
    assert_eq!(written["commands"][0]["commands"][0]["hidden"], tree("true"));
    assert_eq!(written["commands"][0]["interactive"], tree("false"));
    assert_eq!(written["commands"][0]["metadata"], tree(r#"[{"name":"x","value":0}]"#));
}

#[test]
fn a_document_comes_back_from_its_tree() {
    let doc = full_document();
    assert_eq!(OpenCliDocument::from_value(&doc.to_value()), Ok(full_document()));
    let bare = bare_document();
    assert_eq!(OpenCliDocument::from_value(&bare.to_value()), Ok(bare_document()));
}

#[test]
fn a_document_comes_back_from_its_json_text() {
    let doc = full_document();
    let text = doc.to_json().unwrap();
    assert_eq!(OpenCliDocument::from_str(&text), Ok(full_document()));
    assert_eq!(OpenCliDocument::from_slice(text.as_bytes()), Ok(full_document()));
}

#[test]
fn a_second_round_trip_changes_nothing() {
    let first = full_document().to_json().unwrap();
    let back = OpenCliDocument::from_str(&first).unwrap();
    let second = back.to_json().unwrap();
    assert_eq!(first, second);
    assert_eq!(OpenCliDocument::from_str(&second), Ok(back));
}

#[test]
fn every_record_comes_back_from_its_tree() {
    let doc = full_document();
    let info = &doc.info;
    assert_eq!(OpenCliInfo::from_value(&info.to_value()).as_ref(), Ok(info));
    let contact = info.contact.as_ref().unwrap();
    assert_eq!(OpenCliContact::from_value(&contact.to_value()).as_ref(), Ok(contact));
    let license = info.license.as_ref().unwrap();
    assert_eq!(OpenCliLicense::from_value(&license.to_value()).as_ref(), Ok(license));
    let conventions = doc.conventions.as_ref().unwrap();
    assert_eq!(OpenCliConventions::from_value(&conventions.to_value()).as_ref(), Ok(conventions));
    let argument = &doc.arguments[0];
    assert_eq!(OpenCliArgument::from_value(&argument.to_value()).as_ref(), Ok(argument));
    let arity = argument.arity.as_ref().unwrap();
    assert_eq!(OpenCliArity::from_value(&arity.to_value()).as_ref(), Ok(arity));
    let option = &doc.options[0];
    assert_eq!(OpenCliOption::from_value(&option.to_value()).as_ref(), Ok(option));
    let command = &doc.commands[0];
    assert_eq!(OpenCliCommand::from_value(&command.to_value()).as_ref(), Ok(command));
    let exit_code = &doc.exit_codes[0];
    assert_eq!(OpenCliExitCode::from_value(&exit_code.to_value()).as_ref(), Ok(exit_code));
    let metadata = &doc.metadata[0];
    assert_eq!(OpenCliMetadata::from_value(&metadata.to_value()).as_ref(), Ok(metadata));
}

#[test]
fn a_metadata_value_of_null_comes_back_as_a_value() {
    let entry = OpenCliMetadata { name: "n".to_string(), value: Some(serde_json::Value::Null) };
    assert_eq!(entry.to_value(), tree(r#"{"name":"n","value":null}"#));
    assert_eq!(
        OpenCliMetadata::from_value(&entry.to_value()),
        Ok(OpenCliMetadata { name: "n".to_string(), value: Some(serde_json::Value::Null) })
    );
    let none = OpenCliMetadata { name: "n".to_string(), value: None };
    assert_eq!(none.to_value(), tree(r#"{"name":"n"}"#));
    assert_eq!(
        OpenCliMetadata::from_value(&none.to_value()),
        Ok(OpenCliMetadata { name: "n".to_string(), value: None })
    );
}

#[test]
fn a_document_with_a_null_metadata_value_comes_back_from_its_text() {
    let mut doc = bare_document();
    doc.metadata =
        vec![OpenCliMetadata { name: "k".to_string(), value: Some(serde_json::Value::Null) }];
    let text = doc.to_json().unwrap();
    assert_eq!(
        text,
        r#"{"info":{"title":"demo","version":"1.0"},"metadata":[{"name":"k","value":null}],"opencli":"0.1"}"#
    );
    let back = OpenCliDocument::from_str(&text).unwrap();
    assert_eq!(back.metadata.len(), 1);
    assert_eq!(back.metadata[0].name, "k");
    assert_eq!(back.metadata[0].value, Some(serde_json::Value::Null));
    assert_eq!(back, doc);
    assert_eq!(OpenCliDocument::from_value(&doc.to_value()).as_ref(), Ok(&doc));
}

#[test]
fn an_empty_record_is_written_as_an_empty_object() {
    let contact = OpenCliContact { name: None, url: None, email: None };
    assert_eq!(contact.to_value(), tree("{}"));
    let arity = OpenCliArity { minimum: None, maximum: None };
    assert_eq!(arity.to_value(), tree("{}"));
    let mut i = info();
    i.contact = Some(contact);
    assert_eq!(i.to_value(), tree(r#"{"title":"demo","version":"1.0","contact":{}}"#));
    assert_eq!(OpenCliInfo::from_value(&i.to_value()), Ok(i));
}

#[test]
fn a_document_with_any_metadata_value_can_be_written() {
    let mut doc = bare_document();
    doc.metadata = vec![OpenCliMetadata {
        name: "m".to_string(),
        value: Some(tree(r#"{"a":[1.5e300,-0.0,18446744073709551615,{"b":{"c":[[[]]]}},"é\n"]}"#)),
    }];
    assert_eq!(
        doc.to_json(),
        Some(
            r#"{"info":{"title":"demo","version":"1.0"},"metadata":[{"name":"m","value":{"a":[1.5e+300,-0.0,18446744073709551615,{"b":{"c":[[[]]]}},"é\n"]}}],"opencli":"0.1"}"#
                .to_string()
        )
    );
    assert!(full_document().to_json().is_some());
}
