//! The root of a description, and how one is loaded.
//!
//! A text is tried as YAML first. Where that gives a document, the document
//! is the result, whatever JSON would have made of the text. Where it does
//! not, the text is tried as JSON, and a failure of that second attempt is
//! the failure of the load: what went wrong with the first is never
//! reported, also where the text was meant as YAML.

use crate::argument::{
    argument_list_json, decode_argument_list, put_argument_list, read_argument_list, ArgumentView,
    OpenCliArgument,
};
use crate::command::{
    command_list_json, decode_command_list, put_command_list, read_command_list, CommandView,
    OpenCliCommand,
};
use crate::error::{DecodeError, Error, ErrorView};
use crate::exit_code::{
    decode_exit_code_list, exit_code_list_json, put_exit_code_list, read_exit_code_list,
    ExitCodeView, OpenCliExitCode,
};
use crate::field::Field;
use crate::info::{
    decode_conventions, decode_info, encode_conventions, encode_info, ConventionsView, InfoView,
    OpenCliConventions, OpenCliInfo,
};
use crate::json::{
    json_is_null, json_is_object, json_object, json_parsed, json_text, json_view, parse_json,
    parse_yaml, print_json, utf8_text, yaml_parsed, JsonView,
};
use crate::metadata::{
    decode_metadata_list, metadata_list_json, put_metadata_list, read_metadata_list, MetadataView,
    OpenCliMetadata,
};
use crate::option::{
    decode_option_list, option_list_json, put_option_list, read_option_list, OpenCliOption,
    OptionView,
};
use crate::schema::{
    deep, empty_object, optional_flag, optional_flag_json, optional_record, put, put_optional,
    put_optional_flag, put_text, put_text_list, read_member, read_optional_flag, read_required_text,
    read_text_list, required_record, required_text, text_json, text_list, text_list_json, with,
    with_list, with_optional,
};
use vstd::prelude::*;
use vstd::utf8::{decode_utf8, encode_utf8_decode_utf8, valid_utf8};

verus! {

/// The root of the description of one command-line program.
#[derive(Debug, PartialEq)]
pub struct OpenCliDocument {
    /// The version of the format that the document is written in.
    pub opencli: String,
    /// The identity of the program.
    pub info: OpenCliInfo,
    /// How the program reads its command line.
    pub conventions: Option<OpenCliConventions>,
    /// The arguments of the root command.
    pub arguments: Vec<OpenCliArgument>,
    /// The options of the root command.
    pub options: Vec<OpenCliOption>,
    /// The sub commands of the root command.
    pub commands: Vec<OpenCliCommand>,
    /// The exit codes of the root command.
    pub exit_codes: Vec<OpenCliExitCode>,
    /// Examples of how to use the program.
    pub examples: Vec<String>,
    /// Whether the program asks for input while it runs.
    pub interactive: Option<bool>,
    /// Custom metadata.
    pub metadata: Vec<OpenCliMetadata>,
}

/// What a document holds, as mathematical values.
pub struct DocumentView {
    pub opencli: Seq<char>,
    pub info: InfoView,
    pub conventions: Option<ConventionsView>,
    pub arguments: Seq<ArgumentView>,
    pub options: Seq<OptionView>,
    pub commands: Seq<CommandView>,
    pub exit_codes: Seq<ExitCodeView>,
    pub examples: Seq<Seq<char>>,
    pub interactive: Option<bool>,
    pub metadata: Seq<MetadataView>,
}

impl DeepView for OpenCliDocument {
    type V = DocumentView;

    open spec fn deep_view(&self) -> DocumentView {
        DocumentView {
            opencli: self.opencli@,
            info: self.info.deep_view(),
            conventions: self.conventions.deep_view(),
            arguments: self.arguments.deep_view(),
            options: self.options.deep_view(),
            commands: self.commands.deep_view(),
            exit_codes: self.exit_codes.deep_view(),
            examples: self.examples.deep_view(),
            interactive: self.interactive,
            metadata: self.metadata.deep_view(),
        }
    }
}

impl View for OpenCliDocument {
    type V = DocumentView;

    open spec fn view(&self) -> DocumentView {
        self.deep_view()
    }
}

/// The document that a tree describes. `opencli` and `info` are required;
/// the members are tried in the order written, and the first that fails
/// decides the failure.
pub open spec fn decode_document(j: JsonView) -> Result<DocumentView, DecodeError> {
    let opencli = required_text(j, Field::Opencli);
    let info = required_record(j, Field::Info, |x: JsonView| decode_info(x));
    let conventions = optional_record(j, Field::Conventions, |x: JsonView| decode_conventions(x));
    let arguments = decode_argument_list(j, Field::Arguments);
    let options = decode_option_list(j, Field::Options);
    let commands = decode_command_list(j, Field::Commands);
    let exit_codes = decode_exit_code_list(j, Field::ExitCodes);
    let examples = text_list(j, Field::Examples);
    let interactive = optional_flag(j, Field::Interactive);
    let metadata = decode_metadata_list(j, Field::Metadata);
    if !(j is Object) {
        Err(DecodeError::NotAnObject)
    } else if opencli is Err {
        Err(opencli->Err_0)
    } else if info is Err {
        Err(info->Err_0)
    } else if conventions is Err {
        Err(conventions->Err_0)
    } else if arguments is Err {
        Err(arguments->Err_0)
    } else if options is Err {
        Err(options->Err_0)
    } else if commands is Err {
        Err(commands->Err_0)
    } else if exit_codes is Err {
        Err(exit_codes->Err_0)
    } else if examples is Err {
        Err(examples->Err_0)
    } else if interactive is Err {
        Err(interactive->Err_0)
    } else if metadata is Err {
        Err(metadata->Err_0)
    } else {
        Ok(
            DocumentView {
                opencli: opencli->Ok_0,
                info: info->Ok_0,
                conventions: conventions->Ok_0,
                arguments: arguments->Ok_0,
                options: options->Ok_0,
                commands: commands->Ok_0,
                exit_codes: exit_codes->Ok_0,
                examples: examples->Ok_0,
                interactive: interactive->Ok_0,
                metadata: metadata->Ok_0,
            },
        )
    }
}

/// The tree of the conventions, where there are any.
pub open spec fn optional_conventions_json(c: Option<ConventionsView>) -> Option<JsonView> {
    match c {
        Some(x) => Some(encode_conventions(x)),
        None => None,
    }
}

/// The tree that is written for a document. An absent member and an empty
/// sequence are left out.
pub open spec fn encode_document(d: DocumentView) -> JsonView {
    let j = empty_object();
    let j = with(j, Field::Opencli, text_json(d.opencli));
    let j = with(j, Field::Info, encode_info(d.info));
    let j = with_optional(j, Field::Conventions, optional_conventions_json(d.conventions));
    let j = with_list(j, Field::Arguments, argument_list_json(d.arguments));
    let j = with_list(j, Field::Options, option_list_json(d.options));
    let j = with_list(j, Field::Commands, command_list_json(d.commands));
    let j = with_list(j, Field::ExitCodes, exit_code_list_json(d.exit_codes));
    let j = with_list(j, Field::Examples, text_list_json(d.examples));
    let j = with_optional(j, Field::Interactive, optional_flag_json(d.interactive));
    with_list(j, Field::Metadata, metadata_list_json(d.metadata))
}

/// The document that the first format gives, where it gives one.
pub open spec fn yaml_alone(yaml: Option<JsonView>) -> Option<DocumentView> {
    match yaml {
        Some(j) => match decode_document(j) {
            Ok(d) => Some(d),
            Err(_) => None,
        },
        None => None,
    }
}

/// The document that the second format gives, or its diagnostic: the
/// parser's, where the text is no JSON, and else the one that says why the
/// tree is no document.
pub open spec fn json_alone(json: Result<JsonView, Seq<char>>) -> Result<DocumentView, Seq<char>> {
    match json {
        Ok(j) => match decode_document(j) {
            Ok(d) => Ok(d),
            Err(e) => Err(e.message_spec()),
        },
        Err(m) => Err(m),
    }
}

/// What a load makes of the two parsers' outcomes: the first format's
/// document where there is one, and else whatever the second format gives.
pub open spec fn load(yaml: Option<JsonView>, json: Result<JsonView, Seq<char>>) -> Result<
    DocumentView,
    Seq<char>,
> {
    match yaml_alone(yaml) {
        Some(d) => Ok(d),
        None => json_alone(json),
    }
}

/// The document that a text loads to, or the diagnostic of the failure.
pub open spec fn load_text(text: Seq<char>) -> Result<DocumentView, Seq<char>> {
    load(yaml_parsed(text), json_parsed(text))
}

/// A load's result as it is handed to the caller: a diagnostic becomes a
/// parse failure.
pub open spec fn surfaced(r: Result<DocumentView, Seq<char>>) -> Result<DocumentView, ErrorView> {
    match r {
        Ok(d) => Ok(d),
        Err(m) => Err(ErrorView::Parse(m)),
    }
}

/// A result of a load, the document and the failure taken by what they hold.
pub open spec fn outcome(r: Result<OpenCliDocument, Error>) -> Result<DocumentView, ErrorView> {
    match r {
        Ok(d) => Ok(d@),
        Err(e) => Err(e@),
    }
}

/// What the second parser handed over, the tree and the diagnostic taken by
/// what they hold.
pub open spec fn attempt_view(attempt: Result<serde_json::Value, String>) -> Result<
    JsonView,
    Seq<char>,
> {
    match attempt {
        Ok(v) => Ok(json_view(v)),
        Err(m) => Err(m@),
    }
}

impl Clone for OpenCliDocument {
    fn clone(&self) -> (r: Self)
        ensures
            r@ == self@,
    {
        let arguments = self.arguments.clone();
        let options = self.options.clone();
        let commands = self.commands.clone();
        let exit_codes = self.exit_codes.clone();
        let examples = self.examples.clone();
        let metadata = self.metadata.clone();
        proof {
            assert(arguments.deep_view() =~= self.arguments.deep_view());
            assert(options.deep_view() =~= self.options.deep_view());
            assert(commands.deep_view() =~= self.commands.deep_view());
            assert(exit_codes.deep_view() =~= self.exit_codes.deep_view());
            assert(examples.deep_view() =~= self.examples.deep_view());
            assert(metadata.deep_view() =~= self.metadata.deep_view());
        }
        OpenCliDocument {
            opencli: self.opencli.clone(),
            info: self.info.clone(),
            conventions: self.conventions.clone(),
            arguments,
            options,
            commands,
            exit_codes,
            examples,
            interactive: self.interactive,
            metadata,
        }
    }
}

impl OpenCliDocument {
    /// Reads a document from a tree, to any depth of commands.
    pub fn from_value(v: &serde_json::Value) -> (r: Result<Self, DecodeError>)
        ensures
            deep(r) == decode_document(json_view(*v)),
    {
        if !json_is_object(v) {
            return Err(DecodeError::NotAnObject);
        }
        let opencli = read_required_text(v, Field::Opencli)?;
        let info = match read_member(v, Field::Info) {
            None => {
                return Err(DecodeError::MissingField(Field::Info));
            },
            Some(m) => OpenCliInfo::from_value(m)?,
        };
        let conventions = match read_member(v, Field::Conventions) {
            None => None,
            Some(m) => if json_is_null(m) {
                None
            } else {
                Some(OpenCliConventions::from_value(m)?)
            },
        };
        let arguments = read_argument_list(v, Field::Arguments)?;
        let options = read_option_list(v, Field::Options)?;
        let commands = read_command_list(v, Field::Commands)?;
        let exit_codes = read_exit_code_list(v, Field::ExitCodes)?;
        let examples = read_text_list(v, Field::Examples)?;
        let interactive = read_optional_flag(v, Field::Interactive)?;
        let metadata = read_metadata_list(v, Field::Metadata)?;
        Ok(
            OpenCliDocument {
                opencli,
                info,
                conventions,
                arguments,
                options,
                commands,
                exit_codes,
                examples,
                interactive,
                metadata,
            },
        )
    }

    /// Writes the document as a tree.
    pub fn to_value(&self) -> (r: serde_json::Value)
        ensures
            json_view(r) == encode_document(self@),
    {
        let mut obj = json_object();
        put_text(&mut obj, Field::Opencli, self.opencli.as_str());
        put(&mut obj, Field::Info, self.info.to_value());
        let conventions = match &self.conventions {
            Some(c) => Some(c.to_value()),
            None => None,
        };
        put_optional(&mut obj, Field::Conventions, conventions);
        put_argument_list(&mut obj, Field::Arguments, &self.arguments);
        put_option_list(&mut obj, Field::Options, &self.options);
        put_command_list(&mut obj, Field::Commands, &self.commands);
        put_exit_code_list(&mut obj, Field::ExitCodes, &self.exit_codes);
        put_text_list(&mut obj, Field::Examples, &self.examples);
        put_optional_flag(&mut obj, Field::Interactive, self.interactive);
        put_metadata_list(&mut obj, Field::Metadata, &self.metadata);
        obj
    }

    /// Writes the document as compact JSON text: the text of the tree that
    /// [`OpenCliDocument::to_value`] gives. Every document can be written, so
    /// a text always comes back.
    pub fn to_json(&self) -> (r: Option<String>)
        ensures
            r is Some,
            r->Some_0@ == json_text(encode_document(self@)),
    {
        let value = self.to_value();
        print_json(&value)
    }

    /// Finishes a load with what the JSON parser made of the text: the
    /// document that its tree describes, or a parse failure with the
    /// diagnostic.
    pub fn from_json_attempt(attempt: Result<serde_json::Value, String>) -> (r: Result<Self, Error>)
        ensures
            outcome(r) == surfaced(json_alone(attempt_view(attempt))),
    {
        match attempt {
            Ok(v) => match OpenCliDocument::from_value(&v) {
                Ok(d) => Ok(d),
                Err(e) => Err(Error::Parse(e.message())),
            },
            Err(m) => Err(Error::Parse(m)),
        }
    }

    /// Loads a document from text in either format.
    ///
    /// Either parser reads the text as a tree of plain values first, and the
    /// records are read from that tree by the same rules. So a member is held
    /// to its type in YAML as in JSON: a text member takes a string, and a
    /// scalar that YAML reads as a number, a boolean or `null`, such as an
    /// unquoted `version: 1.0`, is refused. Where a name stands twice in one
    /// object, its last value counts. Both parsers give up on a text that
    /// nests deeper than 128 levels, which then fails as any other text that
    /// is no document does.
    pub fn from_str(content: &str) -> (r: Result<Self, Error>)
        ensures
            outcome(r) == surfaced(load_text(content@)),
    {
        match parse_yaml(content) {
            Some(v) => match OpenCliDocument::from_value(&v) {
                Ok(d) => {
                    return Ok(d);
                },
                Err(_) => {},
            },
            None => {},
        }
        OpenCliDocument::from_json_attempt(parse_json(content))
    }

    /// Loads a document from bytes. They must be well-formed UTF-8: no other
    /// encoding is guessed, and no byte is replaced. The text that they
    /// encode is loaded as [`OpenCliDocument::from_str`] loads it, so the
    /// parsers' limit of 128 levels of nesting holds here too.
    pub fn from_slice(content: &[u8]) -> (r: Result<Self, Error>)
        ensures
            outcome(r) == if valid_utf8(content@) {
                surfaced(load_text(decode_utf8(content@)))
            } else {
                Err(ErrorView::Other("utf8"@))
            },
    {
        match utf8_text(content) {
            Some(text) => {
                proof {
                    encode_utf8_decode_utf8(text@);
                }
                OpenCliDocument::from_str(text)
            },
            None => Err(Error::Other("utf8")),
        }
    }
}

} // verus!
