//! Data model and loader for OpenCLI documents.
//!
//! An OpenCLI document describes a command-line program: its identity, its
//! commands, their arguments and options, exit codes and metadata. This
//! crate holds the records of such a description and loads one from YAML or
//! JSON text.

pub mod argument;
pub mod command;
pub mod document;
pub mod error;
pub mod exit_code;
pub mod field;
pub mod info;
pub mod json;
pub mod laws;
pub mod metadata;
pub mod option;
pub mod schema;

pub use argument::{OpenCliArgument, OpenCliArity};
pub use command::OpenCliCommand;
pub use document::OpenCliDocument;
pub use error::{DecodeError, Error};
pub use exit_code::OpenCliExitCode;
pub use field::Field;
pub use info::{OpenCliContact, OpenCliConventions, OpenCliInfo, OpenCliLicense};
pub use metadata::OpenCliMetadata;
pub use option::OpenCliOption;
