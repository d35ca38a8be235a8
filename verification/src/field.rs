//! The member names of the serialized form.

use vstd::prelude::*;

verus! {

/// A member of a serialized record. Each stands for one name, written in
/// lower camel case whatever the field is called in memory.
#[derive(Clone, Copy, Debug, PartialEq, Eq, Structural)]
pub enum Field {
    Opencli,
    Info,
    Conventions,
    Arguments,
    Options,
    Commands,
    ExitCodes,
    Examples,
    Interactive,
    Metadata,
    Title,
    Summary,
    Description,
    Contact,
    License,
    Version,
    GroupOptions,
    OptionArgumentSeparator,
    Name,
    Url,
    Email,
    Identifier,
    Aliases,
    Hidden,
    Required,
    Arity,
    AcceptedValues,
    Group,
    Recursive,
    Minimum,
    Maximum,
    Code,
    Value,
}

impl Field {
    /// The member's name as it is written in a document.
    pub open spec fn key(self) -> Seq<char> {
        match self {
            Field::Opencli => "opencli"@,
            Field::Info => "info"@,
            Field::Conventions => "conventions"@,
            Field::Arguments => "arguments"@,
            Field::Options => "options"@,
            Field::Commands => "commands"@,
            Field::ExitCodes => "exitCodes"@,
            Field::Examples => "examples"@,
            Field::Interactive => "interactive"@,
            Field::Metadata => "metadata"@,
            Field::Title => "title"@,
            Field::Summary => "summary"@,
            Field::Description => "description"@,
            Field::Contact => "contact"@,
            Field::License => "license"@,
            Field::Version => "version"@,
            Field::GroupOptions => "groupOptions"@,
            Field::OptionArgumentSeparator => "optionArgumentSeparator"@,
            Field::Name => "name"@,
            Field::Url => "url"@,
            Field::Email => "email"@,
            Field::Identifier => "identifier"@,
            Field::Aliases => "aliases"@,
            Field::Hidden => "hidden"@,
            Field::Required => "required"@,
            Field::Arity => "arity"@,
            Field::AcceptedValues => "acceptedValues"@,
            Field::Group => "group"@,
            Field::Recursive => "recursive"@,
            Field::Minimum => "minimum"@,
            Field::Maximum => "maximum"@,
            Field::Code => "code"@,
            Field::Value => "value"@,
        }
    }

    /// The member's name as it is written in a document.
    pub fn name(self) -> (s: &'static str)
        ensures
            s@ == self.key(),
    {
        match self {
            Field::Opencli => "opencli",
            Field::Info => "info",
            Field::Conventions => "conventions",
            Field::Arguments => "arguments",
            Field::Options => "options",
            Field::Commands => "commands",
            Field::ExitCodes => "exitCodes",
            Field::Examples => "examples",
            Field::Interactive => "interactive",
            Field::Metadata => "metadata",
            Field::Title => "title",
            Field::Summary => "summary",
            Field::Description => "description",
            Field::Contact => "contact",
            Field::License => "license",
            Field::Version => "version",
            Field::GroupOptions => "groupOptions",
            Field::OptionArgumentSeparator => "optionArgumentSeparator",
            Field::Name => "name",
            Field::Url => "url",
            Field::Email => "email",
            Field::Identifier => "identifier",
            Field::Aliases => "aliases",
            Field::Hidden => "hidden",
            Field::Required => "required",
            Field::Arity => "arity",
            Field::AcceptedValues => "acceptedValues",
            Field::Group => "group",
            Field::Recursive => "recursive",
            Field::Minimum => "minimum",
            Field::Maximum => "maximum",
            Field::Code => "code",
            Field::Value => "value",
        }
    }

    /// Two members with the same name are the same member.
    pub proof fn lemma_key_injective(self, other: Field)
        requires
            self.key() == other.key(),
        ensures
            self == other,
    {
        reveal_names();
    }
}

/// Whether a name has that length, first letter and third letter.
spec fn spelled(name: Seq<char>, len: nat, first: char, third: char) -> bool {
    name.len() == len && name[0] == first && name[2] == third
}

/// The length, the first and the third letter of each member name: enough
/// to tell any two apart.
proof fn reveal_names()
    ensures
        spelled("opencli"@, 7, 'o', 'e'),
        spelled("info"@, 4, 'i', 'f'),
        spelled("conventions"@, 11, 'c', 'n'),
        spelled("arguments"@, 9, 'a', 'g'),
        spelled("options"@, 7, 'o', 't'),
        spelled("commands"@, 8, 'c', 'm'),
        spelled("exitCodes"@, 9, 'e', 'i'),
        spelled("examples"@, 8, 'e', 'a'),
        spelled("interactive"@, 11, 'i', 't'),
        spelled("metadata"@, 8, 'm', 't'),
        spelled("title"@, 5, 't', 't'),
        spelled("summary"@, 7, 's', 'm'),
        spelled("description"@, 11, 'd', 's'),
        spelled("contact"@, 7, 'c', 'n'),
        spelled("license"@, 7, 'l', 'c'),
        spelled("version"@, 7, 'v', 'r'),
        spelled("groupOptions"@, 12, 'g', 'o'),
        spelled("optionArgumentSeparator"@, 23, 'o', 't'),
        spelled("name"@, 4, 'n', 'm'),
        spelled("url"@, 3, 'u', 'l'),
        spelled("email"@, 5, 'e', 'a'),
        spelled("identifier"@, 10, 'i', 'e'),
        spelled("aliases"@, 7, 'a', 'i'),
        spelled("hidden"@, 6, 'h', 'd'),
        spelled("required"@, 8, 'r', 'q'),
        spelled("arity"@, 5, 'a', 'i'),
        spelled("acceptedValues"@, 14, 'a', 'c'),
        spelled("group"@, 5, 'g', 'o'),
        spelled("recursive"@, 9, 'r', 'c'),
        spelled("minimum"@, 7, 'm', 'n'),
        spelled("maximum"@, 7, 'm', 'x'),
        spelled("code"@, 4, 'c', 'd'),
        spelled("value"@, 5, 'v', 'l'),
{
    reveal_strlit("opencli");
    reveal_strlit("info");
    reveal_strlit("conventions");
    reveal_strlit("arguments");
    reveal_strlit("options");
    reveal_strlit("commands");
    reveal_strlit("exitCodes");
    reveal_strlit("examples");
    reveal_strlit("interactive");
    reveal_strlit("metadata");
    reveal_strlit("title");
    reveal_strlit("summary");
    reveal_strlit("description");
    reveal_strlit("contact");
    reveal_strlit("license");
    reveal_strlit("version");
    reveal_strlit("groupOptions");
    reveal_strlit("optionArgumentSeparator");
    reveal_strlit("name");
    reveal_strlit("url");
    reveal_strlit("email");
    reveal_strlit("identifier");
    reveal_strlit("aliases");
    reveal_strlit("hidden");
    reveal_strlit("required");
    reveal_strlit("arity");
    reveal_strlit("acceptedValues");
    reveal_strlit("group");
    reveal_strlit("recursive");
    reveal_strlit("minimum");
    reveal_strlit("maximum");
    reveal_strlit("code");
    reveal_strlit("value");
}

} // verus!
