//! The command tree.

use crate::argument::{
    argument_list_json, decode_argument_list, put_argument_list, read_argument_list, ArgumentView,
    OpenCliArgument,
};
use crate::error::DecodeError;
use crate::exit_code::{
    decode_exit_code_list, exit_code_list_json, put_exit_code_list, read_exit_code_list,
    ExitCodeView, OpenCliExitCode,
};
use crate::field::Field;
use crate::json::{json_is_object, json_object, json_view, views_of, JsonView};
use crate::metadata::{
    decode_metadata_list, metadata_list_json, put_metadata_list, read_metadata_list, MetadataView,
    OpenCliMetadata,
};
use crate::option::{
    decode_option_list, option_list_json, put_option_list, read_option_list, OpenCliOption,
    OptionView,
};
use crate::schema::{
    collect, deep, empty_object, items_of, lemma_collect_failure, lemma_collect_step, optional_flag,
    optional_flag_json, optional_text, optional_text_json, put_list, put_optional_flag,
    put_optional_text, put_text, put_text_list, read_items, read_optional_flag, read_optional_text,
    read_required_text, read_text_list, required_text, text_json, text_list, text_list_json, with,
    with_list, with_optional,
};
use vstd::prelude::*;

verus! {

/// One command of the described program. Its sub commands are commands
/// again, to any depth.
#[derive(Debug, PartialEq)]
pub struct OpenCliCommand {
    /// The command name.
    pub name: String,
    /// Other names of the command. They need not differ from each other.
    pub aliases: Vec<String>,
    /// The command's options.
    pub options: Vec<OpenCliOption>,
    /// The command's arguments.
    pub arguments: Vec<OpenCliArgument>,
    /// The command's sub commands.
    pub commands: Vec<OpenCliCommand>,
    /// The command's exit codes.
    pub exit_codes: Vec<OpenCliExitCode>,
    /// The command description.
    pub description: Option<String>,
    /// Whether the command is hidden.
    pub hidden: Option<bool>,
    /// Examples of how to use the command.
    pub examples: Vec<String>,
    /// Whether the command asks for input while it runs.
    pub interactive: Option<bool>,
    /// Custom metadata.
    pub metadata: Vec<OpenCliMetadata>,
}

/// What a command holds, as mathematical values.
pub struct CommandView {
    pub name: Seq<char>,
    pub aliases: Seq<Seq<char>>,
    pub options: Seq<OptionView>,
    pub arguments: Seq<ArgumentView>,
    pub commands: Seq<CommandView>,
    pub exit_codes: Seq<ExitCodeView>,
    pub description: Option<Seq<char>>,
    pub hidden: Option<bool>,
    pub examples: Seq<Seq<char>>,
    pub interactive: Option<bool>,
    pub metadata: Seq<MetadataView>,
}

/// What a command holds, its sub commands taken by what they hold.
pub open spec fn command_view(c: OpenCliCommand) -> CommandView
    decreases c,
{
    CommandView {
        name: c.name@,
        aliases: c.aliases.deep_view(),
        options: c.options.deep_view(),
        arguments: c.arguments.deep_view(),
        commands: Seq::new(
            c.commands@.len(),
            |i: int|
                if 0 <= i < c.commands@.len() {
                    command_view(c.commands@[i])
                } else {
                    arbitrary()
                },
        ),
        exit_codes: c.exit_codes.deep_view(),
        description: c.description.deep_view(),
        hidden: c.hidden,
        examples: c.examples.deep_view(),
        interactive: c.interactive,
        metadata: c.metadata.deep_view(),
    }
}

impl DeepView for OpenCliCommand {
    type V = CommandView;

    open spec fn deep_view(&self) -> CommandView {
        command_view(*self)
    }
}

impl View for OpenCliCommand {
    type V = CommandView;

    open spec fn view(&self) -> CommandView {
        command_view(*self)
    }
}

/// The sub commands of a command's view are the views of its sub commands.
pub proof fn lemma_command_view(c: OpenCliCommand)
    ensures
        c@.commands == c.commands.deep_view(),
{
    assert(c@.commands =~= c.commands.deep_view());
}

/// The command that a tree describes. `name` is required.
pub open spec fn decode_command(j: JsonView) -> Result<CommandView, DecodeError>
    decreases j, 2int,
{
    let name = required_text(j, Field::Name);
    let aliases = text_list(j, Field::Aliases);
    let options = decode_option_list(j, Field::Options);
    let arguments = decode_argument_list(j, Field::Arguments);
    let commands = decode_command_list(j, Field::Commands);
    let exit_codes = decode_exit_code_list(j, Field::ExitCodes);
    let description = optional_text(j, Field::Description);
    let hidden = optional_flag(j, Field::Hidden);
    let examples = text_list(j, Field::Examples);
    let interactive = optional_flag(j, Field::Interactive);
    let metadata = decode_metadata_list(j, Field::Metadata);
    if !(j is Object) {
        Err(DecodeError::NotAnObject)
    } else if name is Err {
        Err(name->Err_0)
    } else if aliases is Err {
        Err(aliases->Err_0)
    } else if options is Err {
        Err(options->Err_0)
    } else if arguments is Err {
        Err(arguments->Err_0)
    } else if commands is Err {
        Err(commands->Err_0)
    } else if exit_codes is Err {
        Err(exit_codes->Err_0)
    } else if description is Err {
        Err(description->Err_0)
    } else if hidden is Err {
        Err(hidden->Err_0)
    } else if examples is Err {
        Err(examples->Err_0)
    } else if interactive is Err {
        Err(interactive->Err_0)
    } else if metadata is Err {
        Err(metadata->Err_0)
    } else {
        Ok(
            CommandView {
                name: name->Ok_0,
                aliases: aliases->Ok_0,
                options: options->Ok_0,
                arguments: arguments->Ok_0,
                commands: commands->Ok_0,
                exit_codes: exit_codes->Ok_0,
                description: description->Ok_0,
                hidden: hidden->Ok_0,
                examples: examples->Ok_0,
                interactive: interactive->Ok_0,
                metadata: metadata->Ok_0,
            },
        )
    }
}

/// What each item of a list decodes to as a command.
pub open spec fn decode_each_command(j: JsonView, f: Field) -> Seq<Result<CommandView, DecodeError>>
    decreases j, 0int,
{
    match items_of(j, f) {
        Some(xs) => Seq::new(
            xs.len(),
            |i: int|
                if 0 <= i < xs.len() {
                    decode_command(xs[i])
                } else {
                    Err(DecodeError::NotAnObject)
                },
        ),
        None => Seq::empty(),
    }
}

/// The commands under a sequence member.
pub open spec fn decode_command_list(j: JsonView, f: Field) -> Result<
    Seq<CommandView>,
    DecodeError,
>
    decreases j, 1int,
{
    match items_of(j, f) {
        Some(xs) => collect(decode_each_command(j, f)),
        None => Err(DecodeError::InvalidField(f)),
    }
}

/// The tree that is written for a command.
pub open spec fn encode_command(c: CommandView) -> JsonView
    decreases c,
{
    let j = empty_object();
    let j = with(j, Field::Name, text_json(c.name));
    let j = with_list(j, Field::Aliases, text_list_json(c.aliases));
    let j = with_list(j, Field::Options, option_list_json(c.options));
    let j = with_list(j, Field::Arguments, argument_list_json(c.arguments));
    let j = with_list(j, Field::Commands, command_list_json(c.commands));
    let j = with_list(j, Field::ExitCodes, exit_code_list_json(c.exit_codes));
    let j = with_optional(j, Field::Description, optional_text_json(c.description));
    let j = with_optional(j, Field::Hidden, optional_flag_json(c.hidden));
    let j = with_list(j, Field::Examples, text_list_json(c.examples));
    let j = with_optional(j, Field::Interactive, optional_flag_json(c.interactive));
    with_list(j, Field::Metadata, metadata_list_json(c.metadata))
}

/// The trees that are written for a run of commands.
pub open spec fn command_list_json(items: Seq<CommandView>) -> Seq<JsonView>
    decreases items,
{
    Seq::new(
        items.len(),
        |i: int|
            if 0 <= i < items.len() {
                encode_command(items[i])
            } else {
                JsonView::Null
            },
    )
}

impl Clone for OpenCliCommand {
    fn clone(&self) -> (r: Self)
        ensures
            r@ == self@,
        decreases self,
    {
        let aliases = self.aliases.clone();
        let options = self.options.clone();
        let arguments = self.arguments.clone();
        let mut commands: Vec<OpenCliCommand> = Vec::new();
        let mut i: usize = 0;
        while i < self.commands.len()
            invariant
                i <= self.commands.len(),
                commands@.len() == i,
                forall|k: int| 0 <= k < i ==> (#[trigger] commands@[k])@ == self.commands@[k]@,
            decreases self.commands.len() - i,
        {
            commands.push(self.commands[i].clone());
            i += 1;
        }
        let exit_codes = self.exit_codes.clone();
        let examples = self.examples.clone();
        let metadata = self.metadata.clone();
        proof {
            assert(aliases.deep_view() =~= self.aliases.deep_view());
            assert(options.deep_view() =~= self.options.deep_view());
            assert(arguments.deep_view() =~= self.arguments.deep_view());
            assert(commands.deep_view() =~= self.commands.deep_view());
            assert(exit_codes.deep_view() =~= self.exit_codes.deep_view());
            assert(examples.deep_view() =~= self.examples.deep_view());
            assert(metadata.deep_view() =~= self.metadata.deep_view());
        }
        let r = OpenCliCommand {
            name: self.name.clone(),
            aliases,
            options,
            arguments,
            commands,
            exit_codes,
            description: self.description.clone(),
            hidden: self.hidden,
            examples,
            interactive: self.interactive,
            metadata,
        };
        proof {
            lemma_command_view(r);
            lemma_command_view(*self);
        }
        r
    }
}

impl OpenCliCommand {
    /// Reads a command, with the commands below it, from a tree.
    pub fn from_value(v: &serde_json::Value) -> (r: Result<Self, DecodeError>)
        ensures
            deep(r) == decode_command(json_view(*v)),
        decreases json_view(*v), 1int,
    {
        if !json_is_object(v) {
            return Err(DecodeError::NotAnObject);
        }
        let name = read_required_text(v, Field::Name)?;
        let aliases = read_text_list(v, Field::Aliases)?;
        let options = read_option_list(v, Field::Options)?;
        let arguments = read_argument_list(v, Field::Arguments)?;
        let commands = read_command_list(v, Field::Commands)?;
        let exit_codes = read_exit_code_list(v, Field::ExitCodes)?;
        let description = read_optional_text(v, Field::Description)?;
        let hidden = read_optional_flag(v, Field::Hidden)?;
        let examples = read_text_list(v, Field::Examples)?;
        let interactive = read_optional_flag(v, Field::Interactive)?;
        let metadata = read_metadata_list(v, Field::Metadata)?;
        let command = OpenCliCommand {
            name,
            aliases,
            options,
            arguments,
            commands,
            exit_codes,
            description,
            hidden,
            examples,
            interactive,
            metadata,
        };
        proof {
            lemma_command_view(command);
        }
        Ok(command)
    }

    /// Writes the command, with the commands below it, as a tree.
    pub fn to_value(&self) -> (r: serde_json::Value)
        ensures
            json_view(r) == encode_command(self@),
        decreases self,
    {
        proof {
            lemma_command_view(*self);
        }
        let mut obj = json_object();
        put_text(&mut obj, Field::Name, self.name.as_str());
        put_text_list(&mut obj, Field::Aliases, &self.aliases);
        put_option_list(&mut obj, Field::Options, &self.options);
        put_argument_list(&mut obj, Field::Arguments, &self.arguments);
        put_command_list(&mut obj, Field::Commands, &self.commands);
        put_exit_code_list(&mut obj, Field::ExitCodes, &self.exit_codes);
        put_optional_text(&mut obj, Field::Description, &self.description);
        put_optional_flag(&mut obj, Field::Hidden, self.hidden);
        put_text_list(&mut obj, Field::Examples, &self.examples);
        put_optional_flag(&mut obj, Field::Interactive, self.interactive);
        put_metadata_list(&mut obj, Field::Metadata, &self.metadata);
        obj
    }
}

/// Reads the records under a sequence member.
pub(crate) fn read_command_list(v: &serde_json::Value, f: Field) -> (r: Result<
    Vec<OpenCliCommand>,
    DecodeError,
>)
    ensures
        deep(r) == decode_command_list(json_view(*v), f),
    decreases json_view(*v), 0int,
{
    let mut out: Vec<OpenCliCommand> = Vec::new();
    let found = read_items(v, f)?;
    let ghost results = decode_each_command(json_view(*v), f);
    match found {
        None => {
            proof {
                assert(results.len() == 0);
                assert(out.deep_view() =~= Seq::empty());
            }
        },
        Some(items) => {
            let mut i: usize = 0;
            proof {
                assert(results.take(0) =~= Seq::empty());
                assert(out.deep_view() =~= Seq::empty());
            }
            while i < items.len()
                invariant
                    i <= items.len(),
                    items_of(json_view(*v), f) == Some(views_of(items@)),
                    results == decode_each_command(json_view(*v), f),
                    results.len() == items.len(),
                    collect(results.take(i as int)) == Ok::<Seq<CommandView>, DecodeError>(
                        out.deep_view(),
                    ),
                decreases items.len() - i,
            {
                let ghost before = out.deep_view();
                proof {
                    lemma_collect_step(results, i as int);
                    assert(json_view(items@[i as int]) == views_of(items@)[i as int]);
                }
                match OpenCliCommand::from_value(&items[i]) {
                    Ok(x) => {
                        out.push(x);
                        assert(out.deep_view() =~= before.push(x.deep_view()));
                    },
                    Err(e) => {
                        proof {
                            lemma_collect_failure(results, i + 1);
                        }
                        return Err(e);
                    },
                }
                i += 1;
            }
            proof {
                assert(results.take(i as int) =~= results);
            }
        },
    }
    Ok(out)
}

/// Sets a member to the trees of the records where there are any.
pub(crate) fn put_command_list(obj: &mut serde_json::Value, f: Field, items: &Vec<OpenCliCommand>)
    requires
        json_view(*old(obj)) is Object,
    ensures
        json_view(*final(obj)) == with_list(
            json_view(*old(obj)),
            f,
            command_list_json(items.deep_view()),
        ),
        json_view(*final(obj)) is Object,
    decreases items,
{
    let mut out: Vec<serde_json::Value> = Vec::new();
    let mut i: usize = 0;
    while i < items.len()
        invariant
            i <= items.len(),
            out@.len() == i,
            forall|k: int|
                0 <= k < i ==> json_view(#[trigger] out@[k]) == encode_command(items@[k]@),
        decreases items.len() - i,
    {
        out.push(items[i].to_value());
        i += 1;
    }
    proof {
        assert(views_of(out@) =~= command_list_json(items.deep_view()));
    }
    put_list(obj, f, out);
}

} // verus!
