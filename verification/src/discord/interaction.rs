//! From what the chat hands over to the command that it means.

use vstd::prelude::*;
use vstd::string::StringExecFns;

verus! {

/// The name of the one command of the raffle.
pub const RAFFLE: &'static str = "raffle";

/// The sub-command that enters a name by hand.
pub const ADD: &'static str = "add";

/// The sub-command that clears the roster.
pub const CLEAR: &'static str = "clear";

/// The sub-command that imports from the ticketing service.
pub const LOAD: &'static str = "load";

/// The sub-command that draws winners.
pub const PICK: &'static str = "pick";

/// The sub-command that counts the entries.
pub const SIZE: &'static str = "size";

/// The option of `add` that holds the name.
pub const NAME: &'static str = "name";

/// The option of `pick` that holds the number of winners.
pub const AMOUNT: &'static str = "amount";

/// The number of winners that `pick` draws unless told otherwise.
pub const DEFAULT_AMOUNT: u64 = 1;

/// The value of an option of a sub-command.
pub enum ArgumentValue {
    String(String),
    Integer(i64),
    /// A value of a kind that no sub-command of the raffle takes.
    Other,
}

/// An option of a sub-command.
pub struct Argument {
    pub name: String,
    pub value: ArgumentValue,
}

/// The value of an option of a command.
pub enum OptionValue {
    /// A sub-command, with its options.
    SubCommand(Vec<Argument>),
    /// Anything else.
    Other,
}

/// An option of a command.
pub struct CommandOption {
    pub name: String,
    pub value: OptionValue,
}

/// What the raffle can be told to do.
#[derive(Debug, PartialEq)]
pub enum Command {
    Add { name: String },
    Clear,
    Load,
    Pick { amount: u64 },
    Size,
}

/// Why what the chat handed over is no command.
#[derive(Debug, PartialEq)]
pub enum SlashCommandError {
    /// A sub-command came without an option that it needs. The two
    /// texts are worded as "Missing Option", the first, "for", the
    /// second; `add` without a name gives its own name first and the
    /// name of the option second.
    MissingOption(String, String),
    NoSubCommand,
    UnknownSubCommand,
}

/// An `ArgumentValue`, its text read as a sequence of characters.
pub enum ArgumentValueView {
    String(Seq<char>),
    Integer(i64),
    Other,
}

/// An `Argument`, its texts read as sequences of characters.
pub struct ArgumentView {
    pub name: Seq<char>,
    pub value: ArgumentValueView,
}

/// An `OptionValue`, its texts read as sequences of characters.
pub enum OptionValueView {
    SubCommand(Seq<ArgumentView>),
    Other,
}

/// A `CommandOption`, its texts read as sequences of characters.
pub struct CommandOptionView {
    pub name: Seq<char>,
    pub value: OptionValueView,
}

/// A `Command`, its text read as a sequence of characters.
pub enum CommandView {
    Add { name: Seq<char> },
    Clear,
    Load,
    Pick { amount: u64 },
    Size,
}

/// A `SlashCommandError`, its texts read as sequences of characters.
pub enum SlashCommandErrorView {
    MissingOption(Seq<char>, Seq<char>),
    NoSubCommand,
    UnknownSubCommand,
}

impl View for ArgumentValue {
    type V = ArgumentValueView;

    open spec fn view(&self) -> ArgumentValueView {
        match self {
            ArgumentValue::String(text) => ArgumentValueView::String(text@),
            ArgumentValue::Integer(number) => ArgumentValueView::Integer(*number),
            ArgumentValue::Other => ArgumentValueView::Other,
        }
    }
}

impl View for Argument {
    type V = ArgumentView;

    open spec fn view(&self) -> ArgumentView {
        ArgumentView { name: self.name@, value: self.value@ }
    }
}

impl DeepView for Argument {
    type V = ArgumentView;

    open spec fn deep_view(&self) -> ArgumentView {
        self@
    }
}

impl View for OptionValue {
    type V = OptionValueView;

    open spec fn view(&self) -> OptionValueView {
        match self {
            OptionValue::SubCommand(arguments) => OptionValueView::SubCommand(
                arguments.deep_view(),
            ),
            OptionValue::Other => OptionValueView::Other,
        }
    }
}

impl View for CommandOption {
    type V = CommandOptionView;

    open spec fn view(&self) -> CommandOptionView {
        CommandOptionView { name: self.name@, value: self.value@ }
    }
}

impl DeepView for CommandOption {
    type V = CommandOptionView;

    open spec fn deep_view(&self) -> CommandOptionView {
        self@
    }
}

impl View for Command {
    type V = CommandView;

    open spec fn view(&self) -> CommandView {
        match self {
            Command::Add { name } => CommandView::Add { name: name@ },
            Command::Clear => CommandView::Clear,
            Command::Load => CommandView::Load,
            Command::Pick { amount } => CommandView::Pick { amount: *amount },
            Command::Size => CommandView::Size,
        }
    }
}

impl View for SlashCommandError {
    type V = SlashCommandErrorView;

    open spec fn view(&self) -> SlashCommandErrorView {
        match self {
            SlashCommandError::MissingOption(first, second) => {
                SlashCommandErrorView::MissingOption(first@, second@)
            },
            SlashCommandError::NoSubCommand => SlashCommandErrorView::NoSubCommand,
            SlashCommandError::UnknownSubCommand => SlashCommandErrorView::UnknownSubCommand,
        }
    }
}

impl SlashCommandErrorView {
    /// The error in words.
    pub open spec fn text(self) -> Seq<char> {
        match self {
            SlashCommandErrorView::MissingOption(first, second) => "Missing Option "@ + first
                + " for "@ + second,
            SlashCommandErrorView::NoSubCommand => "No Sub-Command Provided"@,
            SlashCommandErrorView::UnknownSubCommand => "Unknown Sub-Command"@,
        }
    }
}

impl SlashCommandError {
    /// The error in words.
    pub fn to_string(&self) -> (text: String)
        ensures
            text@ == self@.text(),
    {
        match self {
            SlashCommandError::MissingOption(first, second) => {
                let mut text = String::from_str("Missing Option ");
                text.append(first.as_str());
                text.append(" for ");
                text.append(second.as_str());
                text
            },
            SlashCommandError::NoSubCommand => String::from_str("No Sub-Command Provided"),
            SlashCommandError::UnknownSubCommand => String::from_str("Unknown Sub-Command"),
        }
    }
}

/// The number of winners that the integer `number` asks for: itself,
/// and for a negative one what its bits say when read without a sign.
pub open spec fn amount_of(number: i64) -> u64 {
    if number >= 0 {
        number as u64
    } else {
        (number + 0x1_0000_0000_0000_0000) as u64
    }
}

/// The command that the options of a sub-command named `name` mean.
///
/// `add` takes its name from the first option, which must be a text.
/// `pick` takes its number from the first option, one where there is
/// none; it must be an integer. `clear`, `load` and `size` take nothing.
pub open spec fn subcommand(name: Seq<char>, arguments: Seq<ArgumentView>) -> Result<
    CommandView,
    SlashCommandErrorView,
> {
    if name == ADD@ {
        if arguments.len() > 0 && arguments[0].value is String {
            Ok(CommandView::Add { name: arguments[0].value->String_0 })
        } else {
            Err(SlashCommandErrorView::MissingOption(ADD@, NAME@))
        }
    } else if name == CLEAR@ {
        Ok(CommandView::Clear)
    } else if name == LOAD@ {
        Ok(CommandView::Load)
    } else if name == PICK@ {
        if arguments.len() == 0 {
            Ok(CommandView::Pick { amount: DEFAULT_AMOUNT })
        } else if arguments[0].value is Integer {
            Ok(CommandView::Pick { amount: amount_of(arguments[0].value->Integer_0) })
        } else {
            Err(SlashCommandErrorView::UnknownSubCommand)
        }
    } else if name == SIZE@ {
        Ok(CommandView::Size)
    } else {
        Err(SlashCommandErrorView::UnknownSubCommand)
    }
}

/// The command that `options` mean: that of their first, which must be
/// a sub-command.
pub open spec fn command_of(options: Seq<CommandOptionView>) -> Result<
    CommandView,
    SlashCommandErrorView,
> {
    if options.len() == 0 {
        Err(SlashCommandErrorView::NoSubCommand)
    } else {
        match options[0].value {
            OptionValueView::SubCommand(arguments) => subcommand(options[0].name, arguments),
            OptionValueView::Other => Err(SlashCommandErrorView::UnknownSubCommand),
        }
    }
}

fn is(text: &String, word: &str) -> (same: bool)
    ensures
        same == (text@ == word@),
{
    let word = String::from_str(word);
    *text == word
}

fn amount_from(number: i64) -> (amount: u64)
    ensures
        amount == amount_of(number),
{
    if number >= 0 {
        number as u64
    } else {
        let below: i64 = -(number + 1);
        u64::MAX - (below as u64)
    }
}

/// Reads the command that the options of an interaction mean.
pub fn match_subcommand(options: &Vec<CommandOption>) -> (command: Result<
    Command,
    SlashCommandError,
>)
    ensures
        match command {
            Ok(command) => command_of(options.deep_view()) == Ok::<
                CommandView,
                SlashCommandErrorView,
            >(command@),
            Err(error) => command_of(options.deep_view()) == Err::<
                CommandView,
                SlashCommandErrorView,
            >(error@),
        },
{
    if options.len() == 0 {
        return Err(SlashCommandError::NoSubCommand);
    }
    let first = &options[0];
    match &first.value {
        OptionValue::SubCommand(arguments) => {
            if is(&first.name, ADD) {
                if arguments.len() > 0 {
                    if let ArgumentValue::String(name) = &arguments[0].value {
                        return Ok(Command::Add { name: name.clone() });
                    }
                }
                Err(
                    SlashCommandError::MissingOption(
                        String::from_str(ADD),
                        String::from_str(NAME),
                    ),
                )
            } else if is(&first.name, CLEAR) {
                Ok(Command::Clear)
            } else if is(&first.name, LOAD) {
                Ok(Command::Load)
            } else if is(&first.name, PICK) {
                if arguments.len() == 0 {
                    Ok(Command::Pick { amount: DEFAULT_AMOUNT })
                } else {
                    match &arguments[0].value {
                        ArgumentValue::Integer(number) => Ok(
                            Command::Pick { amount: amount_from(*number) },
                        ),
                        _ => Err(SlashCommandError::UnknownSubCommand),
                    }
                }
            } else if is(&first.name, SIZE) {
                Ok(Command::Size)
            } else {
                Err(SlashCommandError::UnknownSubCommand)
            }
        },
        OptionValue::Other => Err(SlashCommandError::UnknownSubCommand),
    }
}

/// Reads an interaction: `None` where it is not for the raffle, else the
/// command that its options mean.
pub fn interaction_create(name: &str, options: &Vec<CommandOption>) -> (command: Option<
    Result<Command, SlashCommandError>,
>)
    ensures
        (command is Some) == (name@ == RAFFLE@),
        match command {
            Some(Ok(command)) => command_of(options.deep_view()) == Ok::<
                CommandView,
                SlashCommandErrorView,
            >(command@),
            Some(Err(error)) => command_of(options.deep_view()) == Err::<
                CommandView,
                SlashCommandErrorView,
            >(error@),
            None => true,
        },
{
    let name = String::from_str(name);
    if is(&name, RAFFLE) {
        Some(match_subcommand(options))
    } else {
        None
    }
}

/// The kind of value that an option of a sub-command takes.
#[derive(Debug, PartialEq)]
pub enum ArgumentKind {
    String,
    Integer,
}

/// An option of a sub-command as the chat is told of it.
#[derive(Debug, PartialEq)]
pub struct ArgumentSchema {
    pub kind: ArgumentKind,
    pub name: String,
    pub description: String,
    pub required: bool,
    /// The least integer that the chat lets through.
    pub min_int_value: Option<u64>,
}

/// A sub-command as the chat is told of it.
#[derive(Debug, PartialEq)]
pub struct SubCommandSchema {
    pub name: String,
    pub description: String,
    /// The one option that it takes, if it takes one.
    pub argument: Option<ArgumentSchema>,
}

/// A command as the chat is told of it.
#[derive(Debug, PartialEq)]
pub struct CommandSchema {
    pub name: String,
    pub description: String,
    pub subcommands: Vec<SubCommandSchema>,
}

/// An `ArgumentSchema`, its texts read as sequences of characters.
pub struct ArgumentSchemaView {
    pub kind: ArgumentKind,
    pub name: Seq<char>,
    pub description: Seq<char>,
    pub required: bool,
    pub min_int_value: Option<u64>,
}

/// A `SubCommandSchema`, its texts read as sequences of characters.
pub struct SubCommandSchemaView {
    pub name: Seq<char>,
    pub description: Seq<char>,
    pub argument: Option<ArgumentSchemaView>,
}

/// A `CommandSchema`, its texts read as sequences of characters.
pub struct CommandSchemaView {
    pub name: Seq<char>,
    pub description: Seq<char>,
    pub subcommands: Seq<SubCommandSchemaView>,
}

impl View for ArgumentSchema {
    type V = ArgumentSchemaView;

    open spec fn view(&self) -> ArgumentSchemaView {
        ArgumentSchemaView {
            kind: self.kind,
            name: self.name@,
            description: self.description@,
            required: self.required,
            min_int_value: self.min_int_value,
        }
    }
}

impl View for SubCommandSchema {
    type V = SubCommandSchemaView;

    open spec fn view(&self) -> SubCommandSchemaView {
        SubCommandSchemaView {
            name: self.name@,
            description: self.description@,
            argument: match self.argument {
                Some(argument) => Some(argument@),
                None => None,
            },
        }
    }
}

impl DeepView for SubCommandSchema {
    type V = SubCommandSchemaView;

    open spec fn deep_view(&self) -> SubCommandSchemaView {
        self@
    }
}

impl View for CommandSchema {
    type V = CommandSchemaView;

    open spec fn view(&self) -> CommandSchemaView {
        CommandSchemaView {
            name: self.name@,
            description: self.description@,
            subcommands: self.subcommands.deep_view(),
        }
    }
}

/// A sub-command that takes no option.
pub open spec fn plain(name: Seq<char>, description: Seq<char>) -> SubCommandSchemaView {
    SubCommandSchemaView { name, description, argument: None }
}

/// The command of the raffle as the chat is told of it: `pick` with an
/// optional number of at least one, `add` with a name that must be
/// given, and `clear`, `load` and `size`, which take nothing.
pub open spec fn raffle_schema() -> CommandSchemaView {
    CommandSchemaView {
        name: RAFFLE@,
        description: "Raffle Subcommand"@,
        subcommands: seq![
            SubCommandSchemaView {
                name: PICK@,
                description: "Pick a winner"@,
                argument: Some(
                    ArgumentSchemaView {
                        kind: ArgumentKind::Integer,
                        name: AMOUNT@,
                        description: "Number of winners to pick"@,
                        required: false,
                        min_int_value: Some(1),
                    },
                ),
            },
            SubCommandSchemaView {
                name: ADD@,
                description: "Add an entry by hand"@,
                argument: Some(
                    ArgumentSchemaView {
                        kind: ArgumentKind::String,
                        name: NAME@,
                        description: "Entry's Full Name"@,
                        required: true,
                        min_int_value: None,
                    },
                ),
            },
            plain(CLEAR@, "Clear raffle list"@),
            plain(LOAD@, "Load tickets from tito"@),
            plain(SIZE@, "Number of entries in the raffle"@),
        ],
    }
}

fn plain_subcommand(name: &str, description: &str) -> (schema: SubCommandSchema)
    ensures
        schema@ == plain(name@, description@),
{
    SubCommandSchema {
        name: String::from_str(name),
        description: String::from_str(description),
        argument: None,
    }
}

/// The command of the raffle as the chat is to be told of it.
pub fn raffle_command() -> (schema: CommandSchema)
    ensures
        schema@ == raffle_schema(),
{
    let mut subcommands: Vec<SubCommandSchema> = Vec::new();
    subcommands.push(
        SubCommandSchema {
            name: String::from_str(PICK),
            description: String::from_str("Pick a winner"),
            argument: Some(
                ArgumentSchema {
                    kind: ArgumentKind::Integer,
                    name: String::from_str(AMOUNT),
                    description: String::from_str("Number of winners to pick"),
                    required: false,
                    min_int_value: Some(1),
                },
            ),
        },
    );
    subcommands.push(
        SubCommandSchema {
            name: String::from_str(ADD),
            description: String::from_str("Add an entry by hand"),
            argument: Some(
                ArgumentSchema {
                    kind: ArgumentKind::String,
                    name: String::from_str(NAME),
                    description: String::from_str("Entry's Full Name"),
                    required: true,
                    min_int_value: None,
                },
            ),
        },
    );
    subcommands.push(plain_subcommand(CLEAR, "Clear raffle list"));
    subcommands.push(plain_subcommand(LOAD, "Load tickets from tito"));
    subcommands.push(plain_subcommand(SIZE, "Number of entries in the raffle"));
    let schema = CommandSchema {
        name: String::from_str(RAFFLE),
        description: String::from_str("Raffle Subcommand"),
        subcommands,
    };
    assert(schema@.subcommands =~= raffle_schema().subcommands);
    schema
}

/// Whether `arguments` are what the chat lets through for a sub-command
/// told of as `schema`: nothing where it takes no option; else at most
/// one value, of the kind told, which is there if it must be.
pub open spec fn fits(schema: SubCommandSchemaView, arguments: Seq<ArgumentView>) -> bool {
    match schema.argument {
        None => arguments.len() == 0,
        Some(argument) => {
            &&& arguments.len() <= 1
            &&& argument.required ==> arguments.len() == 1
            &&& arguments.len() == 1 ==> match argument.kind {
                ArgumentKind::String => arguments[0].value is String,
                ArgumentKind::Integer => arguments[0].value is Integer,
            }
        },
    }
}

/// Every sub-command that the chat is told of is understood: whatever
/// the chat lets through for it is a command.
pub proof fn lemma_told_is_understood(at: int, arguments: Seq<ArgumentView>)
    requires
        0 <= at < raffle_schema().subcommands.len(),
        fits(raffle_schema().subcommands[at], arguments),
    ensures
        subcommand(raffle_schema().subcommands[at].name, arguments) is Ok,
{
    reveal_strlit("add");
    reveal_strlit("clear");
    reveal_strlit("load");
    reveal_strlit("pick");
    reveal_strlit("size");
    let name = raffle_schema().subcommands[at].name;
    if at == 0 {
        assert(name == PICK@);
    } else if at == 1 {
    } else if at == 2 {
        assert(name == CLEAR@);
    } else if at == 3 {
        assert(name == LOAD@);
    } else {
        assert(name == SIZE@);
    }
}

} // verus!
