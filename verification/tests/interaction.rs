use casino_cosmico::discord::interaction::{
    interaction_create, match_subcommand, raffle_command, Argument, ArgumentKind, ArgumentValue,
    Command, CommandOption, OptionValue, SlashCommandError, ADD, AMOUNT, CLEAR, LOAD, NAME, PICK,
    RAFFLE, SIZE,
};

fn sub(name: &str, arguments: Vec<Argument>) -> Vec<CommandOption> {
    vec![CommandOption { name: name.to_string(), value: OptionValue::SubCommand(arguments) }]
}

fn text(name: &str, value: &str) -> Argument {
    Argument { name: name.to_string(), value: ArgumentValue::String(value.to_string()) }
}

fn integer(name: &str, value: i64) -> Argument {
    Argument { name: name.to_string(), value: ArgumentValue::Integer(value) }
}

fn other(name: &str) -> Argument {
    Argument { name: name.to_string(), value: ArgumentValue::Other }
}

#[test]
fn each_sub_command_is_read() {
    assert_eq!(
        match_subcommand(&sub("add", vec![text("name", "Jane Doe")])),
        Ok(Command::Add { name: "Jane Doe".to_string() })
    );
    assert_eq!(match_subcommand(&sub("clear", vec![])), Ok(Command::Clear));
    assert_eq!(match_subcommand(&sub("load", vec![])), Ok(Command::Load));
    assert_eq!(match_subcommand(&sub("size", vec![])), Ok(Command::Size));
    assert_eq!(
        match_subcommand(&sub("pick", vec![integer("amount", 3)])),
        Ok(Command::Pick { amount: 3 })
    );
}

#[test]
fn pick_without_a_number_draws_one() {
    assert_eq!(match_subcommand(&sub("pick", vec![])), Ok(Command::Pick { amount: 1 }));
}

#[test]
fn pick_reads_a_negative_number_without_its_sign() {
    assert_eq!(
        match_subcommand(&sub("pick", vec![integer("amount", -1)])),
        Ok(Command::Pick { amount: u64::MAX })
    );
    assert_eq!(
        match_subcommand(&sub("pick", vec![integer("amount", i64::MIN)])),
        Ok(Command::Pick { amount: 1 << 63 })
    );
    assert_eq!(
        match_subcommand(&sub("pick", vec![integer("amount", i64::MAX)])),
        Ok(Command::Pick { amount: i64::MAX as u64 })
    );
    assert_eq!(
        match_subcommand(&sub("pick", vec![integer("amount", 0)])),
        Ok(Command::Pick { amount: 0 })
    );
}

#[test]
fn pick_with_something_else_is_unknown() {
    assert_eq!(
        match_subcommand(&sub("pick", vec![text("amount", "3")])),
        Err(SlashCommandError::UnknownSubCommand)
    );
    assert_eq!(
        match_subcommand(&sub("pick", vec![other("amount")])),
        Err(SlashCommandError::UnknownSubCommand)
    );
}

#[test]
fn add_without_a_name_misses_its_option() {
    let missing = SlashCommandError::MissingOption("add".to_string(), "name".to_string());
    assert_eq!(match_subcommand(&sub("add", vec![])), Err(missing));
    let missing = SlashCommandError::MissingOption("add".to_string(), "name".to_string());
    assert_eq!(match_subcommand(&sub("add", vec![integer("name", 4)])), Err(missing));
}

#[test]
fn no_options_is_no_sub_command() {
    assert_eq!(match_subcommand(&vec![]), Err(SlashCommandError::NoSubCommand));
}

#[test]
fn what_is_not_a_known_sub_command_is_unknown() {
    assert_eq!(match_subcommand(&sub("draw", vec![])), Err(SlashCommandError::UnknownSubCommand));
    assert_eq!(match_subcommand(&sub("", vec![])), Err(SlashCommandError::UnknownSubCommand));
    assert_eq!(match_subcommand(&sub("Add", vec![])), Err(SlashCommandError::UnknownSubCommand));
    let plain = vec![CommandOption { name: "size".to_string(), value: OptionValue::Other }];
    assert_eq!(match_subcommand(&plain), Err(SlashCommandError::UnknownSubCommand));
}

#[test]
fn only_the_first_option_counts() {
    let mut options = sub("size", vec![]);
    options.extend(sub("clear", vec![]));
    assert_eq!(match_subcommand(&options), Ok(Command::Size));
    assert_eq!(
        match_subcommand(&sub("add", vec![text("name", "a"), text("name", "b")])),
        Ok(Command::Add { name: "a".to_string() })
    );
}

#[test]
fn errors_read_in_words() {
    assert_eq!(
        SlashCommandError::MissingOption("add".to_string(), "name".to_string()).to_string(),
        "Missing Option add for name"
    );
    assert_eq!(SlashCommandError::NoSubCommand.to_string(), "No Sub-Command Provided");
    assert_eq!(SlashCommandError::UnknownSubCommand.to_string(), "Unknown Sub-Command");
}

#[test]
fn only_the_raffle_is_listened_to() {
    assert_eq!(interaction_create("raffle", &sub("size", vec![])), Some(Ok(Command::Size)));
    assert_eq!(
        interaction_create("raffle", &vec![]),
        Some(Err(SlashCommandError::NoSubCommand))
    );
    assert_eq!(interaction_create("lottery", &sub("size", vec![])), None);
    assert_eq!(interaction_create("", &sub("size", vec![])), None);
}

#[test]
fn the_words_of_the_command() {
    assert_eq!(
        (RAFFLE, ADD, CLEAR, LOAD, PICK, SIZE, NAME, AMOUNT),
        ("raffle", "add", "clear", "load", "pick", "size", "name", "amount")
    );
}

#[test]
fn the_chat_is_told_of_five_sub_commands() {
    let schema = raffle_command();
    assert_eq!(schema.name, "raffle");
    assert_eq!(schema.description, "Raffle Subcommand");
    let told: Vec<(&str, &str)> = schema
        .subcommands
        .iter()
        .map(|sub| (sub.name.as_str(), sub.description.as_str()))
        .collect();
    assert_eq!(
        told,
        vec![
            ("pick", "Pick a winner"),
            ("add", "Add an entry by hand"),
            ("clear", "Clear raffle list"),
            ("load", "Load tickets from tito"),
            ("size", "Number of entries in the raffle"),
        ]
    );
    let amount = schema.subcommands[0].argument.as_ref().expect("an option of pick");
    assert_eq!(amount.kind, ArgumentKind::Integer);
    assert_eq!(amount.name, "amount");
    assert_eq!(amount.description, "Number of winners to pick");
    assert!(!amount.required);
    assert_eq!(amount.min_int_value, Some(1));
    let name = schema.subcommands[1].argument.as_ref().expect("an option of add");
    assert_eq!(name.kind, ArgumentKind::String);
    assert_eq!(name.name, "name");
    assert_eq!(name.description, "Entry's Full Name");
    assert!(name.required);
    assert_eq!(name.min_int_value, None);
    for sub in &schema.subcommands[2..] {
        assert!(sub.argument.is_none());
    }
}

#[test]
fn what_the_chat_is_told_of_is_understood() {
    for told in raffle_command().subcommands {
        let arguments = match &told.argument {
            Some(argument) => match argument.kind {
                ArgumentKind::String => vec![text(&argument.name, "x")],
                ArgumentKind::Integer => vec![integer(&argument.name, 2)],
            },
            None => vec![],
        };
        assert!(match_subcommand(&sub(&told.name, arguments)).is_ok(), "{}", told.name);
    }
}
