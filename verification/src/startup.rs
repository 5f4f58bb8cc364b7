//! What happens before the bot runs: the command line, the banner, the help
//! text and the configuration.
//!
//! Nothing here touches a file or ends the process. The command line becomes
//! a [`StartupAction`]; the text of a configuration file becomes a
//! [`BotConfig`] or an error; every failure has its message and its exit
//! code.

use crate::colour_codes::{ansi_sequence, append_coloured, coloured, ColourCode};
use crate::text::str_eq;
use vstd::prelude::*;
use vstd::string::*;

verus! {

/// The name of the configuration file where none is given.
pub const DEFAULT_CONFIG_FILE: &'static str = "bot_config.toml";

/// What a generated configuration file holds: every required field, with a
/// placeholder for its value.
pub const TEMPLATE: &'static str =
    "# The token of the bot, as the developer portal shows it\nbot_token = \"\"\n\n# The channel in which the bot says that it is online\nwakeup_channel_id = 0\n";

/// The banner, with the version of the program under it.
pub open spec fn title_splash(version: Seq<char>) -> Seq<char> {
    "  // xxxxxxxxxxxxxxxxxxx //
 // --== MAGICIAN == -- //
// xxxxxxxxxxxxxxxxxxx //
    "@ + "\t\tVersion v"@ + version + "\n\n"@
}

/// The banner, with the version of the program under it.
pub fn make_title_splash(version: &str) -> (splash: String)
    ensures
        splash@ == title_splash(version@),
{
    let title =
"  // xxxxxxxxxxxxxxxxxxx //
 // --== MAGICIAN == -- //
// xxxxxxxxxxxxxxxxxxx //
    ";
    let mut splash = String::from_str(title);
    splash.append("\t\tVersion v");
    splash.append(version);
    splash.append("\n\n");
    splash
}

/// The help text: the palette, one colour per line, and the exit codes.
pub open spec fn help_text() -> Seq<char> {
    "This will be a help menu! For now have some colours!\n"@ + ansi_sequence(ColourCode::Error)
        + "Error\n"@ + ansi_sequence(ColourCode::Warning) + "Warning\n"@ + ansi_sequence(
        ColourCode::Caution,
    ) + "Caution\n"@ + ansi_sequence(ColourCode::Success) + "Success\n"@ + ansi_sequence(
        ColourCode::Info,
    ) + "Info\n"@ + ansi_sequence(ColourCode::Field) + "Field\n"@ + coloured(
        ColourCode::Location,
        "Location"@,
    ) + "\n\
        Error codes:\n\
          - 1:  Incorrect Configuration\n\
          - 20: Database Connection Error"@
}

/// The help text.
pub fn help_menu() -> (menu: String)
    ensures
        menu@ == help_text(),
{
    let mut menu = String::from_str("This will be a help menu! For now have some colours!\n");
    menu.append(ColourCode::Error.fg_str());
    menu.append("Error\n");
    menu.append(ColourCode::Warning.fg_str());
    menu.append("Warning\n");
    menu.append(ColourCode::Caution.fg_str());
    menu.append("Caution\n");
    menu.append(ColourCode::Success.fg_str());
    menu.append("Success\n");
    menu.append(ColourCode::Info.fg_str());
    menu.append("Info\n");
    menu.append(ColourCode::Field.fg_str());
    menu.append("Field\n");
    append_coloured(&mut menu, ColourCode::Location, "Location");
    menu.append(
        "\n\
        Error codes:\n\
          - 1:  Incorrect Configuration\n\
          - 20: Database Connection Error",
    );
    assert(menu@ =~= help_text());
    menu
}

/// What is wrong with the command line.
#[derive(Clone, Debug, PartialEq, Eq)]
pub enum ArgumentError {
    /// `config path` without a path.
    PathNotSpecified,
    /// `config` with an option that it does not have.
    UnknownOption(String),
    /// `config` without an option.
    MissingOption,
    /// A first argument that is no command.
    UnknownCommand(String),
}

/// What an argument error holds.
pub enum ArgumentErrorView {
    PathNotSpecified,
    UnknownOption(Seq<char>),
    MissingOption,
    UnknownCommand(Seq<char>),
}

impl View for ArgumentError {
    type V = ArgumentErrorView;

    open spec fn view(&self) -> ArgumentErrorView {
        match self {
            ArgumentError::PathNotSpecified => ArgumentErrorView::PathNotSpecified,
            ArgumentError::UnknownOption(option) => ArgumentErrorView::UnknownOption(option@),
            ArgumentError::MissingOption => ArgumentErrorView::MissingOption,
            ArgumentError::UnknownCommand(command) => ArgumentErrorView::UnknownCommand(command@),
        }
    }
}

/// What the command line asks for.
#[derive(Clone, Debug, PartialEq, Eq)]
pub enum StartupAction {
    /// Run the bot with the configuration file at its usual place.
    Proceed,
    /// Print the help text and end with exit code 1.
    ShowHelp,
    /// Run the bot with the configuration file at this path, if it opens.
    UseConfig(String),
    /// Write a configuration file with placeholders and end.
    GenerateConfig,
    /// Print the message of the error and end with exit code 1.
    Refuse(ArgumentError),
}

/// What a start-up action holds.
pub enum StartupActionView {
    Proceed,
    ShowHelp,
    UseConfig(Seq<char>),
    GenerateConfig,
    Refuse(ArgumentErrorView),
}

impl View for StartupAction {
    type V = StartupActionView;

    open spec fn view(&self) -> StartupActionView {
        match self {
            StartupAction::Proceed => StartupActionView::Proceed,
            StartupAction::ShowHelp => StartupActionView::ShowHelp,
            StartupAction::UseConfig(path) => StartupActionView::UseConfig(path@),
            StartupAction::GenerateConfig => StartupActionView::GenerateConfig,
            StartupAction::Refuse(error) => StartupActionView::Refuse(error@),
        }
    }
}

/// The texts of the arguments, in order.
pub open spec fn argument_views(arguments: Seq<String>) -> Seq<Seq<char>> {
    arguments.map_values(|argument: String| argument@)
}

/// What `config` asks for, by the arguments from the third on.
pub open spec fn config_action(arguments: Seq<Seq<char>>) -> StartupActionView {
    if arguments.len() < 3 {
        StartupActionView::Refuse(ArgumentErrorView::MissingOption)
    } else if arguments[2] == "path"@ {
        if arguments.len() < 4 {
            StartupActionView::Refuse(ArgumentErrorView::PathNotSpecified)
        } else {
            StartupActionView::UseConfig(arguments[3])
        }
    } else if arguments[2] == "generate"@ {
        StartupActionView::GenerateConfig
    } else {
        StartupActionView::Refuse(ArgumentErrorView::UnknownOption(arguments[2]))
    }
}

/// What the command line asks for. The first argument is the name of the
/// program and is not looked at; arguments after the last one that a command
/// reads are not looked at either.
pub open spec fn startup_action(arguments: Seq<Seq<char>>) -> StartupActionView {
    if arguments.len() < 2 {
        StartupActionView::Proceed
    } else if arguments[1] == "help"@ || arguments[1] == "--help"@ {
        StartupActionView::ShowHelp
    } else if arguments[1] == "config"@ {
        config_action(arguments)
    } else {
        StartupActionView::Refuse(ArgumentErrorView::UnknownCommand(arguments[1]))
    }
}

/// The word `Error` in its colour, as it opens a message.
pub open spec fn error_prefix() -> Seq<char> {
    coloured(ColourCode::Error, "Error"@) + ": "@
}

/// The words that open a message about the configuration file.
pub open spec fn config_prefix() -> Seq<char> {
    error_prefix() + coloured(ColourCode::Location, "Config"@) + ": "@
}

/// The message for an argument error.
pub open spec fn argument_message(error: ArgumentErrorView) -> Seq<char> {
    match error {
        ArgumentErrorView::PathNotSpecified => config_prefix() + "Path not specified"@,
        ArgumentErrorView::UnknownOption(option) => error_prefix() + "Unknown command option: `"@
            + coloured(ColourCode::Field, option) + "` Consider invoking with `"@ + coloured(
            ColourCode::Info,
            "help"@,
        ) + "` for a list of commands"@,
        ArgumentErrorView::MissingOption => error_prefix()
            + "Missing command option. Consider invoking with `"@ + coloured(
            ColourCode::Info,
            "help"@,
        ) + "` for a list of commands"@,
        ArgumentErrorView::UnknownCommand(command) => error_prefix() + "Unknown command: `"@
            + coloured(ColourCode::Field, command) + "`. Consider invoking with `"@ + coloured(
            ColourCode::Info,
            "help"@,
        ) + "` for list of commands"@,
    }
}

/// The exit code with which the process ends after `action`, where the
/// action ends it at once.
pub open spec fn action_exit_code(action: StartupActionView) -> Option<u8> {
    match action {
        StartupActionView::Proceed => None,
        StartupActionView::ShowHelp => Some(1),
        StartupActionView::UseConfig(_) => None,
        StartupActionView::GenerateConfig => Some(0),
        StartupActionView::Refuse(_) => Some(1),
    }
}

/// Starts a message with the word `Error` in its colour.
fn begin_error() -> (message: String)
    ensures
        message@ == error_prefix(),
{
    let mut message = String::new();
    append_coloured(&mut message, ColourCode::Error, "Error");
    message.append(": ");
    assert(message@ =~= error_prefix());
    message
}

/// Starts a message about the configuration file.
fn begin_config_error() -> (message: String)
    ensures
        message@ == config_prefix(),
{
    let mut message = begin_error();
    append_coloured(&mut message, ColourCode::Location, "Config");
    message.append(": ");
    message
}

impl ArgumentError {
    /// The message for this error.
    pub fn message(&self) -> (text: String)
        ensures
            text@ == argument_message(self@),
    {
        match self {
            ArgumentError::PathNotSpecified => {
                let mut text = begin_config_error();
                text.append("Path not specified");
                text
            },
            ArgumentError::UnknownOption(option) => {
                let mut text = begin_error();
                text.append("Unknown command option: `");
                append_coloured(&mut text, ColourCode::Field, option.as_str());
                text.append("` Consider invoking with `");
                append_coloured(&mut text, ColourCode::Info, "help");
                text.append("` for a list of commands");
                text
            },
            ArgumentError::MissingOption => {
                let mut text = begin_error();
                text.append("Missing command option. Consider invoking with `");
                append_coloured(&mut text, ColourCode::Info, "help");
                text.append("` for a list of commands");
                text
            },
            ArgumentError::UnknownCommand(command) => {
                let mut text = begin_error();
                text.append("Unknown command: `");
                append_coloured(&mut text, ColourCode::Field, command.as_str());
                text.append("`. Consider invoking with `");
                append_coloured(&mut text, ColourCode::Info, "help");
                text.append("` for list of commands");
                text
            },
        }
    }
}

impl StartupAction {
    /// The exit code with which the process ends after this action, where the
    /// action ends it at once.
    pub fn exit_code(&self) -> (code: Option<u8>)
        ensures
            code == action_exit_code(self@),
    {
        match self {
            StartupAction::Proceed => None,
            StartupAction::ShowHelp => Some(1),
            StartupAction::UseConfig(_) => None,
            StartupAction::GenerateConfig => Some(0),
            StartupAction::Refuse(_) => Some(1),
        }
    }
}

/// Reads the command line.
pub fn parse_arguments(arguments_in: &Vec<String>) -> (action: StartupAction)
    ensures
        action@ == startup_action(argument_views(arguments_in@)),
{
    if arguments_in.len() < 2 {
        return StartupAction::Proceed;
    }
    let primary_argument = arguments_in[1].as_str();
    if str_eq(primary_argument, "help") || str_eq(primary_argument, "--help") {
        return StartupAction::ShowHelp;
    }
    if !str_eq(primary_argument, "config") {
        return StartupAction::Refuse(ArgumentError::UnknownCommand(arguments_in[1].clone()));
    }
    if arguments_in.len() < 3 {
        return StartupAction::Refuse(ArgumentError::MissingOption);
    }
    let secondary_argument = arguments_in[2].as_str();
    if str_eq(secondary_argument, "path") {
        if arguments_in.len() < 4 {
            return StartupAction::Refuse(ArgumentError::PathNotSpecified);
        }
        return StartupAction::UseConfig(arguments_in[3].clone());
    }
    if str_eq(secondary_argument, "generate") {
        return StartupAction::GenerateConfig;
    }
    StartupAction::Refuse(ArgumentError::UnknownOption(arguments_in[2].clone()))
}

/// What went wrong with a file or a service while the bot started. Each
/// carries the reason that the file system or the service gave.
#[derive(Clone, Debug, PartialEq, Eq)]
pub enum StartupFault {
    /// The configuration file named on the command line does not exist.
    GivenConfigMissing { path: String },
    /// The configuration file named on the command line does not open.
    GivenConfigInaccessible { why: String },
    /// A configuration file exists where one was to be generated.
    ConfigAlreadyExists,
    /// The configuration file could not be created.
    ConfigNotCreated { why: String },
    /// The configuration file was created, but its content was not written.
    ConfigNotWritten { why: String },
    /// The current directory is unknown.
    NoCurrentDirectory { why: String },
    /// There is no configuration file at the usual place.
    ConfigMissing,
    /// The configuration file at the usual place does not open.
    ConfigInaccessible { kind: String },
    /// The configuration file could not be read.
    ConfigUnreadable { why: String },
    /// The database does not open.
    DatabaseUnavailable { why: String },
    /// The database could not be brought up to date.
    MigrationFailed { why: String },
    /// The client could not be built.
    ClientNotBuilt { why: String },
    /// The client stopped with an error.
    ClientFailed { why: String },
}

/// What a start-up fault holds.
pub enum StartupFaultView {
    GivenConfigMissing { path: Seq<char> },
    GivenConfigInaccessible { why: Seq<char> },
    ConfigAlreadyExists,
    ConfigNotCreated { why: Seq<char> },
    ConfigNotWritten { why: Seq<char> },
    NoCurrentDirectory { why: Seq<char> },
    ConfigMissing,
    ConfigInaccessible { kind: Seq<char> },
    ConfigUnreadable { why: Seq<char> },
    DatabaseUnavailable { why: Seq<char> },
    MigrationFailed { why: Seq<char> },
    ClientNotBuilt { why: Seq<char> },
    ClientFailed { why: Seq<char> },
}

impl View for StartupFault {
    type V = StartupFaultView;

    open spec fn view(&self) -> StartupFaultView {
        match self {
            StartupFault::GivenConfigMissing { path } => StartupFaultView::GivenConfigMissing {
                path: path@,
            },
            StartupFault::GivenConfigInaccessible {
                why,
            } => StartupFaultView::GivenConfigInaccessible { why: why@ },
            StartupFault::ConfigAlreadyExists => StartupFaultView::ConfigAlreadyExists,
            StartupFault::ConfigNotCreated { why } => StartupFaultView::ConfigNotCreated {
                why: why@,
            },
            StartupFault::ConfigNotWritten { why } => StartupFaultView::ConfigNotWritten {
                why: why@,
            },
            StartupFault::NoCurrentDirectory { why } => StartupFaultView::NoCurrentDirectory {
                why: why@,
            },
            StartupFault::ConfigMissing => StartupFaultView::ConfigMissing,
            StartupFault::ConfigInaccessible { kind } => StartupFaultView::ConfigInaccessible {
                kind: kind@,
            },
            StartupFault::ConfigUnreadable { why } => StartupFaultView::ConfigUnreadable {
                why: why@,
            },
            StartupFault::DatabaseUnavailable { why } => StartupFaultView::DatabaseUnavailable {
                why: why@,
            },
            StartupFault::MigrationFailed { why } => StartupFaultView::MigrationFailed {
                why: why@,
            },
            StartupFault::ClientNotBuilt { why } => StartupFaultView::ClientNotBuilt { why: why@ },
            StartupFault::ClientFailed { why } => StartupFaultView::ClientFailed { why: why@ },
        }
    }
}

/// A message that opens with `Error`, says `what` and quotes `why` in the
/// colour for values.
pub open spec fn reasoned(what: Seq<char>, why: Seq<char>) -> Seq<char> {
    error_prefix() + what + ": `"@ + coloured(ColourCode::Info, why) + "`"@
}

/// The message for a start-up fault.
pub open spec fn fault_message(fault: StartupFaultView) -> Seq<char> {
    match fault {
        StartupFaultView::GivenConfigMissing { path } => config_prefix()
            + "Failed to open config file `"@ + coloured(ColourCode::Field, path)
            + "`; config file missing"@,
        StartupFaultView::GivenConfigInaccessible { why } => config_prefix()
            + "Failed to open config file: "@ + coloured(ColourCode::Info, why),
        StartupFaultView::ConfigAlreadyExists => config_prefix()
            + "Attempting to generate already existing config file"@,
        StartupFaultView::ConfigNotCreated { why } => config_prefix()
            + "Cannot generate conifg file: `"@ + coloured(ColourCode::Info, why) + "`"@,
        StartupFaultView::ConfigNotWritten { why } => coloured(ColourCode::Warning, "Warning"@)
            + ": Config file generated, but failed to insert values. Consider removing `"@
            + coloured(ColourCode::Field, DEFAULT_CONFIG_FILE@)
            + "` and retrying. Error reason: `"@ + coloured(ColourCode::Info, why) + "`"@,
        StartupFaultView::NoCurrentDirectory { why } => error_prefix()
            + "Unable to fetch current directory `"@ + coloured(ColourCode::Info, why) + "`"@,
        StartupFaultView::ConfigMissing => error_prefix()
            + "Missing config file, invoke with `"@ + coloured(
            ColourCode::Field,
            "config generate"@,
        ) + "` to generate placeholder config file"@,
        StartupFaultView::ConfigInaccessible { kind } => error_prefix()
            + "Cannot access config file `"@ + coloured(ColourCode::Info, kind) + "`"@,
        StartupFaultView::ConfigUnreadable { why } => reasoned("Failed to read config file"@, why),
        StartupFaultView::DatabaseUnavailable { why } => reasoned(
            "Unable to connect to database"@,
            why,
        ),
        StartupFaultView::MigrationFailed { why } => reasoned(
            "Unable to preform database migration"@,
            why,
        ),
        StartupFaultView::ClientNotBuilt { why } => reasoned("Failed to build client"@, why),
        StartupFaultView::ClientFailed { why } => error_prefix() + "Failed to start client `"@
            + coloured(ColourCode::Info, why) + "`"@,
    }
}

/// The exit code for a start-up fault: 20 where the database does not open,
/// 3 where the client cannot be built, 1 for everything else.
pub open spec fn fault_exit_code(fault: StartupFaultView) -> u8 {
    match fault {
        StartupFaultView::DatabaseUnavailable { .. } => 20,
        StartupFaultView::ClientNotBuilt { .. } => 3,
        _ => 1,
    }
}

/// Makes a message that opens with `Error`, says `what` and quotes `why`.
fn reason(what: &str, why: &str) -> (message: String)
    ensures
        message@ == reasoned(what@, why@),
{
    let mut message = begin_error();
    message.append(what);
    message.append(": `");
    append_coloured(&mut message, ColourCode::Info, why);
    message.append("`");
    message
}

impl StartupFault {
    /// The message for this fault.
    pub fn message(&self) -> (text: String)
        ensures
            text@ == fault_message(self@),
    {
        match self {
            StartupFault::GivenConfigMissing { path } => {
                let mut text = begin_config_error();
                text.append("Failed to open config file `");
                append_coloured(&mut text, ColourCode::Field, path.as_str());
                text.append("`; config file missing");
                text
            },
            StartupFault::GivenConfigInaccessible { why } => {
                let mut text = begin_config_error();
                text.append("Failed to open config file: ");
                append_coloured(&mut text, ColourCode::Info, why.as_str());
                text
            },
            StartupFault::ConfigAlreadyExists => {
                let mut text = begin_config_error();
                text.append("Attempting to generate already existing config file");
                text
            },
            StartupFault::ConfigNotCreated { why } => {
                let mut text = begin_config_error();
                text.append("Cannot generate conifg file: `");
                append_coloured(&mut text, ColourCode::Info, why.as_str());
                text.append("`");
                text
            },
            StartupFault::ConfigNotWritten { why } => {
                let mut text = String::new();
                append_coloured(&mut text, ColourCode::Warning, "Warning");
                text.append(
                    ": Config file generated, but failed to insert values. Consider removing `",
                );
                append_coloured(&mut text, ColourCode::Field, DEFAULT_CONFIG_FILE);
                text.append("` and retrying. Error reason: `");
                append_coloured(&mut text, ColourCode::Info, why.as_str());
                text.append("`");
                assert(text@ =~= fault_message(self@));
                text
            },
            StartupFault::NoCurrentDirectory { why } => {
                let mut text = begin_error();
                text.append("Unable to fetch current directory `");
                append_coloured(&mut text, ColourCode::Info, why.as_str());
                text.append("`");
                text
            },
            StartupFault::ConfigMissing => {
                let mut text = begin_error();
                text.append("Missing config file, invoke with `");
                append_coloured(&mut text, ColourCode::Field, "config generate");
                text.append("` to generate placeholder config file");
                text
            },
            StartupFault::ConfigInaccessible { kind } => {
                let mut text = begin_error();
                text.append("Cannot access config file `");
                append_coloured(&mut text, ColourCode::Info, kind.as_str());
                text.append("`");
                text
            },
            StartupFault::ConfigUnreadable { why } => reason(
                "Failed to read config file",
                why.as_str(),
            ),
            StartupFault::DatabaseUnavailable { why } => reason(
                "Unable to connect to database",
                why.as_str(),
            ),
            StartupFault::MigrationFailed { why } => reason(
                "Unable to preform database migration",
                why.as_str(),
            ),
            StartupFault::ClientNotBuilt { why } => reason("Failed to build client", why.as_str()),
            StartupFault::ClientFailed { why } => {
                let mut text = begin_error();
                text.append("Failed to start client `");
                append_coloured(&mut text, ColourCode::Info, why.as_str());
                text.append("`");
                text
            },
        }
    }

    /// The exit code for this fault.
    pub fn exit_code(&self) -> (code: u8)
        ensures
            code == fault_exit_code(self@),
    {
        match self {
            StartupFault::DatabaseUnavailable { .. } => 20,
            StartupFault::ClientNotBuilt { .. } => 3,
            _ => 1,
        }
    }
}

} // verus!
