//! The character command: what it announces to the platform, and where its
//! events go.

use crate::colour_codes::{append_coloured, coloured, ColourCode};
use crate::create::{
    append_highlighted, clicked, highlighted, result_view, stage_notice, submitted,
    ContractViolation, Outcome, OutcomeView, Reply, ReplyView, StepView, WizardState,
};
use crate::custom_id::{component_id_of, modal_id_of};
use crate::catalog::INTRO_STAGE;
use crate::session::{Anchor, SessionStore};
use crate::text::{str_eq, views};
use crate::ui::{field_views, FormField, LogEntry, LogEntryView};
use vstd::prelude::*;
use vstd::string::*;

verus! {

/// A sub-command as it is announced to the platform.
#[derive(Clone, Debug, PartialEq, Eq)]
pub struct CommandOption {
    pub name: String,
    pub description: String,
}

/// What an announced sub-command holds.
pub struct CommandOptionView {
    pub name: Seq<char>,
    pub description: Seq<char>,
}

impl View for CommandOption {
    type V = CommandOptionView;

    open spec fn view(&self) -> CommandOptionView {
        CommandOptionView { name: self.name@, description: self.description@ }
    }
}

/// A command as it is announced to the platform, with its sub-commands.
#[derive(Clone, Debug, PartialEq, Eq)]
pub struct CommandSpec {
    pub name: String,
    pub description: String,
    pub options: Vec<CommandOption>,
}

/// What an announced command holds.
pub struct CommandSpecView {
    pub name: Seq<char>,
    pub description: Seq<char>,
    pub options: Seq<CommandOptionView>,
}

impl View for CommandSpec {
    type V = CommandSpecView;

    open spec fn view(&self) -> CommandSpecView {
        CommandSpecView {
            name: self.name@,
            description: self.description@,
            options: self.options@.map_values(|option: CommandOption| option@),
        }
    }
}

/// The command as it is announced to the platform.
pub open spec fn character_command_spec() -> CommandSpecView {
    CommandSpecView {
        name: "character"@,
        description: "Manage your characters"@,
        options: seq![
            CommandOptionView { name: "create"@, description: "Construct your new character"@ },
        ],
    }
}

/// The log line for a sub-command that the character command does not have.
pub open spec fn unknown_sub_command_log(name: Seq<char>) -> LogEntryView {
    LogEntryView {
        severity: ColourCode::Warning,
        message: coloured(ColourCode::Location, "character"@)
            + ": Recieved unknown sub command: `"@ + highlighted(name) + "`"@,
    }
}

/// The step for the character command with the sub-command `name`: `create`
/// shows the introduction of the wizard; any other name is written to the
/// log and nothing is done.
pub open spec fn character_invoked(user: u64, name: Seq<char>) -> OutcomeView {
    if name == "create"@ {
        OutcomeView {
            reply: ReplyView::Send(stage_notice(user, INTRO_STAGE)),
            state: Some(WizardState::Stage(INTRO_STAGE)),
            log: None,
        }
    } else {
        OutcomeView {
            reply: ReplyView::Ignore,
            state: None,
            log: Some(unknown_sub_command_log(name)),
        }
    }
}

/// Where the event of a control or form goes, by the second field of its
/// identifier: to the wizard for `create`, nowhere for anything else.
pub open spec fn routed(fields: Seq<Seq<char>>) -> Result<(), ContractViolation> {
    if fields.len() < 2 {
        Err(
            ContractViolation::Malformed(
                if fields.len() < 1 {
                    crate::custom_id::MalformedIdentifier::MissingCommand
                } else {
                    crate::custom_id::MalformedIdentifier::MissingSubCommand
                },
            ),
        )
    } else if fields[1] == "create"@ {
        Ok(())
    } else {
        Err(ContractViolation::UnknownSubCommand)
    }
}

/// Decides where the event of a control or form goes.
fn route(split_custom_id: &Vec<&str>) -> (target: Result<(), ContractViolation>)
    ensures
        target == routed(views(split_custom_id@)),
{
    if split_custom_id.len() < 1 {
        return Err(
            ContractViolation::Malformed(crate::custom_id::MalformedIdentifier::MissingCommand),
        );
    }
    if split_custom_id.len() < 2 {
        return Err(
            ContractViolation::Malformed(crate::custom_id::MalformedIdentifier::MissingSubCommand),
        );
    }
    if str_eq(split_custom_id[1], "create") {
        Ok(())
    } else {
        Err(ContractViolation::UnknownSubCommand)
    }
}

/// The command as it is announced to the platform.
pub fn build() -> (command: CommandSpec)
    ensures
        command@ == character_command_spec(),
{
    let mut options: Vec<CommandOption> = Vec::new();
    options.push(
        CommandOption {
            name: String::from_str("create"),
            description: String::from_str("Construct your new character"),
        },
    );
    assert(options@.map_values(|option: CommandOption| option@)
        =~= character_command_spec().options);
    CommandSpec {
        name: String::from_str("character"),
        description: String::from_str("Manage your characters"),
        options,
    }
}

/// The step for the character command that `invoker_id` has invoked with the
/// sub-command `sub_command_name`.
pub fn run(invoker_id: u64, sub_command_name: &str) -> (outcome: Outcome)
    ensures
        outcome@ == character_invoked(invoker_id, sub_command_name@),
{
    if str_eq(sub_command_name, "create") {
        crate::create::run(invoker_id)
    } else {
        let mut message = String::new();
        append_coloured(&mut message, ColourCode::Location, "character");
        message.append(": Recieved unknown sub command: `");
        append_highlighted(&mut message, sub_command_name);
        message.append("`");
        Outcome {
            reply: Reply::Ignore,
            state: None,
            log: Some(LogEntry { severity: ColourCode::Warning, message }),
        }
    }
}

/// The step for a click on a control of the character command.
///
/// The identifier is routed by its second field. What `create` does with the
/// click is the wizard's step; an identifier of any other sub-command is a
/// violation and changes nothing.
pub fn handle_component_interaction(
    store: &mut SessionStore,
    invoker_id: u64,
    message: Anchor,
    split_custom_id: Vec<&str>,
) -> (result: Result<Outcome, ContractViolation>)
    ensures
        match routed(views(split_custom_id@)) {
            Err(violation) => final(store)@ == old(store)@ && result_view(result) == Err::<
                OutcomeView,
                ContractViolation,
            >(violation),
            Ok(()) => match component_id_of(views(split_custom_id@)) {
                Err(fault) => final(store)@ == old(store)@ && result_view(result) == Err::<
                    OutcomeView,
                    ContractViolation,
                >(ContractViolation::Malformed(fault)),
                Ok(id) => (StepView { sessions: final(store)@, result: result_view(result) })
                    == clicked(old(store)@, invoker_id, message, id),
            },
        },
{
    match route(&split_custom_id) {
        Err(violation) => Err(violation),
        Ok(()) => crate::create::handle_component(store, invoker_id, message, split_custom_id),
    }
}

/// The step for a submitted form of the character command.
///
/// The identifier is routed by its second field. What `create` does with the
/// form is the wizard's step; an identifier of any other sub-command is a
/// violation and changes nothing.
pub fn handle_modal(
    store: &mut SessionStore,
    invoker_id: u64,
    fields: &Vec<FormField>,
    split_custom_id: Vec<&str>,
) -> (result: Result<Outcome, ContractViolation>)
    ensures
        match routed(views(split_custom_id@)) {
            Err(violation) => final(store)@ == old(store)@ && result_view(result) == Err::<
                OutcomeView,
                ContractViolation,
            >(violation),
            Ok(()) => match modal_id_of(views(split_custom_id@)) {
                Err(fault) => final(store)@ == old(store)@ && result_view(result) == Err::<
                    OutcomeView,
                    ContractViolation,
                >(ContractViolation::Malformed(fault)),
                Ok(id) => (StepView { sessions: final(store)@, result: result_view(result) })
                    == submitted(old(store)@, invoker_id, id.stage, field_views(fields@)),
            },
        },
{
    match route(&split_custom_id) {
        Err(violation) => Err(violation),
        Ok(()) => crate::create::handle_modal(store, invoker_id, fields, split_custom_id),
    }
}

} // verus!
