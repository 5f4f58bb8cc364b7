//! Where events come in: the announcement when the bot comes online, and the
//! dispatch of commands, clicks and forms to the command they belong to.

use crate::character::{character_invoked, routed};
use crate::colour_codes::{append_coloured, coloured, ColourCode};
use crate::create::{
    append_highlighted, clicked, highlighted, lemma_merged_keys, result_view, submitted,
    ContractViolation, Outcome, OutcomeView, Reply, ReplyView, StepView,
};
use crate::custom_id::{component_id_of, modal_id_of, SEPARATOR};
use crate::profile::{make_plain_notice, plain_notice, profile_invoked};
use crate::session::{Anchor, SessionStore, Sessions};
use crate::text::{lemma_split_nonempty, split, split_fields, str_eq};
use crate::ui::{field_views, FormField, FormFieldView, LogEntry, LogEntryView, Notice, NoticeView};
use vstd::prelude::*;
use vstd::string::*;

verus! {

/// What is announced when the bot comes online, and where.
#[derive(Clone, Debug, PartialEq, Eq)]
pub struct Wakeup {
    /// The channel that gets the announcement.
    pub channel_id: u64,
    pub notice: Notice,
    /// The line for the log once the announcement has been tried.
    pub log: LogEntry,
}

/// What a wake-up holds.
pub struct WakeupView {
    pub channel_id: u64,
    pub notice: NoticeView,
    pub log: LogEntryView,
}

impl View for Wakeup {
    type V = WakeupView;

    open spec fn view(&self) -> WakeupView {
        WakeupView { channel_id: self.channel_id, notice: self.notice@, log: self.log@ }
    }
}

/// The wake-up for the channel `channel_id`.
pub open spec fn wakeup(channel_id: u64) -> WakeupView {
    WakeupView {
        channel_id,
        notice: plain_notice("Magician Online"@, None, ColourCode::Info),
        log: LogEntryView { severity: ColourCode::Info, message: "Bot Online!"@ },
    }
}

/// The log line for an announcement that could not be sent.
pub open spec fn wakeup_failed_log(why: Seq<char>) -> LogEntryView {
    LogEntryView {
        severity: ColourCode::Error,
        message: "`"@ + coloured(ColourCode::Location, "ready"@)
            + "`: Failed to send wakeup message: `"@ + highlighted(why) + "`"@,
    }
}

/// The wake-up for the channel `wakeup_channel_id`.
pub fn ready(wakeup_channel_id: u64) -> (announcement: Wakeup)
    ensures
        announcement@ == wakeup(wakeup_channel_id),
{
    Wakeup {
        channel_id: wakeup_channel_id,
        notice: make_plain_notice("Magician Online", None, ColourCode::Info),
        log: LogEntry { severity: ColourCode::Info, message: String::from_str("Bot Online!") },
    }
}

/// The log line for an announcement that could not be sent for the reason
/// `why`.
pub fn wakeup_failed(why: &str) -> (entry: LogEntry)
    ensures
        entry@ == wakeup_failed_log(why@),
{
    let mut message = String::from_str("`");
    append_coloured(&mut message, ColourCode::Location, "ready");
    message.append("`: Failed to send wakeup message: `");
    append_highlighted(&mut message, why);
    message.append("`");
    LogEntry { severity: ColourCode::Error, message }
}

/// What was being delivered to the platform when the delivery failed.
#[derive(Clone, Copy, Debug, PartialEq, Eq, Structural)]
pub enum Delivery {
    Send,
    Edit,
    Acknowledge,
    Delete,
}

/// What a failed delivery is called in the log.
pub open spec fn delivery_name(delivery: Delivery) -> Seq<char> {
    match delivery {
        Delivery::Send => "Failed to send message: `"@,
        Delivery::Edit => "Failed to edit message: `"@,
        Delivery::Acknowledge => "Failed to send acknowledge: `"@,
        Delivery::Delete => "Failed to delete message: `"@,
    }
}

/// The log line for a delivery that failed for the reason `why`.
pub open spec fn delivery_failed_log(delivery: Delivery, why: Seq<char>) -> LogEntryView {
    LogEntryView {
        severity: ColourCode::Caution,
        message: delivery_name(delivery) + highlighted(why) + "`"@,
    }
}

/// The log line for a delivery that failed for the reason `why`.
pub fn delivery_failed(delivery: Delivery, why: &str) -> (entry: LogEntry)
    ensures
        entry@ == delivery_failed_log(delivery, why@),
{
    let mut message = String::from_str(
        match delivery {
            Delivery::Send => "Failed to send message: `",
            Delivery::Edit => "Failed to edit message: `",
            Delivery::Acknowledge => "Failed to send acknowledge: `",
            Delivery::Delete => "Failed to delete message: `",
        },
    );
    append_highlighted(&mut message, why);
    message.append("`");
    LogEntry { severity: ColourCode::Caution, message }
}

/// An event from the platform.
#[derive(Clone, Debug, PartialEq, Eq)]
pub enum Event {
    /// A user has invoked a command.
    CommandInvocation { user_id: u64, command_name: String, subcommand_name: String },
    /// A user has clicked a control of the message `message`.
    ButtonClick { user_id: u64, encoded_id: String, message: Anchor },
    /// A user has submitted a form.
    FormSubmission { user_id: u64, encoded_id: String, fields: Vec<FormField> },
}

/// What an event holds.
pub enum EventView {
    CommandInvocation { user_id: u64, command_name: Seq<char>, subcommand_name: Seq<char> },
    ButtonClick { user_id: u64, encoded_id: Seq<char>, message: Anchor },
    FormSubmission { user_id: u64, encoded_id: Seq<char>, fields: Seq<FormFieldView> },
}

impl View for Event {
    type V = EventView;

    open spec fn view(&self) -> EventView {
        match self {
            Event::CommandInvocation {
                user_id,
                command_name,
                subcommand_name,
            } => EventView::CommandInvocation {
                user_id: *user_id,
                command_name: command_name@,
                subcommand_name: subcommand_name@,
            },
            Event::ButtonClick { user_id, encoded_id, message } => EventView::ButtonClick {
                user_id: *user_id,
                encoded_id: encoded_id@,
                message: *message,
            },
            Event::FormSubmission { user_id, encoded_id, fields } => EventView::FormSubmission {
                user_id: *user_id,
                encoded_id: encoded_id@,
                fields: field_views(fields@),
            },
        }
    }
}

/// The log line for a command that the bot does not have.
pub open spec fn unknown_command_log(name: Seq<char>) -> LogEntryView {
    LogEntryView {
        severity: ColourCode::Warning,
        message: "Recieved unknown command: `"@ + highlighted(name) + "`"@,
    }
}

/// The step for a command: the character command and the profile command
/// take their sub-command; any other command is written to the log and
/// nothing is done. No command changes a build.
pub open spec fn commanded(user: u64, command: Seq<char>, sub_command: Seq<char>) -> OutcomeView {
    if command == "character"@ {
        character_invoked(user, sub_command)
    } else if command == "profile"@ {
        profile_invoked(user, sub_command)
    } else {
        OutcomeView {
            reply: ReplyView::Ignore,
            state: None,
            log: Some(unknown_command_log(command)),
        }
    }
}

/// The command that the identifier of a control or form belongs to, by its
/// first field, and the sub-command by its second: only the wizard of the
/// character command has controls and forms.
pub open spec fn addressed(fields: Seq<Seq<char>>) -> Result<(), ContractViolation> {
    if fields.len() >= 1 && fields[0] != "character"@ {
        Err(ContractViolation::UnknownCommand)
    } else {
        routed(fields)
    }
}

/// The step for a click on the control with the identifier `encoded`.
pub open spec fn click_dispatched(
    sessions: Sessions,
    user: u64,
    message: Anchor,
    encoded: Seq<char>,
) -> StepView {
    let fields = split(encoded, SEPARATOR);
    match addressed(fields) {
        Err(violation) => StepView { sessions, result: Err(violation) },
        Ok(()) => match component_id_of(fields) {
            Err(fault) => StepView { sessions, result: Err(ContractViolation::Malformed(fault)) },
            Ok(id) => clicked(sessions, user, message, id),
        },
    }
}

/// The step for a submitted form with the identifier `encoded`.
pub open spec fn form_dispatched(
    sessions: Sessions,
    user: u64,
    encoded: Seq<char>,
    fields: Seq<FormFieldView>,
) -> StepView {
    let parts = split(encoded, SEPARATOR);
    match addressed(parts) {
        Err(violation) => StepView { sessions, result: Err(violation) },
        Ok(()) => match modal_id_of(parts) {
            Err(fault) => StepView { sessions, result: Err(ContractViolation::Malformed(fault)) },
            Ok(id) => submitted(sessions, user, id.stage, fields),
        },
    }
}

/// The step for an event.
pub open spec fn dispatched(sessions: Sessions, event: EventView) -> StepView {
    match event {
        EventView::CommandInvocation { user_id, command_name, subcommand_name } => StepView {
            sessions,
            result: Ok(commanded(user_id, command_name, subcommand_name)),
        },
        EventView::ButtonClick { user_id, encoded_id, message } => click_dispatched(
            sessions,
            user_id,
            message,
            encoded_id,
        ),
        EventView::FormSubmission { user_id, encoded_id, fields } => form_dispatched(
            sessions,
            user_id,
            encoded_id,
            fields,
        ),
    }
}

/// The step for a command.
pub fn handle_command(user_id: u64, command_name: &str, subcommand_name: &str) -> (outcome: Outcome)
    ensures
        outcome@ == commanded(user_id, command_name@, subcommand_name@),
{
    if str_eq(command_name, "character") {
        crate::character::run(user_id, subcommand_name)
    } else if str_eq(command_name, "profile") {
        crate::profile::run(user_id, subcommand_name)
    } else {
        let mut message = String::from_str("Recieved unknown command: `");
        append_highlighted(&mut message, command_name);
        message.append("`");
        Outcome {
            reply: Reply::Ignore,
            state: None,
            log: Some(LogEntry { severity: ColourCode::Warning, message }),
        }
    }
}

/// The one step that an event causes: the store changes as the event asks,
/// and the outcome says what to show, what to ask of storage and what to
/// write to the log. A violation leaves the store as it was.
pub fn dispatch(store: &mut SessionStore, event: &Event) -> (result: Result<
    Outcome,
    ContractViolation,
>)
    ensures
        (StepView { sessions: final(store)@, result: result_view(result) }) == dispatched(
            old(store)@,
            event@,
        ),
{
    match event {
        Event::CommandInvocation { user_id, command_name, subcommand_name } => Ok(
            handle_command(*user_id, command_name.as_str(), subcommand_name.as_str()),
        ),
        Event::ButtonClick { user_id, encoded_id, message } => {
            let split_custom_id = split_fields(encoded_id.as_str(), SEPARATOR);
            proof {
                lemma_split_nonempty(encoded_id@, SEPARATOR);
            }
            if !str_eq(split_custom_id[0], "character") {
                return Err(ContractViolation::UnknownCommand);
            }
            crate::character::handle_component_interaction(
                store,
                *user_id,
                *message,
                split_custom_id,
            )
        },
        Event::FormSubmission { user_id, encoded_id, fields } => {
            let split_custom_id = split_fields(encoded_id.as_str(), SEPARATOR);
            proof {
                lemma_split_nonempty(encoded_id@, SEPARATOR);
            }
            if !str_eq(split_custom_id[0], "character") {
                return Err(ContractViolation::UnknownCommand);
            }
            crate::character::handle_modal(store, *user_id, fields, split_custom_id)
        },
    }
}

/// An event changes no build but that of the user who caused it.
pub proof fn lemma_event_keeps_other_builds(sessions: Sessions, event: EventView, other: u64)
    requires
        match event {
            EventView::CommandInvocation { user_id, .. } => other != user_id,
            EventView::ButtonClick { user_id, .. } => other != user_id,
            EventView::FormSubmission { user_id, .. } => other != user_id,
        },
    ensures
        dispatched(sessions, event).sessions.contains_key(other) == sessions.contains_key(other),
        dispatched(sessions, event).sessions[other] == sessions[other],
{
}

/// A click on a control that names another user as its owner changes no
/// build and edits no message, whatever the label and the stage: it is
/// acknowledged, or given up where the identifier belongs to nothing.
pub proof fn lemma_foreign_click_changes_nothing(
    sessions: Sessions,
    user: u64,
    message: Anchor,
    encoded: Seq<char>,
)
    requires
        component_id_of(split(encoded, SEPARATOR)) matches Ok(id) && id.user_id != user,
    ensures
        click_dispatched(sessions, user, message, encoded).sessions == sessions,
        match click_dispatched(sessions, user, message, encoded).result {
            Ok(outcome) => outcome == (OutcomeView {
                reply: ReplyView::Acknowledge,
                state: None,
                log: None,
            }),
            Err(_) => true,
        },
{
}

/// A build only grows: as long as an event leaves the build of a user in the
/// store, every key that held a value before holds one afterwards.
pub proof fn lemma_build_only_grows(
    sessions: Sessions,
    event: EventView,
    user: u64,
    key: Seq<char>,
)
    requires
        sessions.contains_key(user),
        sessions[user].collected.contains_key(key),
        dispatched(sessions, event).sessions.contains_key(user),
    ensures
        dispatched(sessions, event).sessions[user].collected.contains_key(key),
{
    match event {
        EventView::FormSubmission { user_id, encoded_id, fields } => {
            lemma_merged_keys(sessions[user].collected, fields);
        },
        _ => {},
    }
}

/// The anchor of a build is captured once: no event changes the anchor of a
/// build that it leaves in the store.
pub proof fn lemma_anchor_is_kept(sessions: Sessions, event: EventView, user: u64)
    requires
        sessions.contains_key(user),
        dispatched(sessions, event).sessions.contains_key(user),
    ensures
        dispatched(sessions, event).sessions[user].anchor == sessions[user].anchor,
{
}

} // verus!
