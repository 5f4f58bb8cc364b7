//! The profile command: adding a user's profile to storage and taking it out
//! again.
//!
//! Storage is asked by whoever owns the connection. The steps here decide
//! what to ask and what to show for each answer.

use crate::character::{CommandOption, CommandOptionView, CommandSpec, CommandSpecView};
use crate::colour_codes::{append_coloured, coloured, ColourCode};
use crate::create::{append_highlighted, highlighted, Outcome, OutcomeView, Reply, ReplyView};
use crate::text::{append_decimal, decimal, str_eq};
use crate::ui::{Button, ButtonView, LogEntry, LogEntryView, Notice, NoticeView};
use vstd::prelude::*;
use vstd::string::*;

verus! {

/// The two things the profile command can do.
#[derive(Clone, Copy, Debug, PartialEq, Eq, Structural)]
pub enum ProfileCommand {
    Register,
    Deregister,
}

/// The name of the sub-command that stands for `command`.
pub open spec fn profile_command_name(command: ProfileCommand) -> Seq<char> {
    match command {
        ProfileCommand::Register => "register"@,
        ProfileCommand::Deregister => "deregister"@,
    }
}

/// The profile command that `name` stands for, if any.
pub open spec fn profile_command_of(name: Seq<char>) -> Option<ProfileCommand> {
    if name == "register"@ {
        Some(ProfileCommand::Register)
    } else if name == "deregister"@ {
        Some(ProfileCommand::Deregister)
    } else {
        None
    }
}

/// The command as it is announced to the platform.
pub open spec fn profile_command_spec() -> CommandSpecView {
    CommandSpecView {
        name: "profile"@,
        description: "Add or remove your discord profile from the database"@,
        options: seq![
            CommandOptionView {
                name: "register"@,
                description: "Add your discord profile to the database"@,
            },
            CommandOptionView {
                name: "deregister"@,
                description: "Remove your discord profile from the database"@,
            },
        ],
    }
}

/// A notice without footer and controls.
pub open spec fn plain_notice(
    title: Seq<char>,
    description: Option<Seq<char>>,
    colour: ColourCode,
) -> NoticeView {
    NoticeView { title, description, footer: None, colour, buttons: Seq::empty() }
}

/// An outcome that answers the command with a new message.
pub open spec fn answered(notice: NoticeView, log: Option<LogEntryView>) -> OutcomeView {
    OutcomeView { reply: ReplyView::Send(notice), state: None, log }
}

/// A user as the log names them: tag and number, in the colour for values.
pub open spec fn named_user(tag: Seq<char>, user: u64) -> Seq<char> {
    highlighted(tag + ":#"@ + decimal(user as nat))
}

/// The log line for a sub-command that the profile command does not have.
pub open spec fn unknown_profile_log(name: Seq<char>) -> LogEntryView {
    LogEntryView {
        severity: ColourCode::Warning,
        message: "Recieved unknown `"@ + highlighted("profile"@) + "` sub command: `"@
            + highlighted(name) + "`"@,
    }
}

/// The step for the profile command with the sub-command `name`: storage is
/// asked whether the user has a profile. An unknown sub-command is written to
/// the log and nothing is done.
pub open spec fn profile_invoked(user: u64, name: Seq<char>) -> OutcomeView {
    match profile_command_of(name) {
        Some(command) => OutcomeView {
            reply: ReplyView::LookupProfile { user, command },
            state: None,
            log: None,
        },
        None => OutcomeView {
            reply: ReplyView::Ignore,
            state: None,
            log: Some(unknown_profile_log(name)),
        },
    }
}

/// The notice for a lookup that storage could not do.
pub open spec fn lookup_failed_notice(why: Seq<char>) -> NoticeView {
    plain_notice(
        "An unexpected error occured :("@,
        Some("We were unable to check if you're already in the database\n"@ + why),
        ColourCode::Error,
    )
}

/// The log line for a lookup that storage could not do.
pub open spec fn lookup_failed_log(command: ProfileCommand, why: Seq<char>) -> LogEntryView {
    LogEntryView {
        severity: ColourCode::Error,
        message: coloured(
            ColourCode::Location,
            "profile::"@ + profile_command_name(command) + "::detect_user_query"@,
        ) + ": Failed to check if user is in database: `"@ + highlighted(why) + "`"@,
    }
}

/// The step for the answer of storage to the lookup: `found` says whether the
/// user has a profile, or why storage could not tell.
///
/// A user without profile who registers is added; a user with profile who
/// deregisters is taken out. Every other answer ends the command with a
/// notice.
pub open spec fn profile_looked_up(
    command: ProfileCommand,
    user: u64,
    found: Result<bool, Seq<char>>,
) -> OutcomeView {
    match found {
        Err(why) => answered(lookup_failed_notice(why), Some(lookup_failed_log(command, why))),
        Ok(present) => match command {
            ProfileCommand::Register => if present {
                answered(
                    plain_notice("You're already in the database"@, None, ColourCode::Info),
                    None,
                )
            } else {
                OutcomeView { reply: ReplyView::InsertProfile { user }, state: None, log: None }
            },
            ProfileCommand::Deregister => if present {
                OutcomeView { reply: ReplyView::DeleteProfile { user }, state: None, log: None }
            } else {
                answered(plain_notice("You're not in the database"@, None, ColourCode::Info), None)
            },
        },
    }
}

/// The notice for a change that storage has refused.
pub open spec fn change_failed_notice(why: Seq<char>) -> NoticeView {
    plain_notice(
        "Failed to add you to the database :("@,
        Some("`"@ + why + "`"@),
        ColourCode::Error,
    )
}

/// The log line for a change that storage has refused.
pub open spec fn change_failed_log(tag: Seq<char>, user: u64, why: Seq<char>) -> LogEntryView {
    LogEntryView {
        severity: ColourCode::Error,
        message: "Failed to add user `"@ + named_user(tag, user) + "` to the database: `"@
            + highlighted(why) + "`"@,
    }
}

/// The step for the answer of storage to the change that `command` asked
/// for: `changed` is `Ok`, or the reason that storage gave for its refusal.
pub open spec fn profile_changed(
    command: ProfileCommand,
    tag: Seq<char>,
    user: u64,
    changed: Result<(), Seq<char>>,
) -> OutcomeView {
    match changed {
        Err(why) => answered(change_failed_notice(why), Some(change_failed_log(tag, user, why))),
        Ok(()) => match command {
            ProfileCommand::Register => answered(
                plain_notice(
                    "You've been successfully added to the database!"@,
                    Some("Consider creating a character?"@),
                    ColourCode::Success,
                ),
                Some(
                    LogEntryView {
                        severity: ColourCode::Success,
                        message: "successfully added user `"@ + named_user(tag, user)
                            + "` to the database"@,
                    },
                ),
            ),
            ProfileCommand::Deregister => answered(
                plain_notice(
                    "Successfully removed you from the database"@,
                    None,
                    ColourCode::Success,
                ),
                Some(
                    LogEntryView {
                        severity: ColourCode::Success,
                        message: "Sccessfully removed user `"@ + named_user(tag, user)
                            + "` from the database"@,
                    },
                ),
            ),
        },
    }
}

impl ProfileCommand {
    /// The profile command that `name` stands for, if any.
    pub fn parse(name: &str) -> (command: Option<ProfileCommand>)
        ensures
            command == profile_command_of(name@),
    {
        if str_eq(name, "register") {
            Some(ProfileCommand::Register)
        } else if str_eq(name, "deregister") {
            Some(ProfileCommand::Deregister)
        } else {
            None
        }
    }

    /// The name of the sub-command that stands for this command.
    pub fn name(&self) -> (name: &'static str)
        ensures
            name@ == profile_command_name(*self),
    {
        match self {
            ProfileCommand::Register => "register",
            ProfileCommand::Deregister => "deregister",
        }
    }
}

/// Makes a notice without footer and controls.
pub(crate) fn make_plain_notice(title: &str, description: Option<String>, colour: ColourCode) -> (notice:
    Notice)
    ensures
        notice@ == plain_notice(title@, crate::ui::optional_text(description), colour),
{
    let notice = Notice {
        title: String::from_str(title),
        description,
        footer: None,
        colour,
        buttons: Vec::new(),
    };
    assert(notice.buttons@.map_values(|button: Button| button@) =~= Seq::<ButtonView>::empty());
    notice
}

/// Makes an outcome that answers the command with a new message.
fn answer(notice: Notice, log: Option<LogEntry>) -> (outcome: Outcome)
    ensures
        outcome@ == answered(notice@, crate::ui::optional_log(log)),
{
    Outcome { reply: Reply::Send(notice), state: None, log }
}

/// Writes a user as the log names them at the end of `out`.
fn append_named_user(out: &mut String, tag: &str, user: u64)
    ensures
        final(out)@ == old(out)@ + named_user(tag@, user),
{
    let mut who = String::from_str(tag);
    who.append(":#");
    append_decimal(&mut who, user);
    append_highlighted(out, who.as_str());
}

/// The command as it is announced to the platform.
pub fn build() -> (command: CommandSpec)
    ensures
        command@ == profile_command_spec(),
{
    let mut options: Vec<CommandOption> = Vec::new();
    options.push(
        CommandOption {
            name: String::from_str("register"),
            description: String::from_str("Add your discord profile to the database"),
        },
    );
    options.push(
        CommandOption {
            name: String::from_str("deregister"),
            description: String::from_str("Remove your discord profile from the database"),
        },
    );
    assert(options@.map_values(|option: CommandOption| option@) =~= profile_command_spec().options);
    CommandSpec {
        name: String::from_str("profile"),
        description: String::from_str("Add or remove your discord profile from the database"),
        options,
    }
}

/// The step for the profile command that `invoker_id` has invoked with the
/// sub-command `sub_command_name`.
pub fn run(invoker_id: u64, sub_command_name: &str) -> (outcome: Outcome)
    ensures
        outcome@ == profile_invoked(invoker_id, sub_command_name@),
{
    match ProfileCommand::parse(sub_command_name) {
        Some(command) => Outcome {
            reply: Reply::LookupProfile { user: invoker_id, command },
            state: None,
            log: None,
        },
        None => {
            let mut message = String::from_str("Recieved unknown `");
            append_highlighted(&mut message, "profile");
            message.append("` sub command: `");
            append_highlighted(&mut message, sub_command_name);
            message.append("`");
            Outcome {
                reply: Reply::Ignore,
                state: None,
                log: Some(LogEntry { severity: ColourCode::Warning, message }),
            }
        },
    }
}

/// The step for the answer of storage to the lookup.
pub fn looked_up(command: ProfileCommand, invoker_id: u64, found: Result<bool, String>) -> (outcome:
    Outcome)
    ensures
        outcome@ == profile_looked_up(
            command,
            invoker_id,
            match found {
                Ok(present) => Ok(present),
                Err(why) => Err(why@),
            },
        ),
{
    match found {
        Err(why) => {
            let mut description = String::from_str(
                "We were unable to check if you're already in the database\n",
            );
            description.append(why.as_str());
            let mut place = String::from_str("profile::");
            place.append(command.name());
            place.append("::detect_user_query");
            let mut message = String::new();
            append_coloured(&mut message, ColourCode::Location, place.as_str());
            message.append(": Failed to check if user is in database: `");
            append_highlighted(&mut message, why.as_str());
            message.append("`");
            proof {
                assert(message@ =~= lookup_failed_log(command, why@).message);
            }
            answer(
                make_plain_notice(
                    "An unexpected error occured :(",
                    Some(description),
                    ColourCode::Error,
                ),
                Some(LogEntry { severity: ColourCode::Error, message }),
            )
        },
        Ok(present) => match command {
            ProfileCommand::Register => if present {
                answer(
                    make_plain_notice("You're already in the database", None, ColourCode::Info),
                    None,
                )
            } else {
                Outcome { reply: Reply::InsertProfile { user: invoker_id }, state: None, log: None }
            },
            ProfileCommand::Deregister => if present {
                Outcome { reply: Reply::DeleteProfile { user: invoker_id }, state: None, log: None }
            } else {
                answer(
                    make_plain_notice("You're not in the database", None, ColourCode::Info),
                    None,
                )
            },
        },
    }
}

/// The step for the answer of storage to the change that `command` asked for.
pub fn changed(
    command: ProfileCommand,
    invoker_tag: &str,
    invoker_id: u64,
    answer_of_storage: Result<(), String>,
) -> (outcome: Outcome)
    ensures
        outcome@ == profile_changed(
            command,
            invoker_tag@,
            invoker_id,
            match answer_of_storage {
                Ok(()) => Ok(()),
                Err(why) => Err(why@),
            },
        ),
{
    match answer_of_storage {
        Err(why) => {
            let mut description = String::from_str("`");
            description.append(why.as_str());
            description.append("`");
            let mut message = String::from_str("Failed to add user `");
            append_named_user(&mut message, invoker_tag, invoker_id);
            message.append("` to the database: `");
            append_highlighted(&mut message, why.as_str());
            message.append("`");
            answer(
                make_plain_notice(
                    "Failed to add you to the database :(",
                    Some(description),
                    ColourCode::Error,
                ),
                Some(LogEntry { severity: ColourCode::Error, message }),
            )
        },
        Ok(()) => match command {
            ProfileCommand::Register => {
                let mut message = String::from_str("successfully added user `");
                append_named_user(&mut message, invoker_tag, invoker_id);
                message.append("` to the database");
                answer(
                    make_plain_notice(
                        "You've been successfully added to the database!",
                        Some(String::from_str("Consider creating a character?")),
                        ColourCode::Success,
                    ),
                    Some(LogEntry { severity: ColourCode::Success, message }),
                )
            },
            ProfileCommand::Deregister => {
                let mut message = String::from_str("Sccessfully removed user `");
                append_named_user(&mut message, invoker_tag, invoker_id);
                message.append("` from the database");
                answer(
                    make_plain_notice(
                        "Successfully removed you from the database",
                        None,
                        ColourCode::Success,
                    ),
                    Some(LogEntry { severity: ColourCode::Success, message }),
                )
            },
        },
    }
}

} // verus!
