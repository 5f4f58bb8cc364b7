use magician::character::{
    build, handle_component_interaction, handle_modal, run, CommandOption, CommandSpec,
};
use magician::colour_codes::ColourCode;
use magician::create::{ContractViolation, Outcome, Reply, WizardState};
use magician::custom_id::MalformedIdentifier;
use magician::event_handler::{
    delivery_failed, dispatch, handle_command, ready, wakeup_failed, Delivery, Event, Wakeup,
};
use magician::profile::ProfileCommand;
use magician::session::{Anchor, SessionStore};
use magician::ui::{FormField, LogEntry, Notice};

const MESSAGE: Anchor = Anchor { channel_id: 8, message_id: 9 };

fn command(user_id: u64, command_name: &str, subcommand_name: &str) -> Event {
    Event::CommandInvocation {
        user_id,
        command_name: command_name.to_string(),
        subcommand_name: subcommand_name.to_string(),
    }
}

fn click(user_id: u64, encoded_id: &str) -> Event {
    Event::ButtonClick { user_id, encoded_id: encoded_id.to_string(), message: MESSAGE }
}

fn form(user_id: u64, encoded_id: &str, fields: &[(&str, &str)]) -> Event {
    Event::FormSubmission {
        user_id,
        encoded_id: encoded_id.to_string(),
        fields: fields
            .iter()
            .map(|(key, value)| FormField { key: key.to_string(), value: Some(value.to_string()) })
            .collect(),
    }
}

#[test]
fn the_character_command_announces_create() {
    assert_eq!(
        build(),
        CommandSpec {
            name: "character".to_string(),
            description: "Manage your characters".to_string(),
            options: vec![CommandOption {
                name: "create".to_string(),
                description: "Construct your new character".to_string(),
            }],
        }
    );
}

#[test]
fn create_shows_the_introduction() {
    let outcome = run(4, "create");
    assert_eq!(outcome, magician::create::run(4));
    assert_eq!(outcome.state, Some(WizardState::Stage(0)));
}

#[test]
fn an_unknown_character_sub_command_is_logged() {
    assert_eq!(
        run(4, "delete"),
        Outcome {
            reply: Reply::Ignore,
            state: None,
            log: Some(LogEntry {
                severity: ColourCode::Warning,
                message: "\x1B[38;5;5mcharacter\x1B[39m: Recieved unknown sub command: `\x1B[38;5;14mdelete\x1B[39m`".to_string(),
            }),
        }
    );
}

#[test]
fn commands_go_to_their_handlers() {
    assert_eq!(handle_command(4, "character", "create"), magician::create::run(4));
    assert_eq!(
        handle_command(4, "profile", "register").reply,
        Reply::LookupProfile { user: 4, command: ProfileCommand::Register }
    );
    assert_eq!(
        handle_command(4, "weather", "today"),
        Outcome {
            reply: Reply::Ignore,
            state: None,
            log: Some(LogEntry {
                severity: ColourCode::Warning,
                message: "Recieved unknown command: `\x1B[38;5;14mweather\x1B[39m`".to_string(),
            }),
        }
    );
}

#[test]
fn a_whole_build_runs_through_dispatch() {
    let mut store = SessionStore::new();
    assert_eq!(
        dispatch(&mut store, &command(1, "character", "create")).unwrap().state,
        Some(WizardState::Stage(0))
    );
    assert_eq!(store.len(), 0);
    assert_eq!(
        dispatch(&mut store, &click(1, "character|create|start|1|0")).unwrap().state,
        Some(WizardState::Stage(1))
    );
    assert_eq!(store.get(1).unwrap().anchor, Some(MESSAGE));
    let forms: [(&str, Vec<(&str, &str)>); 4] = [
        ("character|create|1", vec![("name", "Zara"), ("species", "Elf"), ("appearance", "Tall")]),
        ("character|create|2", vec![("likes", "Tea"), ("dislikes", "Rain")]),
        ("character|create|3", vec![("companions", "N/A"), ("extra", "None")]),
        (
            "character|create|4",
            vec![("motivations", "Gold"), ("alignment", "Neutral"), ("backstory", "Long")],
        ),
    ];
    for (stage, (encoded_id, fields)) in forms.iter().enumerate() {
        let stage = stage as u8 + 1;
        let opened =
            dispatch(&mut store, &click(1, &format!("character|create|continue|1|{stage}"))).unwrap();
        match opened.reply {
            Reply::OpenForm(form) => assert_eq!(&form.custom_id, encoded_id),
            other => panic!("{other:?}"),
        }
        let submitted = dispatch(&mut store, &form(1, encoded_id, fields)).unwrap();
        assert_eq!(submitted.state, Some(WizardState::Stage(stage + 1)));
    }
    assert_eq!(
        dispatch(&mut store, &click(1, "character|create|half-caster|1|5")).unwrap().state,
        Some(WizardState::Stage(6))
    );
    match dispatch(&mut store, &click(1, "character|create|finish|1|6")).unwrap().reply {
        Reply::Persist { owner, character } => {
            assert_eq!(owner, 1);
            assert_eq!(character.name, "Zara");
            assert_eq!(character.extras, "None");
        }
        other => panic!("{other:?}"),
    }
    assert_eq!(store.len(), 0);
}

#[test]
fn identifiers_of_other_commands_are_violations() {
    let mut store = SessionStore::new();
    dispatch(&mut store, &click(1, "character|create|start|1|0")).unwrap();
    assert_eq!(
        dispatch(&mut store, &click(1, "profile|create|cancel|1|0")),
        Err(ContractViolation::UnknownCommand)
    );
    assert_eq!(
        dispatch(&mut store, &click(1, "character|delete|cancel|1|0")),
        Err(ContractViolation::UnknownSubCommand)
    );
    assert_eq!(
        dispatch(&mut store, &click(1, "character")),
        Err(ContractViolation::Malformed(MalformedIdentifier::MissingSubCommand))
    );
    assert_eq!(dispatch(&mut store, &click(1, "")), Err(ContractViolation::UnknownCommand));
    assert_eq!(
        dispatch(&mut store, &form(1, "profile|create|1", &[("name", "Zara")])),
        Err(ContractViolation::UnknownCommand)
    );
    assert_eq!(
        dispatch(&mut store, &form(1, "character|edit|1", &[("name", "Zara")])),
        Err(ContractViolation::UnknownSubCommand)
    );
    assert_eq!(
        dispatch(&mut store, &form(1, "character|create", &[("name", "Zara")])),
        Err(ContractViolation::Malformed(MalformedIdentifier::MissingStage))
    );
    assert!(store.contains(1));
    assert!(store.get(1).unwrap().collected.is_empty());
}

#[test]
fn the_command_router_checks_the_sub_command() {
    let mut store = SessionStore::new();
    assert_eq!(
        handle_component_interaction(&mut store, 1, MESSAGE, vec!["character", "remove", "start", "1", "0"]),
        Err(ContractViolation::UnknownSubCommand)
    );
    assert_eq!(
        handle_component_interaction(&mut store, 1, MESSAGE, vec!["character"]),
        Err(ContractViolation::Malformed(MalformedIdentifier::MissingSubCommand))
    );
    assert_eq!(
        handle_component_interaction(&mut store, 1, MESSAGE, vec![]),
        Err(ContractViolation::Malformed(MalformedIdentifier::MissingCommand))
    );
    assert_eq!(
        handle_modal(&mut store, 1, &vec![], vec!["character", "remove", "1"]),
        Err(ContractViolation::UnknownSubCommand)
    );
    assert_eq!(store.len(), 0);
    assert!(handle_component_interaction(&mut store, 1, MESSAGE, vec!["character", "create", "start", "1", "0"]).is_ok());
    assert!(handle_modal(&mut store, 1, &vec![], vec!["character", "create", "1"]).is_ok());
    assert_eq!(store.len(), 1);
}

#[test]
fn a_click_on_a_control_of_another_user_changes_nothing() {
    let mut store = SessionStore::new();
    dispatch(&mut store, &click(1, "character|create|start|1|0")).unwrap();
    for label in ["cancel", "finish", "caster", "start", "continue", "dismiss", "x"] {
        for stage in 0u8..8 {
            let outcome =
                dispatch(&mut store, &click(2, &format!("character|create|{label}|1|{stage}")));
            assert_eq!(outcome, Ok(Outcome { reply: Reply::Acknowledge, state: None, log: None }));
            assert_eq!(store.len(), 1);
            assert!(store.get(1).unwrap().collected.is_empty());
        }
    }
}

#[test]
fn coming_online_is_announced() {
    assert_eq!(
        ready(55),
        Wakeup {
            channel_id: 55,
            notice: Notice {
                title: "Magician Online".to_string(),
                description: None,
                footer: None,
                colour: ColourCode::Info,
                buttons: vec![],
            },
            log: LogEntry { severity: ColourCode::Info, message: "Bot Online!".to_string() },
        }
    );
    assert_eq!(
        wakeup_failed("missing access"),
        LogEntry {
            severity: ColourCode::Error,
            message: "`\x1B[38;5;5mready\x1B[39m`: Failed to send wakeup message: `\x1B[38;5;14mmissing access\x1B[39m`".to_string(),
        }
    );
}

#[test]
fn failed_deliveries_are_logged_with_caution() {
    let cases = [
        (Delivery::Send, "Failed to send message: `\x1B[38;5;14mtimeout\x1B[39m`"),
        (Delivery::Edit, "Failed to edit message: `\x1B[38;5;14mtimeout\x1B[39m`"),
        (Delivery::Acknowledge, "Failed to send acknowledge: `\x1B[38;5;14mtimeout\x1B[39m`"),
        (Delivery::Delete, "Failed to delete message: `\x1B[38;5;14mtimeout\x1B[39m`"),
    ];
    for (delivery, message) in cases {
        assert_eq!(
            delivery_failed(delivery, "timeout"),
            LogEntry { severity: ColourCode::Caution, message: message.to_string() }
        );
    }
}
