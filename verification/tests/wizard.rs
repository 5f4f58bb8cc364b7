use magician::characters::{Character, CharacterClass};
use magician::colour_codes::ColourCode;
use magician::create::{
    handle_component, handle_modal, persisted, render_stage, run, Action, ContractViolation,
    Outcome, Reply, WizardState,
};
use magician::custom_id::MalformedIdentifier;
use magician::session::{Anchor, SessionStore};
use magician::ui::{Button, ButtonStyle, FormField, Notice};

const A: u64 = 1001;
const B: u64 = 2002;

fn anchor_of(user: u64) -> Anchor {
    Anchor { channel_id: 77, message_id: user * 10 }
}

fn button(label: &str, user: u64, stage: u8, style: ButtonStyle, caption: &str) -> Button {
    Button {
        custom_id: format!("character|create|{label}|{user}|{stage}"),
        style,
        label: caption.to_string(),
    }
}

fn click(store: &mut SessionStore, user: u64, id: &str) -> Result<Outcome, ContractViolation> {
    handle_component(store, user, anchor_of(user), id.split('|').collect())
}

fn input(key: &str, value: &str) -> FormField {
    FormField { key: key.to_string(), value: Some(value.to_string()) }
}

fn submit(
    store: &mut SessionStore,
    user: u64,
    stage: u8,
    fields: &[(&str, &str)],
) -> Result<Outcome, ContractViolation> {
    let fields: Vec<FormField> = fields.iter().map(|(key, value)| input(key, value)).collect();
    handle_modal(store, user, &fields, vec!["character", "create", &stage.to_string()])
}

fn collected_keys(store: &SessionStore, user: u64) -> Vec<&'static str> {
    let record = store.get(user).unwrap();
    let all = [
        "name", "species", "alignment", "likes", "dislikes", "motivations", "companions",
        "backstory", "appearance", "extra", "class",
    ];
    let present: Vec<&'static str> =
        all.into_iter().filter(|key| record.collected.contains_key(key)).collect();
    assert_eq!(present.len(), record.collected.len());
    present
}

fn build_up_to_confirmation(store: &mut SessionStore, user: u64, class: &str) {
    click(store, user, &format!("character|create|start|{user}|0")).unwrap();
    submit(store, user, 1, &[("name", "Zara"), ("species", "Elf"), ("appearance", "Tall")]).unwrap();
    submit(store, user, 2, &[("likes", "Tea"), ("dislikes", "Rain")]).unwrap();
    submit(store, user, 3, &[("companions", "N/A"), ("extra", "None")]).unwrap();
    submit(
        store,
        user,
        4,
        &[("motivations", "Gold"), ("alignment", "Neutral"), ("backstory", "Long")],
    )
    .unwrap();
    click(store, user, &format!("character|create|{class}|{user}|5")).unwrap();
}

#[test]
fn the_command_shows_the_introduction() {
    let outcome = run(A);
    assert_eq!(outcome.state, Some(WizardState::Stage(0)));
    assert_eq!(outcome.log, None);
    assert_eq!(
        outcome.reply,
        Reply::Send(Notice {
            title: "Welcome to character createion!".to_string(),
            description: Some("To build your character press  `Start`  when ready, or  `Cancel`  at any time to stop.\n Character creation will occur in stages, with forms popping up whenever you click `Continue` to prompt for your input. Feel free to go at your own pace.".to_string()),
            footer: None,
            colour: ColourCode::Location,
            buttons: vec![
                button("start", A, 0, ButtonStyle::Primary, "Start!"),
                button("cancel", A, 0, ButtonStyle::Secondary, "Cancel"),
            ],
        })
    );
}

#[test]
fn scenario_start_continue_submit() {
    let mut store = SessionStore::new();

    let started = click(&mut store, A, "character|create|start|1001|0").unwrap();
    assert!(store.contains(A));
    assert_eq!(store.get(A).unwrap().anchor, Some(anchor_of(A)));
    assert!(store.get(A).unwrap().collected.is_empty());
    assert_eq!(started.state, Some(WizardState::Stage(1)));
    assert_eq!(
        started.reply,
        Reply::Update(Notice {
            title: "First of all, the basics".to_string(),
            description: Some("What's your character's name, species, and appearance?".to_string()),
            footer: Some("1/5".to_string()),
            colour: ColourCode::Location,
            buttons: vec![
                button("continue", A, 1, ButtonStyle::Primary, "Continue"),
                button("cancel", A, 1, ButtonStyle::Secondary, "Cancel"),
            ],
        })
    );

    let continued = click(&mut store, A, "character|create|continue|1001|1").unwrap();
    assert_eq!(continued.state, None);
    match continued.reply {
        Reply::OpenForm(form) => {
            assert_eq!(form.custom_id, "character|create|1");
            assert_eq!(form.title, "Character Building");
            let keys: Vec<&str> = form.fields.iter().map(|f| f.storage_key.as_str()).collect();
            assert_eq!(keys, vec!["name", "species", "appearance"]);
            let labels: Vec<&str> = form.fields.iter().map(|f| f.display_label.as_str()).collect();
            assert_eq!(labels, vec!["Name", "Species", "Appearance"]);
            let multiline: Vec<bool> = form.fields.iter().map(|f| f.multiline).collect();
            assert_eq!(multiline, vec![false, false, true]);
        }
        other => panic!("{other:?}"),
    }
    assert!(store.get(A).unwrap().collected.is_empty());

    let submitted =
        submit(&mut store, A, 1, &[("name", "Zara"), ("species", "Elf"), ("appearance", "Tall")])
            .unwrap();
    assert_eq!(submitted.state, Some(WizardState::Stage(2)));
    assert_eq!(
        submitted.reply,
        Reply::EditAnchor { anchor: anchor_of(A), notice: render_stage(A, 2) }
    );
    assert_eq!(collected_keys(&store, A), vec!["name", "species", "appearance"]);
    let record = store.get(A).unwrap();
    assert_eq!(record.collected.get("name"), Some(&"Zara".to_string()));
    assert_eq!(record.collected.get("species"), Some(&"Elf".to_string()));
    assert_eq!(record.collected.get("appearance"), Some(&"Tall".to_string()));
}

#[test]
fn scenario_two_users_build_independently() {
    let mut store = SessionStore::new();
    click(&mut store, A, "character|create|start|1001|0").unwrap();
    submit(&mut store, A, 1, &[("name", "Zara"), ("species", "Elf"), ("appearance", "Tall")])
        .unwrap();

    let started = click(&mut store, B, "character|create|start|2002|0").unwrap();
    assert_eq!(started.state, Some(WizardState::Stage(1)));
    assert_eq!(store.len(), 2);
    assert!(store.get(B).unwrap().collected.is_empty());
    assert_eq!(store.get(B).unwrap().anchor, Some(anchor_of(B)));
    assert_eq!(store.get(A).unwrap().anchor, Some(anchor_of(A)));

    submit(&mut store, B, 1, &[("name", "Borin"), ("species", "Dwarf"), ("appearance", "Short")])
        .unwrap();
    submit(&mut store, A, 2, &[("likes", "Tea"), ("dislikes", "Rain")]).unwrap();
    assert_eq!(store.get(A).unwrap().collected.get("name"), Some(&"Zara".to_string()));
    assert_eq!(store.get(B).unwrap().collected.get("name"), Some(&"Borin".to_string()));
    assert_eq!(collected_keys(&store, A), vec!["name", "species", "likes", "dislikes", "appearance"]);
    assert_eq!(collected_keys(&store, B), vec!["name", "species", "appearance"]);

    click(&mut store, B, "character|create|cancel|2002|2").unwrap();
    assert!(!store.contains(B));
    assert_eq!(store.get(A).unwrap().collected.len(), 5);
}

#[test]
fn scenario_cancel_at_stage_three_and_start_again() {
    let mut store = SessionStore::new();
    click(&mut store, A, "character|create|start|1001|0").unwrap();
    submit(&mut store, A, 1, &[("name", "Zara"), ("species", "Elf"), ("appearance", "Tall")])
        .unwrap();
    submit(&mut store, A, 2, &[("likes", "Tea"), ("dislikes", "Rain")]).unwrap();

    let cancelled = click(&mut store, A, "character|create|cancel|1001|3").unwrap();
    assert!(!store.contains(A));
    assert_eq!(cancelled.state, Some(WizardState::Cancelled));
    assert_eq!(cancelled.log, None);
    assert_eq!(
        cancelled.reply,
        Reply::Update(Notice {
            title: "Character Creation Cancelled".to_string(),
            description: None,
            footer: None,
            colour: ColourCode::Info,
            buttons: vec![],
        })
    );

    let again = click(&mut store, A, "character|create|start|1001|0").unwrap();
    assert_eq!(again.state, Some(WizardState::Stage(1)));
    assert!(store.get(A).unwrap().collected.is_empty());
}

#[test]
fn scenario_storage_refuses_the_character() {
    let mut store = SessionStore::new();
    build_up_to_confirmation(&mut store, A, "caster");
    assert_eq!(store.get(A).unwrap().collected.len(), 11);

    let finished = click(&mut store, A, "character|create|finish|1001|6").unwrap();
    assert!(!store.contains(A));
    assert_eq!(finished.state, None);
    let character = match finished.reply {
        Reply::Persist { owner, character } => {
            assert_eq!(owner, A);
            character
        }
        other => panic!("{other:?}"),
    };
    assert_eq!(
        character,
        Character {
            name: "Zara".to_string(),
            species: "Elf".to_string(),
            alignment: "Neutral".to_string(),
            likes: "Tea".to_string(),
            dislike: "Rain".to_string(),
            motivations: "Gold".to_string(),
            companions: "N/A".to_string(),
            backstory: "Long".to_string(),
            appearance: "Tall".to_string(),
            extras: "None".to_string(),
            class: CharacterClass::Caster,
        }
    );

    let reported =
        persisted(A, "zara#0001", &character.name, Err("database is locked".to_string()));
    assert_eq!(reported.state, Some(WizardState::PersistFailed));
    assert_eq!(
        reported.reply,
        Reply::Update(Notice {
            title: "An error occured while inserting your character. Try again?".to_string(),
            description: Some("Error: \n`database is locked`".to_string()),
            footer: None,
            colour: ColourCode::Error,
            buttons: vec![],
        })
    );
    let log = reported.log.unwrap();
    assert_eq!(log.severity, ColourCode::Error);
    assert_eq!(
        log.message,
        "Failed to insert a character to the database: `\x1B[38;5;14mdatabase is locked\x1B[39m`"
    );
    assert!(!store.contains(A));
    assert!(click(&mut store, A, "character|create|start|1001|0").is_ok());
    assert!(store.contains(A));
}

#[test]
fn storage_takes_the_character() {
    let reported = persisted(A, "zara#0001", "Zara", Ok(()));
    assert_eq!(reported.state, Some(WizardState::Persisted));
    assert_eq!(
        reported.reply,
        Reply::Update(Notice {
            title: "Zara Has been successfully added to your characters!".to_string(),
            description: Some("You may now use them!".to_string()),
            footer: None,
            colour: ColourCode::Success,
            buttons: vec![button("dismiss", A, 7, ButtonStyle::Success, "Dismiss")],
        })
    );
    let log = reported.log.unwrap();
    assert_eq!(log.severity, ColourCode::Success);
    assert_eq!(
        log.message,
        "`\x1B[38;5;14mzara#0001:#1001\x1B[39m` Has inserted a new character `\x1B[38;5;14mZara\x1B[39m`!"
    );
}

#[test]
fn a_second_start_is_refused_and_keeps_the_build() {
    let mut store = SessionStore::new();
    click(&mut store, A, "character|create|start|1001|0").unwrap();
    submit(&mut store, A, 1, &[("name", "Zara"), ("species", "Elf"), ("appearance", "Tall")])
        .unwrap();
    let refused = handle_component(
        &mut store,
        A,
        Anchor { channel_id: 1, message_id: 2 },
        vec!["character", "create", "start", "1001", "0"],
    )
    .unwrap();
    assert_eq!(refused.state, None);
    assert_eq!(
        refused.reply,
        Reply::Update(Notice {
            title: "You're already building a character".to_string(),
            description: Some("Building more than one character at a time is not currently supported. \nIf this becomes a common grievance, please open an issue on the bot's github repo".to_string()),
            footer: None,
            colour: ColourCode::Error,
            buttons: vec![button("dismiss", A, 0, ButtonStyle::Danger, "Dismiss")],
        })
    );
    assert_eq!(store.len(), 1);
    assert_eq!(store.get(A).unwrap().anchor, Some(anchor_of(A)));
    assert_eq!(store.get(A).unwrap().collected.len(), 3);
}

#[test]
fn continue_opens_the_form_of_each_collecting_stage() {
    let mut store = SessionStore::new();
    let expected: [(u8, Vec<&str>); 4] = [
        (1, vec!["name", "species", "appearance"]),
        (2, vec!["likes", "dislikes"]),
        (3, vec!["companions", "extra"]),
        (4, vec!["motivations", "alignment", "backstory"]),
    ];
    for (stage, keys) in expected {
        let outcome = click(&mut store, A, &format!("character|create|continue|1001|{stage}")).unwrap();
        match outcome.reply {
            Reply::OpenForm(form) => {
                assert_eq!(form.custom_id, format!("character|create|{stage}"));
                assert!(form.fields.iter().all(|field| field.stage == stage));
                let found: Vec<&str> = form.fields.iter().map(|f| f.storage_key.as_str()).collect();
                assert_eq!(found, keys);
            }
            other => panic!("{other:?}"),
        }
    }
    assert_eq!(store.len(), 0);
}

#[test]
fn continue_beyond_the_collecting_stages_is_a_violation() {
    let mut store = SessionStore::new();
    for stage in [5u8, 6, 7, 255] {
        assert_eq!(
            click(&mut store, A, &format!("character|create|continue|1001|{stage}")),
            Err(ContractViolation::UnknownStage(stage))
        );
        assert_eq!(
            click(&mut store, A, &format!("character|create|start|1001|{stage}")),
            Err(ContractViolation::UnknownStage(stage))
        );
    }
    assert_eq!(store.len(), 0);
}

#[test]
fn the_last_form_leads_to_the_choice_of_class() {
    let mut store = SessionStore::new();
    click(&mut store, A, "character|create|start|1001|0").unwrap();
    let outcome = submit(
        &mut store,
        A,
        4,
        &[("motivations", "Gold"), ("alignment", "Neutral"), ("backstory", "Long")],
    )
    .unwrap();
    assert_eq!(outcome.state, Some(WizardState::Stage(5)));
    match outcome.reply {
        Reply::EditAnchor { anchor, notice } => {
            assert_eq!(anchor, anchor_of(A));
            assert_eq!(notice.title, "Lastly, what's their class?");
            assert_eq!(notice.footer, Some("5/5".to_string()));
            assert_eq!(
                notice.buttons,
                vec![
                    button("martial", A, 5, ButtonStyle::Primary, "Martial"),
                    button("half-caster", A, 5, ButtonStyle::Primary, "Half-Caster"),
                    button("caster", A, 5, ButtonStyle::Primary, "Caster"),
                    button("cancel", A, 5, ButtonStyle::Secondary, "Cancel"),
                ]
            );
        }
        other => panic!("{other:?}"),
    }
}

#[test]
fn choosing_a_class_writes_it_and_asks_for_confirmation() {
    for class in ["martial", "half-caster", "caster"] {
        let mut store = SessionStore::new();
        click(&mut store, A, "character|create|start|1001|0").unwrap();
        let outcome = click(&mut store, A, &format!("character|create|{class}|1001|5")).unwrap();
        assert_eq!(store.get(A).unwrap().collected.get("class"), Some(&class.to_string()));
        assert_eq!(store.get(A).unwrap().collected.len(), 1);
        assert_eq!(store.get(A).unwrap().anchor, Some(anchor_of(A)));
        assert_eq!(outcome.state, Some(WizardState::Stage(6)));
        assert_eq!(
            outcome.reply,
            Reply::Update(Notice {
                title: "Finish".to_string(),
                description: Some("Finish".to_string()),
                footer: None,
                colour: ColourCode::Location,
                buttons: vec![
                    button("finish", A, 6, ButtonStyle::Success, "Finish"),
                    button("cancel", A, 6, ButtonStyle::Secondary, "Cancel"),
                ],
            })
        );
    }
}

#[test]
fn a_class_needs_its_stage_and_a_build() {
    let mut store = SessionStore::new();
    assert_eq!(
        click(&mut store, A, "character|create|martial|1001|5"),
        Err(ContractViolation::MissingSession(A))
    );
    click(&mut store, A, "character|create|start|1001|0").unwrap();
    assert_eq!(
        click(&mut store, A, "character|create|martial|1001|4"),
        Err(ContractViolation::UnknownStage(4))
    );
    assert!(store.get(A).unwrap().collected.is_empty());
}

#[test]
fn finish_needs_its_stage_and_a_build() {
    let mut store = SessionStore::new();
    assert_eq!(
        click(&mut store, A, "character|create|finish|1001|6"),
        Err(ContractViolation::MissingSession(A))
    );
    build_up_to_confirmation(&mut store, A, "martial");
    assert_eq!(
        click(&mut store, A, "character|create|finish|1001|5"),
        Err(ContractViolation::UnknownStage(5))
    );
    assert!(store.contains(A));
    assert_eq!(store.get(A).unwrap().collected.len(), 11);
}

#[test]
fn finish_with_missing_values_ends_the_build_with_a_notice() {
    let mut store = SessionStore::new();
    click(&mut store, A, "character|create|start|1001|0").unwrap();
    submit(&mut store, A, 1, &[("name", "Zara"), ("species", "Elf"), ("appearance", "Tall")])
        .unwrap();
    click(&mut store, A, "character|create|caster|1001|5").unwrap();
    let outcome = click(&mut store, A, "character|create|finish|1001|6").unwrap();
    assert!(!store.contains(A));
    assert_eq!(outcome.state, Some(WizardState::PersistFailed));
    assert_eq!(
        outcome.reply,
        Reply::Update(Notice {
            title: "Failed to prepare character for database insert. This shouldn't happen in production, consider yourself lucky in your lack of luck".to_string(),
            description: Some("Error: \n`Missing field(s): `alignment, likes, dislikes, motivations, companions, backstory, extra, ``".to_string()),
            footer: None,
            colour: ColourCode::Error,
            buttons: vec![],
        })
    );
    assert!(click(&mut store, A, "character|create|start|1001|0").is_ok());
}

#[test]
fn finish_with_an_invalid_class_ends_the_build_with_a_notice() {
    let mut store = SessionStore::new();
    build_up_to_confirmation(&mut store, A, "caster");
    submit(&mut store, A, 1, &[("class", "bard")]).unwrap();
    let outcome = click(&mut store, A, "character|create|finish|1001|6").unwrap();
    assert!(!store.contains(A));
    match outcome.reply {
        Reply::Update(notice) => {
            assert_eq!(
                notice.description,
                Some("Error: \n`Invalid Class Recived: `bard``".to_string())
            );
            assert_eq!(notice.colour, ColourCode::Error);
        }
        other => panic!("{other:?}"),
    }
}

#[test]
fn a_control_of_another_user_is_acknowledged_and_nothing_else() {
    let labels =
        ["start", "continue", "cancel", "dismiss", "martial", "half-caster", "caster", "finish", "nonsense"];
    for label in labels {
        for stage in 0u8..=8 {
            let mut store = SessionStore::new();
            build_up_to_confirmation(&mut store, A, "caster");
            click(&mut store, B, "character|create|start|2002|0").unwrap();
            let outcome =
                click(&mut store, B, &format!("character|create|{label}|{A}|{stage}")).unwrap();
            assert_eq!(outcome, Outcome { reply: Reply::Acknowledge, state: None, log: None });
            assert_eq!(store.len(), 2);
            assert_eq!(store.get(A).unwrap().collected.len(), 11);
            assert_eq!(store.get(A).unwrap().anchor, Some(anchor_of(A)));
            assert!(store.get(B).unwrap().collected.is_empty());
            assert_eq!(store.get(B).unwrap().anchor, Some(anchor_of(B)));
        }
    }
}

#[test]
fn an_unknown_label_is_acknowledged_with_a_warning() {
    let mut store = SessionStore::new();
    click(&mut store, A, "character|create|start|1001|0").unwrap();
    let outcome = click(&mut store, A, "character|create|restart|1001|2").unwrap();
    assert_eq!(outcome.reply, Reply::Acknowledge);
    assert_eq!(outcome.state, None);
    let log = outcome.log.unwrap();
    assert_eq!(log.severity, ColourCode::Warning);
    assert_eq!(
        log.message,
        "\x1B[38;5;5mcharacter_create::handle_component\x1B[39m: Recieved unknown buttom label: \x1B[38;5;14mrestart\x1B[39m"
    );
    assert_eq!(store.len(), 1);
    assert!(store.get(A).unwrap().collected.is_empty());
}

#[test]
fn dismiss_deletes_the_message_and_keeps_the_build() {
    let mut store = SessionStore::new();
    click(&mut store, A, "character|create|start|1001|0").unwrap();
    let message = Anchor { channel_id: 3, message_id: 4 };
    let outcome =
        handle_component(&mut store, A, message, vec!["character", "create", "dismiss", "1001", "0"])
            .unwrap();
    assert_eq!(outcome, Outcome { reply: Reply::Delete(message), state: None, log: None });
    assert!(store.contains(A));
}

#[test]
fn cancel_without_build_still_shows_the_notice() {
    let mut store = SessionStore::new();
    click(&mut store, B, "character|create|start|2002|0").unwrap();
    for stage in [0u8, 3, 6, 200] {
        let outcome = click(&mut store, A, &format!("character|create|cancel|1001|{stage}")).unwrap();
        assert_eq!(outcome.state, Some(WizardState::Cancelled));
        match outcome.reply {
            Reply::Update(notice) => assert!(notice.buttons.is_empty()),
            other => panic!("{other:?}"),
        }
    }
    assert_eq!(store.len(), 1);
    assert!(store.contains(B));
}

#[test]
fn a_malformed_identifier_is_a_violation() {
    let mut store = SessionStore::new();
    click(&mut store, A, "character|create|start|1001|0").unwrap();
    assert_eq!(
        click(&mut store, A, "character|create|cancel|1001"),
        Err(ContractViolation::Malformed(MalformedIdentifier::MissingStage))
    );
    assert_eq!(
        click(&mut store, A, "character|create|cancel|abc|1"),
        Err(ContractViolation::Malformed(MalformedIdentifier::UnreadableUserId))
    );
    assert_eq!(
        handle_modal(&mut store, A, &vec![input("name", "Zara")], vec!["character", "create"]),
        Err(ContractViolation::Malformed(MalformedIdentifier::MissingStage))
    );
    assert_eq!(
        handle_modal(&mut store, A, &vec![input("name", "Zara")], vec!["character", "create", "x"]),
        Err(ContractViolation::Malformed(MalformedIdentifier::UnreadableStage))
    );
    assert!(store.contains(A));
    assert!(store.get(A).unwrap().collected.is_empty());
}

#[test]
fn a_form_of_an_unknown_stage_is_a_violation_and_merges_nothing() {
    let mut store = SessionStore::new();
    click(&mut store, A, "character|create|start|1001|0").unwrap();
    for stage in [0u8, 5, 6, 9, 255] {
        assert_eq!(
            submit(&mut store, A, stage, &[("name", "Zara")]),
            Err(ContractViolation::UnknownStage(stage))
        );
    }
    assert!(store.get(A).unwrap().collected.is_empty());
}

#[test]
fn a_form_without_build_is_a_violation() {
    let mut store = SessionStore::new();
    assert_eq!(
        submit(&mut store, A, 1, &[("name", "Zara")]),
        Err(ContractViolation::MissingSession(A))
    );
    assert_eq!(store.len(), 0);
}

#[test]
fn a_form_for_a_build_without_anchor_is_a_violation() {
    let mut store = SessionStore::new();
    store.begin(A).unwrap();
    assert_eq!(
        submit(&mut store, A, 1, &[("name", "Zara")]),
        Err(ContractViolation::MissingAnchor(A))
    );
    assert!(store.get(A).unwrap().collected.is_empty());
}

#[test]
fn inputs_without_value_are_skipped_and_later_inputs_win() {
    let mut store = SessionStore::new();
    click(&mut store, A, "character|create|start|1001|0").unwrap();
    let fields = vec![
        input("name", "Zara"),
        FormField { key: "species".to_string(), value: None },
        input("name", "Zoë"),
        input("appearance", ""),
    ];
    handle_modal(&mut store, A, &fields, vec!["character", "create", "1"]).unwrap();
    let record = store.get(A).unwrap();
    assert_eq!(record.collected.len(), 2);
    assert_eq!(record.collected.get("name"), Some(&"Zoë".to_string()));
    assert_eq!(record.collected.get("species"), None);
    assert_eq!(record.collected.get("appearance"), Some(&"".to_string()));
}

#[test]
fn a_form_leaves_earlier_stages_untouched() {
    let mut store = SessionStore::new();
    click(&mut store, A, "character|create|start|1001|0").unwrap();
    submit(&mut store, A, 1, &[("name", "Zara"), ("species", "Elf"), ("appearance", "Tall")])
        .unwrap();
    submit(&mut store, A, 2, &[("likes", "Tea"), ("dislikes", "Rain")]).unwrap();
    submit(&mut store, A, 3, &[("companions", "N/A"), ("extra", "None")]).unwrap();
    let record = store.get(A).unwrap();
    assert_eq!(record.collected.len(), 7);
    assert_eq!(record.collected.get("name"), Some(&"Zara".to_string()));
    assert_eq!(record.collected.get("species"), Some(&"Elf".to_string()));
    assert_eq!(record.collected.get("appearance"), Some(&"Tall".to_string()));
    assert_eq!(record.collected.get("likes"), Some(&"Tea".to_string()));
    assert_eq!(record.collected.get("dislikes"), Some(&"Rain".to_string()));
    assert_eq!(record.collected.get("companions"), Some(&"N/A".to_string()));
    assert_eq!(record.collected.get("extra"), Some(&"None".to_string()));
}

#[test]
fn labels_stand_for_actions() {
    assert_eq!(Action::parse("start"), Some(Action::Start));
    assert_eq!(Action::parse("continue"), Some(Action::Continue));
    assert_eq!(Action::parse("cancel"), Some(Action::Cancel));
    assert_eq!(Action::parse("dismiss"), Some(Action::Dismiss));
    assert_eq!(Action::parse("finish"), Some(Action::Finish));
    assert_eq!(Action::parse("martial"), Some(Action::Class(CharacterClass::Martial)));
    assert_eq!(Action::parse("half-caster"), Some(Action::Class(CharacterClass::HalfCaster)));
    assert_eq!(Action::parse("caster"), Some(Action::Class(CharacterClass::Caster)));
    assert_eq!(Action::parse("Start"), None);
    assert_eq!(Action::parse(""), None);
    for action in [
        Action::Start,
        Action::Continue,
        Action::Cancel,
        Action::Dismiss,
        Action::Finish,
        Action::Class(CharacterClass::Caster),
    ] {
        assert_eq!(Action::parse(action.label()), Some(action));
    }
}

#[test]
fn every_control_on_display_is_understood() {
    for stage in 0u8..=6 {
        for control in render_stage(A, stage).buttons {
            let fields: Vec<&str> = control.custom_id.split('|').collect();
            assert_eq!(fields.len(), 5);
            assert_eq!(fields[0], "character");
            assert_eq!(fields[1], "create");
            assert!(Action::parse(fields[2]).is_some());
            assert_eq!(fields[3], "1001");
            assert_eq!(fields[4], stage.to_string());
        }
    }
}
