//! The wizard that builds a character in stages.
//!
//! Every function here is one step of a state machine: it takes the store
//! and one event, changes the store, and says what to show next. Nothing in
//! it waits for anything: where the outside world has to act (storage, the
//! chat platform), the step ends with a reply that names the action, and the
//! answer comes back as the next event.

use crate::catalog::{
    fields_for, has_fields, has_prompt, lemma_catalogue_covers_required_keys,
    lemma_stage_keys_distinct, prompt_description, prompt_footer, prompt_for, prompt_title,
    stage_fields, stage_keys, CLASS_STAGE, CONFIRM_STAGE, DONE_STAGE, INTRO_STAGE,
    LAST_COLLECTING_STAGE,
};
use crate::characters::{
    build_entity, character_of, class_label, class_of_label, entity_of, is_complete,
    lemma_class_label_round_trip, lemma_valid_values_make_character, required_keys,
    validation_message, Character, CharacterClass, CharacterView, ValidationErrorView,
};
use crate::colour_codes::{append_coloured, coloured, ColourCode};
use crate::custom_id::{
    component_id, component_id_of, component_id_text, lemma_component_id_round_trip, modal_id,
    modal_id_of, modal_id_text, ComponentIdView, MalformedIdentifier, ParsedComponentCustomId,
    ParsedModalCustomId, SEPARATOR,
};
use crate::profile::ProfileCommand;
use crate::session::{
    after_removal, fresh_draft, Anchor, Collected, DraftView, SessionStore, Sessions,
};
use crate::text::{append_decimal, decimal, free_of, split, str_eq, views};
use crate::ui::{
    field_views, optional_log, Button, ButtonStyle, ButtonView, Form, FormField, FormFieldView,
    FormView, LogEntry, LogEntryView, Notice, NoticeView,
};
use vstd::prelude::*;
use vstd::string::*;

verus! {

/// Where a build stands. A user for whom the store holds nothing is idle; no
/// value stands for that.
#[derive(Clone, Copy, Debug, PartialEq, Eq, Structural)]
pub enum WizardState {
    /// The prompt of this stage is on display.
    Stage(u8),
    /// The user has cancelled.
    Cancelled,
    /// The character is in storage.
    Persisted,
    /// The character could not be made or stored.
    PersistFailed,
}

/// What a control asks for, by its label.
#[derive(Clone, Copy, Debug, PartialEq, Eq, Structural)]
pub enum Action {
    Start,
    Continue,
    Cancel,
    Dismiss,
    Class(CharacterClass),
    Finish,
}

/// The engine and the controls on display no longer agree. None of these can
/// be mended while the event is handled; the event is to be given up.
#[derive(Clone, Copy, Debug, PartialEq, Eq, Structural)]
pub enum ContractViolation {
    /// The identifier of the control or form cannot be read.
    Malformed(MalformedIdentifier),
    /// The identifier names a command that has no controls or forms.
    UnknownCommand,
    /// The identifier names a sub-command that has no controls or forms.
    UnknownSubCommand,
    /// The stage is none at which the label, or a form, can occur.
    UnknownStage(u8),
    /// The user has no build although the event needs one.
    MissingSession(u64),
    /// The build of the user has no message to edit.
    MissingAnchor(u64),
}

/// What is to be done in answer to an event.
#[derive(Clone, Debug, PartialEq, Eq)]
pub enum Reply {
    /// Answer the command with a new message.
    Send(Notice),
    /// Replace the content of the message that holds the control.
    Update(Notice),
    /// Ask for field values.
    OpenForm(Form),
    /// Replace the content of the anchor message, and acknowledge the event.
    EditAnchor { anchor: Anchor, notice: Notice },
    /// Delete the message.
    Delete(Anchor),
    /// Acknowledge the event and do nothing else.
    Acknowledge,
    /// Hand the character to storage for `owner`, and report what came of it
    /// with [`persisted`].
    Persist { owner: u64, character: Character },
    /// Ask storage whether `user` has a profile, and report the answer to
    /// the profile command.
    LookupProfile { user: u64, command: ProfileCommand },
    /// Add the profile of `user` to storage, and report what came of it.
    InsertProfile { user: u64 },
    /// Take the profile of `user` out of storage, and report what came of it.
    DeleteProfile { user: u64 },
    /// Do nothing at all.
    Ignore,
}

/// What a reply holds.
pub enum ReplyView {
    Send(NoticeView),
    Update(NoticeView),
    OpenForm(FormView),
    EditAnchor { anchor: Anchor, notice: NoticeView },
    Delete(Anchor),
    Acknowledge,
    Persist { owner: u64, character: CharacterView },
    LookupProfile { user: u64, command: ProfileCommand },
    InsertProfile { user: u64 },
    DeleteProfile { user: u64 },
    Ignore,
}

impl View for Reply {
    type V = ReplyView;

    open spec fn view(&self) -> ReplyView {
        match self {
            Reply::Send(notice) => ReplyView::Send(notice@),
            Reply::Update(notice) => ReplyView::Update(notice@),
            Reply::OpenForm(form) => ReplyView::OpenForm(form@),
            Reply::EditAnchor { anchor, notice } => ReplyView::EditAnchor {
                anchor: *anchor,
                notice: notice@,
            },
            Reply::Delete(anchor) => ReplyView::Delete(*anchor),
            Reply::Acknowledge => ReplyView::Acknowledge,
            Reply::Persist { owner, character } => ReplyView::Persist {
                owner: *owner,
                character: character@,
            },
            Reply::LookupProfile { user, command } => ReplyView::LookupProfile {
                user: *user,
                command: *command,
            },
            Reply::InsertProfile { user } => ReplyView::InsertProfile { user: *user },
            Reply::DeleteProfile { user } => ReplyView::DeleteProfile { user: *user },
            Reply::Ignore => ReplyView::Ignore,
        }
    }
}

/// The result of one step: what to do, which state the build has entered if
/// it has entered one, and what to write to the log.
#[derive(Clone, Debug, PartialEq, Eq)]
pub struct Outcome {
    pub reply: Reply,
    pub state: Option<WizardState>,
    pub log: Option<LogEntry>,
}

/// What an outcome holds.
pub struct OutcomeView {
    pub reply: ReplyView,
    pub state: Option<WizardState>,
    pub log: Option<LogEntryView>,
}

impl View for Outcome {
    type V = OutcomeView;

    open spec fn view(&self) -> OutcomeView {
        OutcomeView { reply: self.reply@, state: self.state, log: optional_log(self.log) }
    }
}

/// The view of a step's result.
pub open spec fn result_view(result: Result<Outcome, ContractViolation>) -> Result<
    OutcomeView,
    ContractViolation,
> {
    match result {
        Ok(outcome) => Ok(outcome@),
        Err(violation) => Err(violation),
    }
}

/// The action that `label` stands for, if any.
pub open spec fn action_of_label(label: Seq<char>) -> Option<Action> {
    if label == "cancel"@ {
        Some(Action::Cancel)
    } else if label == "dismiss"@ {
        Some(Action::Dismiss)
    } else if label == "start"@ {
        Some(Action::Start)
    } else if label == "continue"@ {
        Some(Action::Continue)
    } else if class_of_label(label) is Some {
        Some(Action::Class(class_of_label(label).unwrap()))
    } else if label == "finish"@ {
        Some(Action::Finish)
    } else {
        None
    }
}

/// The label of `action`.
pub open spec fn action_label(action: Action) -> Seq<char> {
    match action {
        Action::Start => "start"@,
        Action::Continue => "continue"@,
        Action::Cancel => "cancel"@,
        Action::Dismiss => "dismiss"@,
        Action::Class(class) => class_label(class),
        Action::Finish => "finish"@,
    }
}

impl Action {
    /// The action that `label` stands for, if any.
    pub fn parse(label: &str) -> (action: Option<Action>)
        ensures
            action == action_of_label(label@),
    {
        if str_eq(label, "cancel") {
            Some(Action::Cancel)
        } else if str_eq(label, "dismiss") {
            Some(Action::Dismiss)
        } else if str_eq(label, "start") {
            Some(Action::Start)
        } else if str_eq(label, "continue") {
            Some(Action::Continue)
        } else {
            match CharacterClass::parse(label) {
                Some(class) => Some(Action::Class(class)),
                None => if str_eq(label, "finish") {
                    Some(Action::Finish)
                } else {
                    None
                },
            }
        }
    }

    /// The label of this action.
    pub fn label(&self) -> (label: &'static str)
        ensures
            label@ == action_label(*self),
    {
        match self {
            Action::Start => "start",
            Action::Continue => "continue",
            Action::Cancel => "cancel",
            Action::Dismiss => "dismiss",
            Action::Class(class) => class.label(),
            Action::Finish => "finish",
        }
    }
}

// What is shown: controls, notices, forms and log lines, first as values of
// the model, then the functions that make them.

/// The control that asks for `action` on behalf of `user` at `stage`.
pub open spec fn control(
    action: Action,
    user: u64,
    stage: u8,
    style: ButtonStyle,
    caption: Seq<char>,
) -> ButtonView {
    ButtonView {
        custom_id: component_id_text(action_label(action), user, stage),
        style,
        label: caption,
    }
}

/// The control that cancels the build of `user` at `stage`.
pub open spec fn cancel_control(user: u64, stage: u8) -> ButtonView {
    control(Action::Cancel, user, stage, ButtonStyle::Secondary, "Cancel"@)
}

/// The control that removes a message of `user`.
pub open spec fn dismiss_control(user: u64, stage: u8, style: ButtonStyle) -> ButtonView {
    control(Action::Dismiss, user, stage, style, "Dismiss"@)
}

/// The controls under the prompt of `stage`.
pub open spec fn stage_controls(user: u64, stage: u8) -> Seq<ButtonView> {
    if stage == INTRO_STAGE {
        seq![
            control(Action::Start, user, stage, ButtonStyle::Primary, "Start!"@),
            cancel_control(user, stage),
        ]
    } else if stage <= LAST_COLLECTING_STAGE {
        seq![
            control(Action::Continue, user, stage, ButtonStyle::Primary, "Continue"@),
            cancel_control(user, stage),
        ]
    } else if stage == CLASS_STAGE {
        seq![
            control(
                Action::Class(CharacterClass::Martial),
                user,
                stage,
                ButtonStyle::Primary,
                "Martial"@,
            ),
            control(
                Action::Class(CharacterClass::HalfCaster),
                user,
                stage,
                ButtonStyle::Primary,
                "Half-Caster"@,
            ),
            control(
                Action::Class(CharacterClass::Caster),
                user,
                stage,
                ButtonStyle::Primary,
                "Caster"@,
            ),
            cancel_control(user, stage),
        ]
    } else if stage == CONFIRM_STAGE {
        seq![
            control(Action::Finish, user, stage, ButtonStyle::Success, "Finish"@),
            cancel_control(user, stage),
        ]
    } else {
        Seq::empty()
    }
}

/// The notice of `stage`: its prompt, with its controls.
pub open spec fn stage_notice(user: u64, stage: u8) -> NoticeView {
    NoticeView {
        title: prompt_title(stage),
        description: Some(prompt_description(stage)),
        footer: prompt_footer(stage),
        colour: ColourCode::Location,
        buttons: stage_controls(user, stage),
    }
}

/// The notice after a cancellation. It has no controls.
pub open spec fn cancelled_notice() -> NoticeView {
    NoticeView {
        title: "Character Creation Cancelled"@,
        description: None,
        footer: None,
        colour: ColourCode::Info,
        buttons: Seq::empty(),
    }
}

/// The notice for a user who starts a build while they have one.
pub open spec fn already_building_notice(user: u64) -> NoticeView {
    NoticeView {
        title: "You're already building a character"@,
        description: Some(
            "Building more than one character at a time is not currently supported. \n\
            If this becomes a common grievance, please open an issue on the bot's github repo"@,
        ),
        footer: None,
        colour: ColourCode::Error,
        buttons: seq![dismiss_control(user, INTRO_STAGE, ButtonStyle::Danger)],
    }
}

/// The description that quotes the text of an error.
pub open spec fn quoted_error(why: Seq<char>) -> Seq<char> {
    "Error: \n`"@ + why + "`"@
}

/// The notice for gathered values that make no character.
pub open spec fn invalid_notice(error: ValidationErrorView) -> NoticeView {
    NoticeView {
        title: "Failed to prepare character for database insert. This shouldn't happen in production, consider yourself \
                                lucky in your lack of luck"@,
        description: Some(quoted_error(validation_message(error))),
        footer: None,
        colour: ColourCode::Error,
        buttons: Seq::empty(),
    }
}

/// The notice for a character that storage has taken.
pub open spec fn stored_notice(user: u64, name: Seq<char>) -> NoticeView {
    NoticeView {
        title: name + " Has been successfully added to your characters!"@,
        description: Some("You may now use them!"@),
        footer: None,
        colour: ColourCode::Success,
        buttons: seq![dismiss_control(user, DONE_STAGE, ButtonStyle::Success)],
    }
}

/// The notice for a character that storage has refused, with the reason that
/// storage gave.
pub open spec fn storage_failed_notice(why: Seq<char>) -> NoticeView {
    NoticeView {
        title: "An error occured while inserting your character. Try again?"@,
        description: Some(quoted_error(why)),
        footer: None,
        colour: ColourCode::Error,
        buttons: Seq::empty(),
    }
}

/// `text` in the colour for values, for the terminal.
pub open spec fn highlighted(text: Seq<char>) -> Seq<char> {
    coloured(ColourCode::Info, text)
}

/// The log line for a label that stands for no action.
pub open spec fn unknown_label_log(label: Seq<char>) -> LogEntryView {
    LogEntryView {
        severity: ColourCode::Warning,
        message: coloured(ColourCode::Location, "character_create::handle_component"@)
            + ": Recieved unknown buttom label: "@ + highlighted(label),
    }
}

/// The log line for a character that storage has taken.
pub open spec fn stored_log(user: u64, tag: Seq<char>, name: Seq<char>) -> LogEntryView {
    LogEntryView {
        severity: ColourCode::Success,
        message: "`"@ + highlighted(tag + ":#"@ + decimal(user as nat))
            + "` Has inserted a new character `"@ + highlighted(name) + "`!"@,
    }
}

/// The log line for a character that storage has refused.
pub open spec fn storage_failed_log(why: Seq<char>) -> LogEntryView {
    LogEntryView {
        severity: ColourCode::Error,
        message: "Failed to insert a character to the database: `"@ + highlighted(why) + "`"@,
    }
}

/// The form of `stage`.
pub open spec fn stage_form(stage: u8) -> FormView {
    FormView {
        custom_id: modal_id_text(stage),
        title: "Character Building"@,
        fields: stage_fields(stage),
    }
}

/// Makes the control that asks for `action` on behalf of `user` at `stage`.
fn make_control(action: Action, user: u64, stage: u8, style: ButtonStyle, caption: &str) -> (button:
    Button)
    ensures
        button@ == control(action, user, stage, style, caption@),
{
    Button {
        custom_id: component_id(action.label(), user, stage),
        style,
        label: String::from_str(caption),
    }
}

/// Makes the controls under the prompt of `stage`.
fn make_stage_controls(user: u64, stage: u8) -> (buttons: Vec<Button>)
    ensures
        buttons@.map_values(|button: Button| button@) == stage_controls(user, stage),
{
    let mut buttons: Vec<Button> = Vec::new();
    if stage == INTRO_STAGE {
        buttons.push(make_control(Action::Start, user, stage, ButtonStyle::Primary, "Start!"));
        buttons.push(make_control(Action::Cancel, user, stage, ButtonStyle::Secondary, "Cancel"));
    } else if stage <= LAST_COLLECTING_STAGE {
        buttons.push(
            make_control(Action::Continue, user, stage, ButtonStyle::Primary, "Continue"),
        );
        buttons.push(make_control(Action::Cancel, user, stage, ButtonStyle::Secondary, "Cancel"));
    } else if stage == CLASS_STAGE {
        buttons.push(
            make_control(
                Action::Class(CharacterClass::Martial),
                user,
                stage,
                ButtonStyle::Primary,
                "Martial",
            ),
        );
        buttons.push(
            make_control(
                Action::Class(CharacterClass::HalfCaster),
                user,
                stage,
                ButtonStyle::Primary,
                "Half-Caster",
            ),
        );
        buttons.push(
            make_control(
                Action::Class(CharacterClass::Caster),
                user,
                stage,
                ButtonStyle::Primary,
                "Caster",
            ),
        );
        buttons.push(make_control(Action::Cancel, user, stage, ButtonStyle::Secondary, "Cancel"));
    } else if stage == CONFIRM_STAGE {
        buttons.push(make_control(Action::Finish, user, stage, ButtonStyle::Success, "Finish"));
        buttons.push(make_control(Action::Cancel, user, stage, ButtonStyle::Secondary, "Cancel"));
    }
    assert(buttons@.map_values(|button: Button| button@) =~= stage_controls(user, stage));
    buttons
}

/// Makes the notice of a stage that has a prompt.
pub fn render_stage(user: u64, stage: u8) -> (notice: Notice)
    requires
        has_prompt(stage),
    ensures
        notice@ == stage_notice(user, stage),
{
    let buttons = make_stage_controls(user, stage);
    match prompt_for(stage) {
        Ok(prompt) => Notice {
            title: prompt.title,
            description: Some(prompt.description),
            footer: prompt.footer,
            colour: ColourCode::Location,
            buttons,
        },
        Err(_) => unreached(),
    }
}

/// Makes the notice after a cancellation.
fn render_cancelled() -> (notice: Notice)
    ensures
        notice@ == cancelled_notice(),
{
    let notice = Notice {
        title: String::from_str("Character Creation Cancelled"),
        description: None,
        footer: None,
        colour: ColourCode::Info,
        buttons: Vec::new(),
    };
    assert(notice.buttons@.map_values(|button: Button| button@) =~= Seq::<ButtonView>::empty());
    notice
}

/// Makes the notice for a user who starts a build while they have one.
fn render_already_building(user: u64) -> (notice: Notice)
    ensures
        notice@ == already_building_notice(user),
{
    let mut buttons: Vec<Button> = Vec::new();
    buttons.push(make_control(Action::Dismiss, user, INTRO_STAGE, ButtonStyle::Danger, "Dismiss"));
    assert(buttons@.map_values(|button: Button| button@) =~= seq![
        dismiss_control(user, INTRO_STAGE, ButtonStyle::Danger),
    ]);
    Notice {
        title: String::from_str("You're already building a character"),
        description: Some(
            String::from_str(
                "Building more than one character at a time is not currently supported. \n\
            If this becomes a common grievance, please open an issue on the bot's github repo",
            ),
        ),
        footer: None,
        colour: ColourCode::Error,
        buttons,
    }
}

/// Makes the description that quotes the text of an error.
fn quote_error(why: &str) -> (text: String)
    ensures
        text@ == quoted_error(why@),
{
    let mut text = String::from_str("Error: \n`");
    text.append(why);
    text.append("`");
    text
}

/// Makes a notice of failure without controls.
fn render_failure(title: &str, why: &str) -> (notice: Notice)
    ensures
        notice@ == (NoticeView {
            title: title@,
            description: Some(quoted_error(why@)),
            footer: None,
            colour: ColourCode::Error,
            buttons: Seq::empty(),
        }),
{
    let notice = Notice {
        title: String::from_str(title),
        description: Some(quote_error(why)),
        footer: None,
        colour: ColourCode::Error,
        buttons: Vec::new(),
    };
    assert(notice.buttons@.map_values(|button: Button| button@) =~= Seq::<ButtonView>::empty());
    notice
}

/// Writes `text` in the colour for values at the end of `out`.
pub(crate) fn append_highlighted(out: &mut String, text: &str)
    ensures
        final(out)@ == old(out)@ + highlighted(text@),
{
    append_coloured(out, ColourCode::Info, text);
}

/// The step that answers the command: the introduction, as a new message.
/// No build exists yet, and none is made.
pub fn run(invoker_id: u64) -> (outcome: Outcome)
    ensures
        outcome@ == (OutcomeView {
            reply: ReplyView::Send(stage_notice(invoker_id, INTRO_STAGE)),
            state: Some(WizardState::Stage(INTRO_STAGE)),
            log: None,
        }),
{
    Outcome {
        reply: Reply::Send(render_stage(invoker_id, INTRO_STAGE)),
        state: Some(WizardState::Stage(INTRO_STAGE)),
        log: None,
    }
}

// The steps as a model: for each event, the store afterwards and the result.

/// The store and the result after one step.
pub struct StepView {
    pub sessions: Sessions,
    pub result: Result<OutcomeView, ContractViolation>,
}

/// A step that succeeds without a line for the log.
pub open spec fn quiet(sessions: Sessions, reply: ReplyView, state: Option<WizardState>) -> StepView {
    StepView { sessions, result: Ok(OutcomeView { reply, state, log: None }) }
}

/// A step that gives the event up and leaves the store as it was.
pub open spec fn violated(sessions: Sessions, violation: ContractViolation) -> StepView {
    StepView { sessions, result: Err(violation) }
}

/// The record of a build that has just begun under the message `anchor`.
pub open spec fn anchored_draft(anchor: Anchor) -> DraftView {
    DraftView { collected: fresh_draft().collected, anchor: Some(anchor) }
}

/// The values after the inputs of a form have been taken in, one after the
/// other. An input without a value changes nothing; of two inputs with one
/// key the later one stays.
pub open spec fn merged(
    collected: Map<Seq<char>, Seq<char>>,
    fields: Seq<FormFieldView>,
) -> Map<Seq<char>, Seq<char>>
    decreases fields.len(),
{
    if fields.len() == 0 {
        collected
    } else {
        let earlier = merged(collected, fields.drop_last());
        match fields.last().value {
            Some(value) => earlier.insert(fields.last().key, value),
            None => earlier,
        }
    }
}

/// The keys under which the inputs of a form bring a value.
pub open spec fn submitted_keys(fields: Seq<FormFieldView>) -> Set<Seq<char>> {
    Set::new(
        |key: Seq<char>|
            exists|i: int|
                0 <= i < fields.len() && (#[trigger] fields[i]).key == key && fields[i].value
                    is Some,
    )
}

/// The step for `start` and `continue` at `stage`. At the introduction the
/// build begins, under the message that holds the control, unless the user
/// has one already. At a collecting stage the form of the stage is asked
/// for, and nothing changes.
pub open spec fn advanced(sessions: Sessions, user: u64, message: Anchor, stage: u8) -> StepView {
    if stage == INTRO_STAGE {
        if sessions.contains_key(user) {
            quiet(sessions, ReplyView::Update(already_building_notice(user)), None)
        } else {
            quiet(
                sessions.insert(user, anchored_draft(message)),
                ReplyView::Update(stage_notice(user, 1)),
                Some(WizardState::Stage(1)),
            )
        }
    } else if has_fields(stage) {
        quiet(sessions, ReplyView::OpenForm(stage_form(stage)), None)
    } else {
        violated(sessions, ContractViolation::UnknownStage(stage))
    }
}

/// The step for the choice of `class` at `stage`.
pub open spec fn class_chosen(
    sessions: Sessions,
    user: u64,
    class: CharacterClass,
    stage: u8,
) -> StepView {
    if stage != CLASS_STAGE {
        violated(sessions, ContractViolation::UnknownStage(stage))
    } else if !sessions.contains_key(user) {
        violated(sessions, ContractViolation::MissingSession(user))
    } else {
        quiet(
            sessions.insert(
                user,
                DraftView {
                    collected: sessions[user].collected.insert("class"@, class_label(class)),
                    anchor: sessions[user].anchor,
                },
            ),
            ReplyView::Update(stage_notice(user, CONFIRM_STAGE)),
            Some(WizardState::Stage(CONFIRM_STAGE)),
        )
    }
}

/// The step for `finish` at `stage`. The build leaves the store whether or
/// not its values make a character.
pub open spec fn finished(sessions: Sessions, user: u64, stage: u8) -> StepView {
    if stage != CONFIRM_STAGE {
        violated(sessions, ContractViolation::UnknownStage(stage))
    } else if !sessions.contains_key(user) {
        violated(sessions, ContractViolation::MissingSession(user))
    } else {
        match entity_of(sessions[user].collected) {
            Ok(character) => quiet(
                after_removal(sessions, user),
                ReplyView::Persist { owner: user, character },
                None,
            ),
            Err(error) => quiet(
                after_removal(sessions, user),
                ReplyView::Update(invalid_notice(error)),
                Some(WizardState::PersistFailed),
            ),
        }
    }
}

/// The step for a click by `invoker` on a control of the message `message`.
///
/// A control of another user is acknowledged and nothing else. A label that
/// stands for no action is acknowledged, with a warning for the log.
pub open spec fn clicked(
    sessions: Sessions,
    invoker: u64,
    message: Anchor,
    id: ComponentIdView,
) -> StepView {
    if invoker != id.user_id {
        quiet(sessions, ReplyView::Acknowledge, None)
    } else {
        match action_of_label(id.label) {
            None => StepView {
                sessions,
                result: Ok(
                    OutcomeView {
                        reply: ReplyView::Acknowledge,
                        state: None,
                        log: Some(unknown_label_log(id.label)),
                    },
                ),
            },
            Some(Action::Cancel) => quiet(
                after_removal(sessions, invoker),
                ReplyView::Update(cancelled_notice()),
                Some(WizardState::Cancelled),
            ),
            Some(Action::Dismiss) => quiet(sessions, ReplyView::Delete(message), None),
            Some(Action::Start) => advanced(sessions, invoker, message, id.stage),
            Some(Action::Continue) => advanced(sessions, invoker, message, id.stage),
            Some(Action::Class(class)) => class_chosen(sessions, invoker, class, id.stage),
            Some(Action::Finish) => finished(sessions, invoker, id.stage),
        }
    }
}

/// The step for a form of `stage` that `user` has submitted.
pub open spec fn submitted(
    sessions: Sessions,
    user: u64,
    stage: u8,
    fields: Seq<FormFieldView>,
) -> StepView {
    if !has_fields(stage) {
        violated(sessions, ContractViolation::UnknownStage(stage))
    } else if !sessions.contains_key(user) {
        violated(sessions, ContractViolation::MissingSession(user))
    } else if sessions[user].anchor is None {
        violated(sessions, ContractViolation::MissingAnchor(user))
    } else {
        quiet(
            sessions.insert(
                user,
                DraftView {
                    collected: merged(sessions[user].collected, fields),
                    anchor: sessions[user].anchor,
                },
            ),
            ReplyView::EditAnchor {
                anchor: sessions[user].anchor.unwrap(),
                notice: stage_notice(user, (stage + 1) as u8),
            },
            Some(WizardState::Stage((stage + 1) as u8)),
        )
    }
}

/// The outcome of the report of what storage did with the character `name`
/// of `user`, whose tag is `tag`.
pub open spec fn reported(
    user: u64,
    tag: Seq<char>,
    name: Seq<char>,
    stored: Result<(), Seq<char>>,
) -> OutcomeView {
    match stored {
        Ok(()) => OutcomeView {
            reply: ReplyView::Update(stored_notice(user, name)),
            state: Some(WizardState::Persisted),
            log: Some(stored_log(user, tag, name)),
        },
        Err(why) => OutcomeView {
            reply: ReplyView::Update(storage_failed_notice(why)),
            state: Some(WizardState::PersistFailed),
            log: Some(storage_failed_log(why)),
        },
    }
}

// The steps as they run.

/// An outcome without a line for the log.
pub(crate) fn silent(reply: Reply, state: Option<WizardState>) -> (outcome: Outcome)
    ensures
        outcome@ == (OutcomeView { reply: reply@, state, log: None }),
{
    Outcome { reply, state, log: None }
}

/// Takes the inputs of a form into `collected`.
fn merge_fields(collected: &mut Collected, fields: &Vec<FormField>)
    ensures
        final(collected)@ == merged(old(collected)@, field_views(fields@)),
{
    let ghost inputs = field_views(fields@);
    let mut i: usize = 0;
    assert(inputs.take(0) =~= Seq::<FormFieldView>::empty());
    while i < fields.len()
        invariant
            i <= fields.len(),
            inputs == field_views(fields@),
            collected@ == merged(old(collected)@, inputs.take(i as int)),
        decreases fields.len() - i,
    {
        proof {
            assert(inputs.take(i + 1).drop_last() =~= inputs.take(i as int));
            assert(inputs.take(i + 1).last() == fields[i as int]@);
        }
        match &fields[i].value {
            Some(value) => {
                collected.insert(fields[i].key.clone(), value.clone());
            },
            None => {},
        }
        i += 1;
    }
    assert(inputs.take(fields.len() as int) =~= inputs);
}

/// Begins the build of `user` under `message`, or refuses.
fn start(store: &mut SessionStore, user: u64, message: Anchor) -> (outcome: Outcome)
    ensures
        (StepView { sessions: final(store)@, result: Ok(outcome@) }) == advanced(
            old(store)@,
            user,
            message,
            INTRO_STAGE,
        ),
{
    match store.begin(user) {
        Err(_) => silent(Reply::Update(render_already_building(user)), None),
        Ok(()) => {
            match store.get_mut(user) {
                Some(record) => {
                    record.anchor = Some(message);
                },
                None => unreached(),
            }
            assert(store@ =~= old(store)@.insert(user, anchored_draft(message)));
            silent(Reply::Update(render_stage(user, 1)), Some(WizardState::Stage(1)))
        },
    }
}

/// Asks for the form of a collecting stage.
fn open_form(stage: u8) -> (result: Result<Outcome, ContractViolation>)
    ensures
        match result {
            Ok(outcome) => has_fields(stage) && outcome@ == (OutcomeView {
                reply: ReplyView::OpenForm(stage_form(stage)),
                state: None,
                log: None,
            }),
            Err(violation) => !has_fields(stage) && violation == ContractViolation::UnknownStage(
                stage,
            ),
        },
{
    match fields_for(stage) {
        Ok(fields) => Ok(
            silent(
                Reply::OpenForm(
                    Form {
                        custom_id: modal_id(stage),
                        title: String::from_str("Character Building"),
                        fields,
                    },
                ),
                None,
            ),
        ),
        Err(_) => Err(ContractViolation::UnknownStage(stage)),
    }
}

/// The step for `start` and `continue`.
fn advance(store: &mut SessionStore, user: u64, message: Anchor, stage: u8) -> (result: Result<
    Outcome,
    ContractViolation,
>)
    ensures
        (StepView { sessions: final(store)@, result: result_view(result) }) == advanced(
            old(store)@,
            user,
            message,
            stage,
        ),
{
    if stage == INTRO_STAGE {
        Ok(start(store, user, message))
    } else {
        open_form(stage)
    }
}

/// Writes the chosen class into the build of `user`.
fn choose_class(store: &mut SessionStore, user: u64, class: CharacterClass, stage: u8) -> (result:
    Result<Outcome, ContractViolation>)
    ensures
        (StepView { sessions: final(store)@, result: result_view(result) }) == class_chosen(
            old(store)@,
            user,
            class,
            stage,
        ),
{
    if stage != CLASS_STAGE {
        return Err(ContractViolation::UnknownStage(stage));
    }
    match store.get_mut(user) {
        None => {
            return Err(ContractViolation::MissingSession(user));
        },
        Some(record) => {
            record.collected.insert(String::from_str("class"), String::from_str(class.label()));
        },
    }
    Ok(
        silent(
            Reply::Update(render_stage(user, CONFIRM_STAGE)),
            Some(WizardState::Stage(CONFIRM_STAGE)),
        ),
    )
}

/// Takes the build of `user` out of the store and makes its character.
fn finish(store: &mut SessionStore, user: u64, stage: u8) -> (result: Result<
    Outcome,
    ContractViolation,
>)
    ensures
        (StepView { sessions: final(store)@, result: result_view(result) }) == finished(
            old(store)@,
            user,
            stage,
        ),
{
    if stage != CONFIRM_STAGE {
        return Err(ContractViolation::UnknownStage(stage));
    }
    let record = match store.finish(user) {
        Some(record) => record,
        None => {
            return Err(ContractViolation::MissingSession(user));
        },
    };
    match build_entity(&record.collected) {
        Ok(character) => Ok(silent(Reply::Persist { owner: user, character }, None)),
        Err(error) => {
            let why = error.message();
            Ok(
                silent(
                    Reply::Update(
                        render_failure(
                            "Failed to prepare character for database insert. This shouldn't happen in production, consider yourself \
                                lucky in your lack of luck",
                            why.as_str(),
                        ),
                    ),
                    Some(WizardState::PersistFailed),
                ),
            )
        },
    }
}

/// The warning for a label that stands for no action.
fn warn_unknown_label(label: &str) -> (entry: LogEntry)
    ensures
        entry@ == unknown_label_log(label@),
{
    let mut message = String::new();
    append_coloured(&mut message, ColourCode::Location, "character_create::handle_component");
    message.append(": Recieved unknown buttom label: ");
    append_highlighted(&mut message, label);
    LogEntry { severity: ColourCode::Warning, message }
}

/// The step for a click by `invoker_id` on a control of the message
/// `message`, whose identifier has the fields `split_custom_id`.
///
/// An identifier that cannot be read is a violation, and so is a stage at
/// which the label cannot occur; neither changes the store. A control of
/// another user changes nothing and is acknowledged.
pub fn handle_component(
    store: &mut SessionStore,
    invoker_id: u64,
    message: Anchor,
    split_custom_id: Vec<&str>,
) -> (result: Result<Outcome, ContractViolation>)
    ensures
        match component_id_of(views(split_custom_id@)) {
            Err(fault) => final(store)@ == old(store)@ && result_view(result) == Err::<
                OutcomeView,
                ContractViolation,
            >(ContractViolation::Malformed(fault)),
            Ok(id) => (StepView { sessions: final(store)@, result: result_view(result) })
                == clicked(old(store)@, invoker_id, message, id),
        },
{
    let component_id = match ParsedComponentCustomId::from_vec(split_custom_id) {
        Ok(component_id) => component_id,
        Err(fault) => {
            return Err(ContractViolation::Malformed(fault));
        },
    };
    if invoker_id != component_id.user_id {
        return Ok(silent(Reply::Acknowledge, None));
    }
    match Action::parse(component_id.label) {
        None => Ok(
            Outcome {
                reply: Reply::Acknowledge,
                state: None,
                log: Some(warn_unknown_label(component_id.label)),
            },
        ),
        Some(Action::Cancel) => {
            store.cancel(invoker_id);
            Ok(silent(Reply::Update(render_cancelled()), Some(WizardState::Cancelled)))
        },
        Some(Action::Dismiss) => Ok(silent(Reply::Delete(message), None)),
        Some(Action::Start) => advance(store, invoker_id, message, component_id.stage),
        Some(Action::Continue) => advance(store, invoker_id, message, component_id.stage),
        Some(Action::Class(class)) => choose_class(store, invoker_id, class, component_id.stage),
        Some(Action::Finish) => finish(store, invoker_id, component_id.stage),
    }
}

/// The step for a form that `invoker_id` has submitted with the inputs
/// `fields`, whose identifier has the fields `split_custom_id`.
///
/// The inputs are taken into the build of `invoker_id`, and of nobody else;
/// the anchor message then shows the next stage. An identifier that cannot
/// be read, a stage without a form, a user without a build and a build
/// without an anchor are violations, and none of them changes the store.
pub fn handle_modal(
    store: &mut SessionStore,
    invoker_id: u64,
    fields: &Vec<FormField>,
    split_custom_id: Vec<&str>,
) -> (result: Result<Outcome, ContractViolation>)
    ensures
        match modal_id_of(views(split_custom_id@)) {
            Err(fault) => final(store)@ == old(store)@ && result_view(result) == Err::<
                OutcomeView,
                ContractViolation,
            >(ContractViolation::Malformed(fault)),
            Ok(id) => (StepView { sessions: final(store)@, result: result_view(result) })
                == submitted(old(store)@, invoker_id, id.stage, field_views(fields@)),
        },
{
    let modal_id = match ParsedModalCustomId::from_vec(split_custom_id) {
        Ok(modal_id) => modal_id,
        Err(fault) => {
            return Err(ContractViolation::Malformed(fault));
        },
    };
    let stage = modal_id.stage;
    if stage < 1 || stage > LAST_COLLECTING_STAGE {
        return Err(ContractViolation::UnknownStage(stage));
    }
    let anchor = match store.get(invoker_id) {
        None => {
            return Err(ContractViolation::MissingSession(invoker_id));
        },
        Some(record) => match record.anchor {
            None => {
                return Err(ContractViolation::MissingAnchor(invoker_id));
            },
            Some(anchor) => anchor,
        },
    };
    match store.get_mut(invoker_id) {
        Some(record) => {
            merge_fields(&mut record.collected, fields);
        },
        None => unreached(),
    }
    Ok(
        silent(
            Reply::EditAnchor { anchor, notice: render_stage(invoker_id, stage + 1) },
            Some(WizardState::Stage(stage + 1)),
        ),
    )
}

/// The step for the report of what storage did with the character
/// `character_name` of `owner`. `stored` is `Ok`, or the reason that storage
/// gave for its refusal. The build left the store when the character was
/// made, so the store is not looked at.
pub fn persisted(owner: u64, owner_tag: &str, character_name: &str, stored: Result<(), String>) -> (outcome:
    Outcome)
    ensures
        outcome@ == reported(
            owner,
            owner_tag@,
            character_name@,
            match stored {
                Ok(()) => Ok(()),
                Err(why) => Err(why@),
            },
        ),
{
    match stored {
        Ok(()) => {
            let mut title = String::from_str(character_name);
            title.append(" Has been successfully added to your characters!");
            let mut buttons: Vec<Button> = Vec::new();
            buttons.push(
                make_control(Action::Dismiss, owner, DONE_STAGE, ButtonStyle::Success, "Dismiss"),
            );
            assert(buttons@.map_values(|button: Button| button@) =~= seq![
                dismiss_control(owner, DONE_STAGE, ButtonStyle::Success),
            ]);
            let mut who = String::from_str(owner_tag);
            who.append(":#");
            append_decimal(&mut who, owner);
            let mut message = String::from_str("`");
            append_highlighted(&mut message, who.as_str());
            message.append("` Has inserted a new character `");
            append_highlighted(&mut message, character_name);
            message.append("`!");
            Outcome {
                reply: Reply::Update(
                    Notice {
                        title,
                        description: Some(String::from_str("You may now use them!")),
                        footer: None,
                        colour: ColourCode::Success,
                        buttons,
                    },
                ),
                state: Some(WizardState::Persisted),
                log: Some(LogEntry { severity: ColourCode::Success, message }),
            }
        },
        Err(why) => {
            let mut message = String::from_str("Failed to insert a character to the database: `");
            append_highlighted(&mut message, why.as_str());
            message.append("`");
            Outcome {
                reply: Reply::Update(
                    render_failure(
                        "An error occured while inserting your character. Try again?",
                        why.as_str(),
                    ),
                ),
                state: Some(WizardState::PersistFailed),
                log: Some(LogEntry { severity: ColourCode::Error, message }),
            }
        },
    }
}

// What holds of the steps.

/// Taking in the inputs of a form adds exactly the keys that bring a value,
/// and leaves the value under every other key as it was.
pub proof fn lemma_merged_keys(collected: Map<Seq<char>, Seq<char>>, fields: Seq<FormFieldView>)
    ensures
        merged(collected, fields).dom() == collected.dom().union(submitted_keys(fields)),
        forall|key: Seq<char>|
            collected.contains_key(key) && !submitted_keys(fields).contains(key) ==> #[trigger] merged(
                collected,
                fields,
            )[key] == collected[key],
    decreases fields.len(),
{
    if fields.len() == 0 {
        assert(merged(collected, fields).dom() =~= collected.dom().union(submitted_keys(fields)));
    } else {
        let front = fields.drop_last();
        let last = fields.last();
        lemma_merged_keys(collected, front);
        assert forall|key: Seq<char>| submitted_keys(front).contains(key) implies submitted_keys(
            fields,
        ).contains(key) by {
            let i = choose|i: int|
                0 <= i < front.len() && (#[trigger] front[i]).key == key && front[i].value is Some;
            assert(fields[i] == front[i]);
        }
        assert forall|key: Seq<char>| submitted_keys(fields).contains(key) implies submitted_keys(
            front,
        ).contains(key) || (key == last.key && last.value is Some) by {
            let i = choose|i: int|
                0 <= i < fields.len() && (#[trigger] fields[i]).key == key && fields[i].value
                    is Some;
            if i < front.len() {
                assert(front[i] == fields[i]);
            }
        }
        if last.value is Some {
            assert(fields[fields.len() - 1] == last);
            assert(submitted_keys(fields).contains(last.key));
        }
        assert(merged(collected, fields).dom() =~= collected.dom().union(submitted_keys(fields)));
    }
}

/// Of all inputs that bring a value under one key, the last one stays.
pub proof fn lemma_merged_value(
    collected: Map<Seq<char>, Seq<char>>,
    fields: Seq<FormFieldView>,
    index: int,
)
    requires
        0 <= index < fields.len(),
        fields[index].value is Some,
        forall|later: int|
            index < later < fields.len() ==> (#[trigger] fields[later]).key != fields[index].key,
    ensures
        merged(collected, fields).contains_key(fields[index].key),
        merged(collected, fields)[fields[index].key] == fields[index].value.unwrap(),
    decreases fields.len(),
{
    let front = fields.drop_last();
    if index < fields.len() - 1 {
        assert(front[index] == fields[index]);
        assert forall|later: int| index < later < front.len() implies (#[trigger] front[later]).key
            != front[index].key by {
            assert(front[later] == fields[later]);
        }
        lemma_merged_value(collected, front, index);
        assert(fields[fields.len() - 1].key != fields[index].key);
    }
}

/// A form that brings a value for each field of its stage leaves those
/// values under the keys of the stage, adds no other key, and leaves what
/// earlier stages gathered as it was.
pub proof fn lemma_form_round_trip(
    collected: Map<Seq<char>, Seq<char>>,
    stage: u8,
    fields: Seq<FormFieldView>,
)
    requires
        has_fields(stage),
        fields.len() == stage_keys(stage).len(),
        forall|i: int|
            0 <= i < fields.len() ==> (#[trigger] fields[i]).key == stage_keys(stage)[i]
                && fields[i].value is Some,
    ensures
        merged(collected, fields).dom() == collected.dom().union(stage_keys(stage).to_set()),
        forall|i: int|
            0 <= i < fields.len() ==> merged(collected, fields)[#[trigger] stage_keys(stage)[i]]
                == fields[i].value.unwrap(),
        forall|key: Seq<char>|
            collected.contains_key(key) && !stage_keys(stage).contains(key) ==> #[trigger] merged(
                collected,
                fields,
            )[key] == collected[key],
{
    lemma_merged_keys(collected, fields);
    let keys = stage_keys(stage);
    assert(submitted_keys(fields) =~= keys.to_set()) by {
        assert forall|key: Seq<char>| submitted_keys(fields).contains(key) implies keys.to_set().contains(
            key,
        ) by {
            let i = choose|i: int|
                0 <= i < fields.len() && (#[trigger] fields[i]).key == key && fields[i].value
                    is Some;
            assert(keys[i] == key);
        }
        assert forall|key: Seq<char>| keys.to_set().contains(key) implies submitted_keys(
            fields,
        ).contains(key) by {
            let i = choose|i: int| 0 <= i < keys.len() && keys[i] == key;
            assert(fields[i].key == key);
        }
    }
    assert forall|i: int| 0 <= i < fields.len() implies merged(collected, fields)[#[trigger] keys[i]]
        == fields[i].value.unwrap() by {
        assert forall|later: int| i < later < fields.len() implies (#[trigger] fields[later]).key
            != fields[i].key by {
            lemma_stage_keys_distinct(stage, i, later);
        }
        lemma_merged_value(collected, fields, i);
    }
    assert forall|key: Seq<char>|
        collected.contains_key(key) && !keys.contains(key) implies #[trigger] merged(
        collected,
        fields,
    )[key] == collected[key] by {
        assert(!keys.to_set().contains(key));
    }
}

/// A click on a control of another user changes no build and shows nothing:
/// it is acknowledged, whatever the label and the stage.
pub proof fn lemma_foreign_click_is_ignored(
    sessions: Sessions,
    invoker: u64,
    message: Anchor,
    id: ComponentIdView,
)
    requires
        invoker != id.user_id,
    ensures
        clicked(sessions, invoker, message, id) == quiet(sessions, ReplyView::Acknowledge, None),
{
}

/// A click changes no build but that of the user who clicks.
pub proof fn lemma_click_keeps_other_builds(
    sessions: Sessions,
    invoker: u64,
    message: Anchor,
    id: ComponentIdView,
    other: u64,
)
    requires
        other != invoker,
    ensures
        clicked(sessions, invoker, message, id).sessions.contains_key(other)
            == sessions.contains_key(other),
        clicked(sessions, invoker, message, id).sessions[other] == sessions[other],
{
}

/// A form changes no build but that of the user who submits it.
pub proof fn lemma_form_keeps_other_builds(
    sessions: Sessions,
    user: u64,
    stage: u8,
    fields: Seq<FormFieldView>,
    other: u64,
)
    requires
        other != user,
    ensures
        submitted(sessions, user, stage, fields).sessions.contains_key(other)
            == sessions.contains_key(other),
        submitted(sessions, user, stage, fields).sessions[other] == sessions[other],
{
}

/// A step that gives the event up leaves every build as it was.
pub proof fn lemma_violation_changes_nothing(
    sessions: Sessions,
    invoker: u64,
    message: Anchor,
    id: ComponentIdView,
    stage: u8,
    fields: Seq<FormFieldView>,
)
    ensures
        clicked(sessions, invoker, message, id).result is Err ==> clicked(
            sessions,
            invoker,
            message,
            id,
        ).sessions == sessions,
        submitted(sessions, invoker, stage, fields).result is Err ==> submitted(
            sessions,
            invoker,
            stage,
            fields,
        ).sessions == sessions,
{
}

/// Cancelling always works: whatever the stage and whether or not a build
/// exists, the build is gone afterwards, the notice has no controls left, and
/// the user may begin again at once.
pub proof fn lemma_cancel_always_tears_down(
    sessions: Sessions,
    invoker: u64,
    message: Anchor,
    id: ComponentIdView,
)
    requires
        invoker == id.user_id,
        action_of_label(id.label) == Some(Action::Cancel),
    ensures
        !clicked(sessions, invoker, message, id).sessions.contains_key(invoker),
        clicked(sessions, invoker, message, id).result == Ok::<OutcomeView, ContractViolation>(
            OutcomeView {
                reply: ReplyView::Update(cancelled_notice()),
                state: Some(WizardState::Cancelled),
                log: None,
            },
        ),
        cancelled_notice().buttons.len() == 0,
        advanced(
            clicked(sessions, invoker, message, id).sessions,
            invoker,
            message,
            INTRO_STAGE,
        ).result == Ok::<OutcomeView, ContractViolation>(
            OutcomeView {
                reply: ReplyView::Update(stage_notice(invoker, 1)),
                state: Some(WizardState::Stage(1)),
                log: None,
            },
        ),
{
}

/// After `finish` at the confirmation stage the build is gone, whether its
/// values made a character or not.
pub proof fn lemma_finish_always_ends_build(sessions: Sessions, user: u64)
    requires
        sessions.contains_key(user),
    ensures
        !finished(sessions, user, CONFIRM_STAGE).sessions.contains_key(user),
        finished(sessions, user, CONFIRM_STAGE).result is Ok,
{
}

/// Whether `collected` holds a value under every key of every form.
pub open spec fn all_forms_taken_in(collected: Map<Seq<char>, Seq<char>>) -> bool {
    forall|stage: u8, i: int|
        has_fields(stage) && 0 <= i < stage_keys(stage).len() ==> collected.contains_key(
            #[trigger] stage_keys(stage)[i],
        )
}

/// A build that has taken in every form and a class is complete: it makes
/// the character with exactly the gathered values, and `finish` hands that
/// character to storage.
pub proof fn lemma_finished_build_makes_character(
    sessions: Sessions,
    user: u64,
    class: CharacterClass,
)
    requires
        sessions.contains_key(user),
        all_forms_taken_in(sessions[user].collected),
        sessions[user].collected.contains_key("class"@),
        sessions[user].collected["class"@] == class_label(class),
    ensures
        finished(sessions, user, CONFIRM_STAGE) == quiet(
            after_removal(sessions, user),
            ReplyView::Persist {
                owner: user,
                character: character_of(sessions[user].collected, class),
            },
            None,
        ),
{
    let collected = sessions[user].collected;
    lemma_catalogue_covers_required_keys();
    lemma_class_label_round_trip(class);
    assert(is_complete(collected)) by {
        assert forall|k: int| 0 <= k < required_keys().len() implies collected.contains_key(
            #[trigger] required_keys()[k],
        ) by {
            if required_keys()[k] != "class"@ {
                let (stage, i) = choose|stage: u8, i: int|
                    has_fields(stage) && 0 <= i < stage_keys(stage).len() && #[trigger] stage_keys(
                        stage,
                    )[i] == required_keys()[k];
                assert(collected.contains_key(stage_keys(stage)[i]));
            }
        }
    }
    lemma_valid_values_make_character(collected, class);
}

/// The label of an action is read back as that action, and holds no
/// separator.
pub proof fn lemma_action_label_round_trip(action: Action)
    ensures
        action_of_label(action_label(action)) == Some(action),
        free_of(action_label(action), SEPARATOR),
{
    reveal_strlit("cancel");
    reveal_strlit("dismiss");
    reveal_strlit("start");
    reveal_strlit("continue");
    reveal_strlit("finish");
    reveal_strlit("martial");
    reveal_strlit("half-caster");
    reveal_strlit("caster");
    let label = action_label(action);
    assert(label.len() > 3);
    if label == "cancel"@ {
        assert(label[2] == 'n');
    }
    if label == "caster"@ {
        assert(label[2] == 's');
    }
    if label == "finish"@ {
        assert(label[0] == 'f');
    }
    if label == "start"@ {
        assert(label[0] == 's');
    }
    if label == "martial"@ {
        assert(label[0] == 'm');
    }
    if label == "dismiss"@ {
        assert(label[0] == 'd');
    }
}

/// Every control under the prompt of a stage names the user and the stage it
/// was made for, and a label that stands for an action: what the wizard
/// shows, the wizard understands.
pub proof fn lemma_controls_are_understood(user: u64, stage: u8, index: int)
    requires
        0 <= index < stage_controls(user, stage).len(),
    ensures
        component_id_of(split(stage_controls(user, stage)[index].custom_id, SEPARATOR)) matches Ok(
            id,
        ) && id.command == "character"@ && id.sub_command == "create"@ && id.user_id == user
            && id.stage == stage && action_of_label(id.label) is Some,
{
    let shown = stage_controls(user, stage)[index];
    let action = choose|action: Action|
        shown.custom_id == component_id_text(action_label(action), user, stage);
    assert(exists|action: Action|
        shown.custom_id == component_id_text(#[trigger] action_label(action), user, stage)) by {
        if stage == INTRO_STAGE {
            if index == 0 {
                assert(shown.custom_id == component_id_text(
                    action_label(Action::Start),
                    user,
                    stage,
                ));
            } else {
                assert(shown.custom_id == component_id_text(
                    action_label(Action::Cancel),
                    user,
                    stage,
                ));
            }
        } else if stage <= LAST_COLLECTING_STAGE {
            if index == 0 {
                assert(shown.custom_id == component_id_text(
                    action_label(Action::Continue),
                    user,
                    stage,
                ));
            } else {
                assert(shown.custom_id == component_id_text(
                    action_label(Action::Cancel),
                    user,
                    stage,
                ));
            }
        } else if stage == CLASS_STAGE {
            if index == 0 {
                assert(shown.custom_id == component_id_text(
                    action_label(Action::Class(CharacterClass::Martial)),
                    user,
                    stage,
                ));
            } else if index == 1 {
                assert(shown.custom_id == component_id_text(
                    action_label(Action::Class(CharacterClass::HalfCaster)),
                    user,
                    stage,
                ));
            } else if index == 2 {
                assert(shown.custom_id == component_id_text(
                    action_label(Action::Class(CharacterClass::Caster)),
                    user,
                    stage,
                ));
            } else {
                assert(shown.custom_id == component_id_text(
                    action_label(Action::Cancel),
                    user,
                    stage,
                ));
            }
        } else {
            if index == 0 {
                assert(shown.custom_id == component_id_text(
                    action_label(Action::Finish),
                    user,
                    stage,
                ));
            } else {
                assert(shown.custom_id == component_id_text(
                    action_label(Action::Cancel),
                    user,
                    stage,
                ));
            }
        }
    }
    lemma_action_label_round_trip(action);
    lemma_component_id_round_trip(action_label(action), user, stage);
}

} // verus!
