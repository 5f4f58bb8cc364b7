//! What the wizard shows and asks for, as plain values: notices with their
//! controls, forms, and lines for the log. Whoever talks to the chat
//! platform turns these into the platform's own requests.

use crate::catalog::{FieldSpec, FieldSpecView};
use crate::colour_codes::ColourCode;
use vstd::prelude::*;

verus! {

/// How a control looks.
#[derive(Clone, Copy, Debug, PartialEq, Eq, Structural)]
pub enum ButtonStyle {
    Primary,
    Secondary,
    Success,
    Danger,
}

/// A control under a notice.
#[derive(Clone, Debug, PartialEq, Eq)]
pub struct Button {
    pub custom_id: String,
    pub style: ButtonStyle,
    pub label: String,
}

/// What a control holds.
pub struct ButtonView {
    pub custom_id: Seq<char>,
    pub style: ButtonStyle,
    pub label: Seq<char>,
}

impl View for Button {
    type V = ButtonView;

    open spec fn view(&self) -> ButtonView {
        ButtonView { custom_id: self.custom_id@, style: self.style, label: self.label@ }
    }
}

/// The text of an optional string.
pub open spec fn optional_text(text: Option<String>) -> Option<Seq<char>> {
    match text {
        Some(text) => Some(text@),
        None => None,
    }
}

/// The content of a message: a coloured panel of text with a row of controls,
/// possibly empty, under it.
#[derive(Clone, Debug, PartialEq, Eq)]
pub struct Notice {
    pub title: String,
    pub description: Option<String>,
    pub footer: Option<String>,
    pub colour: ColourCode,
    pub buttons: Vec<Button>,
}

/// What a notice holds.
pub struct NoticeView {
    pub title: Seq<char>,
    pub description: Option<Seq<char>>,
    pub footer: Option<Seq<char>>,
    pub colour: ColourCode,
    pub buttons: Seq<ButtonView>,
}

impl View for Notice {
    type V = NoticeView;

    open spec fn view(&self) -> NoticeView {
        NoticeView {
            title: self.title@,
            description: optional_text(self.description),
            footer: optional_text(self.footer),
            colour: self.colour,
            buttons: self.buttons@.map_values(|button: Button| button@),
        }
    }
}

/// A request for field values: one required text input per field.
#[derive(Clone, Debug, PartialEq, Eq)]
pub struct Form {
    pub custom_id: String,
    pub title: String,
    pub fields: Vec<FieldSpec>,
}

/// What a form holds.
pub struct FormView {
    pub custom_id: Seq<char>,
    pub title: Seq<char>,
    pub fields: Seq<FieldSpecView>,
}

impl View for Form {
    type V = FormView;

    open spec fn view(&self) -> FormView {
        FormView {
            custom_id: self.custom_id@,
            title: self.title@,
            fields: self.fields@.map_values(|field: FieldSpec| field@),
        }
    }
}

/// One input of a submitted form. An input that came back without a value
/// has `None`.
#[derive(Clone, Debug, PartialEq, Eq)]
pub struct FormField {
    pub key: String,
    pub value: Option<String>,
}

/// What a submitted input holds.
pub struct FormFieldView {
    pub key: Seq<char>,
    pub value: Option<Seq<char>>,
}

impl View for FormField {
    type V = FormFieldView;

    open spec fn view(&self) -> FormFieldView {
        FormFieldView { key: self.key@, value: optional_text(self.value) }
    }
}

/// The views of submitted inputs, in order.
pub open spec fn field_views(fields: Seq<FormField>) -> Seq<FormFieldView> {
    fields.map_values(|field: FormField| field@)
}

/// A line for the log, with the severity under which it is written.
#[derive(Clone, Debug, PartialEq, Eq)]
pub struct LogEntry {
    pub severity: ColourCode,
    pub message: String,
}

/// What a log line holds.
pub struct LogEntryView {
    pub severity: ColourCode,
    pub message: Seq<char>,
}

impl View for LogEntry {
    type V = LogEntryView;

    open spec fn view(&self) -> LogEntryView {
        LogEntryView { severity: self.severity, message: self.message@ }
    }
}

/// The view of an optional log line.
pub open spec fn optional_log(log: Option<LogEntry>) -> Option<LogEntryView> {
    match log {
        Some(entry) => Some(entry@),
        None => None,
    }
}

} // verus!
