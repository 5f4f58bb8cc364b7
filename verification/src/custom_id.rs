//! The identifiers carried by controls and forms.
//!
//! A control carries `command|sub_command|label|owner|stage`, a form
//! `command|sub_command|stage`. Both are read in one place, here, and written
//! in one place, here.

use crate::text::{
    append_decimal, decimal, free_of, join, lemma_decimal_free_of, lemma_decimal_round_trip,
    lemma_split_append, lemma_split_single, numeral_value, parse_numeral, split, split_fields,
    views,
};
use vstd::prelude::*;
use vstd::string::*;

verus! {

/// The character between the fields of an identifier.
pub const SEPARATOR: char = '|';

/// What is wrong with an identifier, by the first fault met when its fields
/// are read from left to right.
#[derive(Clone, Copy, Debug, PartialEq, Eq, Structural)]
pub enum MalformedIdentifier {
    MissingCommand,
    MissingSubCommand,
    MissingLabel,
    MissingUserId,
    UnreadableUserId,
    MissingStage,
    UnreadableStage,
}

/// The text that reports `fault`.
pub open spec fn fault_text(fault: MalformedIdentifier) -> Seq<char> {
    match fault {
        MalformedIdentifier::MissingCommand => "`command` field missing"@,
        MalformedIdentifier::MissingSubCommand => "`sub_command` field missing"@,
        MalformedIdentifier::MissingLabel => "`label` field missing"@,
        MalformedIdentifier::MissingUserId => "`user_id` field missing"@,
        MalformedIdentifier::UnreadableUserId => "`couldn't parse `user_id`"@,
        MalformedIdentifier::MissingStage => "`stage` field missing"@,
        MalformedIdentifier::UnreadableStage => "couldn't parse `stage`"@,
    }
}

impl MalformedIdentifier {
    /// The text that reports this fault.
    pub fn message(&self) -> (text: &'static str)
        ensures
            text@ == fault_text(*self),
    {
        match self {
            MalformedIdentifier::MissingCommand => "`command` field missing",
            MalformedIdentifier::MissingSubCommand => "`sub_command` field missing",
            MalformedIdentifier::MissingLabel => "`label` field missing",
            MalformedIdentifier::MissingUserId => "`user_id` field missing",
            MalformedIdentifier::UnreadableUserId => "`couldn't parse `user_id`",
            MalformedIdentifier::MissingStage => "`stage` field missing",
            MalformedIdentifier::UnreadableStage => "couldn't parse `stage`",
        }
    }
}

/// The identifier of a control, read.
#[derive(Debug, PartialEq, Eq)]
pub struct ParsedComponentCustomId<'a> {
    pub command: &'a str,
    pub sub_command: &'a str,
    pub label: &'a str,
    pub user_id: u64,
    pub stage: u8,
}

/// What the identifier of a control holds.
pub struct ComponentIdView {
    pub command: Seq<char>,
    pub sub_command: Seq<char>,
    pub label: Seq<char>,
    pub user_id: u64,
    pub stage: u8,
}

impl<'a> View for ParsedComponentCustomId<'a> {
    type V = ComponentIdView;

    open spec fn view(&self) -> ComponentIdView {
        ComponentIdView {
            command: self.command@,
            sub_command: self.sub_command@,
            label: self.label@,
            user_id: self.user_id,
            stage: self.stage,
        }
    }
}

/// The identifier of a form, read.
#[derive(Debug, PartialEq, Eq)]
pub struct ParsedModalCustomId<'a> {
    pub command: &'a str,
    pub sub_command: &'a str,
    pub stage: u8,
}

/// What the identifier of a form holds.
pub struct ModalIdView {
    pub command: Seq<char>,
    pub sub_command: Seq<char>,
    pub stage: u8,
}

impl<'a> View for ParsedModalCustomId<'a> {
    type V = ModalIdView;

    open spec fn view(&self) -> ModalIdView {
        ModalIdView { command: self.command@, sub_command: self.sub_command@, stage: self.stage }
    }
}

/// The control identifier that `fields` make: the first five fields are
/// command, sub-command, label, owner and stage; further fields are not
/// looked at.
pub open spec fn component_id_of(fields: Seq<Seq<char>>) -> Result<
    ComponentIdView,
    MalformedIdentifier,
> {
    if fields.len() < 1 {
        Err(MalformedIdentifier::MissingCommand)
    } else if fields.len() < 2 {
        Err(MalformedIdentifier::MissingSubCommand)
    } else if fields.len() < 3 {
        Err(MalformedIdentifier::MissingLabel)
    } else if fields.len() < 4 {
        Err(MalformedIdentifier::MissingUserId)
    } else if numeral_value(fields[3], u64::MAX as nat) is None {
        Err(MalformedIdentifier::UnreadableUserId)
    } else if fields.len() < 5 {
        Err(MalformedIdentifier::MissingStage)
    } else if numeral_value(fields[4], u8::MAX as nat) is None {
        Err(MalformedIdentifier::UnreadableStage)
    } else {
        Ok(
            ComponentIdView {
                command: fields[0],
                sub_command: fields[1],
                label: fields[2],
                user_id: numeral_value(fields[3], u64::MAX as nat).unwrap() as u64,
                stage: numeral_value(fields[4], u8::MAX as nat).unwrap() as u8,
            },
        )
    }
}

/// The form identifier that `fields` make: the first three fields are
/// command, sub-command and stage.
pub open spec fn modal_id_of(fields: Seq<Seq<char>>) -> Result<ModalIdView, MalformedIdentifier> {
    if fields.len() < 1 {
        Err(MalformedIdentifier::MissingCommand)
    } else if fields.len() < 2 {
        Err(MalformedIdentifier::MissingSubCommand)
    } else if fields.len() < 3 {
        Err(MalformedIdentifier::MissingStage)
    } else if numeral_value(fields[2], u8::MAX as nat) is None {
        Err(MalformedIdentifier::UnreadableStage)
    } else {
        Ok(
            ModalIdView {
                command: fields[0],
                sub_command: fields[1],
                stage: numeral_value(fields[2], u8::MAX as nat).unwrap() as u8,
            },
        )
    }
}

/// The text of the identifier of a control of the wizard.
pub open spec fn component_id_text(label: Seq<char>, user_id: u64, stage: u8) -> Seq<char> {
    join(
        seq![
            "character"@,
            "create"@,
            label,
            decimal(user_id as nat),
            decimal(stage as nat),
        ],
        SEPARATOR,
    )
}

/// The text of the identifier of a form of the wizard.
pub open spec fn modal_id_text(stage: u8) -> Seq<char> {
    join(seq!["character"@, "create"@, decimal(stage as nat)], SEPARATOR)
}

impl<'a> ParsedComponentCustomId<'a> {
    /// Reads the identifier of a control from its fields.
    pub fn from_vec(split_custom_id: Vec<&'a str>) -> (parsed: Result<
        ParsedComponentCustomId<'a>,
        MalformedIdentifier,
    >)
        ensures
            match parsed {
                Ok(id) => component_id_of(views(split_custom_id@)) == Ok::<
                    ComponentIdView,
                    MalformedIdentifier,
                >(id@),
                Err(fault) => component_id_of(views(split_custom_id@)) == Err::<
                    ComponentIdView,
                    MalformedIdentifier,
                >(fault),
            },
    {
        let count = split_custom_id.len();
        if count < 1 {
            return Err(MalformedIdentifier::MissingCommand);
        }
        if count < 2 {
            return Err(MalformedIdentifier::MissingSubCommand);
        }
        if count < 3 {
            return Err(MalformedIdentifier::MissingLabel);
        }
        if count < 4 {
            return Err(MalformedIdentifier::MissingUserId);
        }
        let user_id = match parse_numeral(split_custom_id[3], u64::MAX) {
            Some(user_id) => user_id,
            None => {
                return Err(MalformedIdentifier::UnreadableUserId);
            },
        };
        if count < 5 {
            return Err(MalformedIdentifier::MissingStage);
        }
        let stage = match parse_numeral(split_custom_id[4], 255) {
            Some(stage) => stage as u8,
            None => {
                return Err(MalformedIdentifier::UnreadableStage);
            },
        };
        Ok(
            ParsedComponentCustomId {
                command: split_custom_id[0],
                sub_command: split_custom_id[1],
                label: split_custom_id[2],
                user_id,
                stage,
            },
        )
    }

    /// Reads the identifier of a control from its text.
    pub fn parse(encoded: &'a str) -> (parsed: Result<
        ParsedComponentCustomId<'a>,
        MalformedIdentifier,
    >)
        ensures
            match parsed {
                Ok(id) => component_id_of(split(encoded@, SEPARATOR)) == Ok::<
                    ComponentIdView,
                    MalformedIdentifier,
                >(id@),
                Err(fault) => component_id_of(split(encoded@, SEPARATOR)) == Err::<
                    ComponentIdView,
                    MalformedIdentifier,
                >(fault),
            },
    {
        ParsedComponentCustomId::from_vec(split_fields(encoded, SEPARATOR))
    }
}

impl<'a> ParsedModalCustomId<'a> {
    /// Reads the identifier of a form from its fields.
    pub fn from_vec(split_custom_id: Vec<&'a str>) -> (parsed: Result<
        ParsedModalCustomId<'a>,
        MalformedIdentifier,
    >)
        ensures
            match parsed {
                Ok(id) => modal_id_of(views(split_custom_id@)) == Ok::<
                    ModalIdView,
                    MalformedIdentifier,
                >(id@),
                Err(fault) => modal_id_of(views(split_custom_id@)) == Err::<
                    ModalIdView,
                    MalformedIdentifier,
                >(fault),
            },
    {
        let count = split_custom_id.len();
        if count < 1 {
            return Err(MalformedIdentifier::MissingCommand);
        }
        if count < 2 {
            return Err(MalformedIdentifier::MissingSubCommand);
        }
        if count < 3 {
            return Err(MalformedIdentifier::MissingStage);
        }
        let stage = match parse_numeral(split_custom_id[2], 255) {
            Some(stage) => stage as u8,
            None => {
                return Err(MalformedIdentifier::UnreadableStage);
            },
        };
        Ok(
            ParsedModalCustomId {
                command: split_custom_id[0],
                sub_command: split_custom_id[1],
                stage,
            },
        )
    }

    /// Reads the identifier of a form from its text.
    pub fn parse(encoded: &'a str) -> (parsed: Result<ParsedModalCustomId<'a>, MalformedIdentifier>)
        ensures
            match parsed {
                Ok(id) => modal_id_of(split(encoded@, SEPARATOR)) == Ok::<
                    ModalIdView,
                    MalformedIdentifier,
                >(id@),
                Err(fault) => modal_id_of(split(encoded@, SEPARATOR)) == Err::<
                    ModalIdView,
                    MalformedIdentifier,
                >(fault),
            },
    {
        ParsedModalCustomId::from_vec(split_fields(encoded, SEPARATOR))
    }
}

/// Writes the identifier of a control of the wizard.
pub fn component_id(label: &str, user_id: u64, stage: u8) -> (id: String)
    ensures
        id@ == component_id_text(label@, user_id, stage),
{
    let mut id = String::from_str("character");
    id.append("|");
    id.append("create");
    id.append("|");
    id.append(label);
    id.append("|");
    append_decimal(&mut id, user_id);
    id.append("|");
    append_decimal(&mut id, stage as u64);
    proof {
        reveal_strlit("|");
        reveal_with_fuel(join, 5);
        let fields = seq![
            "character"@,
            "create"@,
            label@,
            decimal(user_id as nat),
            decimal(stage as nat),
        ];
        assert(fields.drop_last() =~= seq![
            "character"@,
            "create"@,
            label@,
            decimal(user_id as nat),
        ]);
        assert(fields.drop_last().drop_last() =~= seq!["character"@, "create"@, label@]);
        assert(fields.drop_last().drop_last().drop_last() =~= seq!["character"@, "create"@]);
        assert(fields.drop_last().drop_last().drop_last().drop_last() =~= seq!["character"@]);
        assert(id@ =~= join(fields, SEPARATOR));
    }
    id
}

/// Writes the identifier of a form of the wizard.
pub fn modal_id(stage: u8) -> (id: String)
    ensures
        id@ == modal_id_text(stage),
{
    let mut id = String::from_str("character");
    id.append("|");
    id.append("create");
    id.append("|");
    append_decimal(&mut id, stage as u64);
    proof {
        reveal_strlit("|");
        reveal_with_fuel(join, 3);
        let fields = seq!["character"@, "create"@, decimal(stage as nat)];
        assert(fields.drop_last() =~= seq!["character"@, "create"@]);
        assert(fields.drop_last().drop_last() =~= seq!["character"@]);
        assert(id@ =~= join(fields, SEPARATOR));
    }
    id
}

/// Neither name of the wizard holds the separator.
proof fn lemma_names_free_of_separator()
    ensures
        free_of("character"@, SEPARATOR),
        free_of("create"@, SEPARATOR),
{
    reveal_strlit("character");
    reveal_strlit("create");
}

/// Every control that the wizard writes is read back as the label, owner and
/// stage it was written for, as long as the label holds no separator.
pub proof fn lemma_component_id_round_trip(label: Seq<char>, user_id: u64, stage: u8)
    requires
        free_of(label, SEPARATOR),
    ensures
        component_id_of(split(component_id_text(label, user_id, stage), SEPARATOR)) == Ok::<
            ComponentIdView,
            MalformedIdentifier,
        >(
            ComponentIdView {
                command: "character"@,
                sub_command: "create"@,
                label,
                user_id,
                stage,
            },
        ),
{
    let sep = SEPARATOR;
    let owner = decimal(user_id as nat);
    let step = decimal(stage as nat);
    lemma_names_free_of_separator();
    lemma_decimal_free_of(user_id as nat, sep);
    lemma_decimal_free_of(stage as nat, sep);
    lemma_decimal_round_trip(user_id as nat, u64::MAX as nat);
    lemma_decimal_round_trip(stage as nat, u8::MAX as nat);
    let f1 = seq!["character"@];
    let f2 = seq!["character"@, "create"@];
    let f3 = seq!["character"@, "create"@, label];
    let f4 = seq!["character"@, "create"@, label, owner];
    let f5 = seq!["character"@, "create"@, label, owner, step];
    assert(f5.drop_last() =~= f4);
    assert(f4.drop_last() =~= f3);
    assert(f3.drop_last() =~= f2);
    assert(f2.drop_last() =~= f1);
    reveal_with_fuel(join, 2);
    lemma_split_single("character"@, sep);
    assert(join(f1, sep) == "character"@);
    lemma_split_append(join(f1, sep), "create"@, sep);
    assert(split(join(f2, sep), sep) =~= f2);
    lemma_split_append(join(f2, sep), label, sep);
    assert(split(join(f3, sep), sep) =~= f3);
    lemma_split_append(join(f3, sep), owner, sep);
    assert(split(join(f4, sep), sep) =~= f4);
    lemma_split_append(join(f4, sep), step, sep);
    assert(split(join(f5, sep), sep) =~= f5);
}

/// Every form that the wizard writes is read back as the stage it was
/// written for.
pub proof fn lemma_modal_id_round_trip(stage: u8)
    ensures
        modal_id_of(split(modal_id_text(stage), SEPARATOR)) == Ok::<
            ModalIdView,
            MalformedIdentifier,
        >(ModalIdView { command: "character"@, sub_command: "create"@, stage }),
{
    let sep = SEPARATOR;
    let step = decimal(stage as nat);
    lemma_names_free_of_separator();
    lemma_decimal_free_of(stage as nat, sep);
    lemma_decimal_round_trip(stage as nat, u8::MAX as nat);
    let f1 = seq!["character"@];
    let f2 = seq!["character"@, "create"@];
    let f3 = seq!["character"@, "create"@, step];
    assert(f3.drop_last() =~= f2);
    assert(f2.drop_last() =~= f1);
    reveal_with_fuel(join, 2);
    lemma_split_single("character"@, sep);
    assert(join(f1, sep) == "character"@);
    lemma_split_append(join(f1, sep), "create"@, sep);
    assert(split(join(f2, sep), sep) =~= f2);
    lemma_split_append(join(f2, sep), step, sep);
    assert(split(join(f3, sep), sep) =~= f3);
}

} // verus!
