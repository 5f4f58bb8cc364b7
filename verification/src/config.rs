//! The configuration of the bot, read from the text of a TOML document.

use crate::colour_codes::{ansi_sequence, append_coloured, coloured, ColourCode};
use crate::startup::error_prefix;
use crate::text::str_eq;
use vstd::prelude::*;
use vstd::string::*;

verus! {

/// A value at the top of a configuration document. Only texts and whole
/// numbers are looked into; of every other value only its kind is kept.
#[derive(Clone, Debug, PartialEq, Eq)]
pub enum ConfigValue {
    Text(String),
    Integer(i64),
    Float,
    Boolean(bool),
    Datetime,
    Array,
    Table,
}

/// What a configuration value holds.
pub enum ConfigValueView {
    Text(Seq<char>),
    Integer(i64),
    Float,
    Boolean(bool),
    Datetime,
    Array,
    Table,
}

impl View for ConfigValue {
    type V = ConfigValueView;

    open spec fn view(&self) -> ConfigValueView {
        match self {
            ConfigValue::Text(text) => ConfigValueView::Text(text@),
            ConfigValue::Integer(number) => ConfigValueView::Integer(*number),
            ConfigValue::Float => ConfigValueView::Float,
            ConfigValue::Boolean(flag) => ConfigValueView::Boolean(*flag),
            ConfigValue::Datetime => ConfigValueView::Datetime,
            ConfigValue::Array => ConfigValueView::Array,
            ConfigValue::Table => ConfigValueView::Table,
        }
    }
}

/// The keys and values of a document, in order.
pub open spec fn entry_views(entries: Seq<(String, ConfigValue)>) -> Seq<
    (Seq<char>, ConfigValueView),
> {
    entries.map_values(|entry: (String, ConfigValue)| (entry.0@, entry.1@))
}

/// The error with which `toml` refuses a text.
#[verifier::external_type_specification]
#[verifier::external_body]
pub struct ExTomlError(toml::de::Error);

/// The top-level keys and values that `toml` reads from `text`, in the order
/// in which its table hands them out; `None` where `text` is no TOML
/// document.
pub uninterp spec fn toml_entries(text: Seq<char>) -> Option<Seq<(Seq<char>, ConfigValueView)>>;

/// `str::parse::<toml::Table>`, that is `toml::from_str`, followed by the
/// table's `into_iter`: the document's top-level entries with each value
/// turned into a [`ConfigValue`] of the same kind, or the error of `toml`.
#[verifier::external_body]
fn parse_document(text: &str) -> (parsed: Result<Vec<(String, ConfigValue)>, toml::de::Error>)
    ensures
        match parsed {
            Ok(entries) => toml_entries(text@) == Some(entry_views(entries@)),
            Err(_) => toml_entries(text@) is None,
        },
{
    let table = text.parse::<toml::Table>()?;
    Ok(table.into_iter().map(|(key, value)| (key, match value {
        toml::Value::String(text) => ConfigValue::Text(text),
        toml::Value::Integer(number) => ConfigValue::Integer(number),
        toml::Value::Float(_) => ConfigValue::Float,
        toml::Value::Boolean(flag) => ConfigValue::Boolean(flag),
        toml::Value::Datetime(_) => ConfigValue::Datetime,
        toml::Value::Array(_) => ConfigValue::Array,
        toml::Value::Table(_) => ConfigValue::Table,
    })).collect())
}

/// The `Display` text of an error of `toml`. Nothing is said of it.
#[verifier::external_body]
fn error_text(error: &toml::de::Error) -> (text: String) {
    error.to_string()
}

/// What the bot needs to know to run.
#[derive(Clone, Debug, PartialEq, Eq)]
pub struct BotConfig {
    pub bot_token: String,
    pub wakeup_channel_id: u64,
}

/// What a configuration holds.
pub struct BotConfigView {
    pub bot_token: Seq<char>,
    pub wakeup_channel_id: u64,
}

impl View for BotConfig {
    type V = BotConfigView;

    open spec fn view(&self) -> BotConfigView {
        BotConfigView { bot_token: self.bot_token@, wakeup_channel_id: self.wakeup_channel_id }
    }
}

/// Why a text gives no configuration.
#[derive(Clone, Debug, PartialEq, Eq)]
pub enum ConfigError {
    /// The text is no TOML document; with the reason that the parser gave.
    Malformed(String),
    /// These fields are missing or hold a value of the wrong kind.
    Incomplete(Vec<String>),
}

/// What a configuration error holds.
pub enum ConfigErrorView {
    Malformed(Seq<char>),
    Incomplete(Seq<Seq<char>>),
}

impl View for ConfigError {
    type V = ConfigErrorView;

    open spec fn view(&self) -> ConfigErrorView {
        match self {
            ConfigError::Malformed(why) => ConfigErrorView::Malformed(why@),
            ConfigError::Incomplete(fields) => ConfigErrorView::Incomplete(
                fields@.map_values(|field: String| field@),
            ),
        }
    }
}

/// The value of the first entry with the key `key`, if there is one.
pub open spec fn first_value(entries: Seq<(Seq<char>, ConfigValueView)>, key: Seq<char>) -> Option<
    ConfigValueView,
>
    decreases entries.len(),
{
    if entries.len() == 0 {
        None
    } else if entries[0].0 == key {
        Some(entries[0].1)
    } else {
        first_value(entries.drop_first(), key)
    }
}

/// The token of the bot: the value of `bot_token`, where it is a text.
pub open spec fn configured_token(entries: Seq<(Seq<char>, ConfigValueView)>) -> Option<Seq<char>> {
    match first_value(entries, "bot_token"@) {
        Some(ConfigValueView::Text(token)) => Some(token),
        _ => None,
    }
}

/// The channel for the wake-up message: the value of `wakeup_channel_id`,
/// where it is a whole number.
pub open spec fn configured_channel(entries: Seq<(Seq<char>, ConfigValueView)>) -> Option<i64> {
    match first_value(entries, "wakeup_channel_id"@) {
        Some(ConfigValueView::Integer(channel)) => Some(channel),
        _ => None,
    }
}

/// A signed number read as the unsigned number with the same 64 bits.
pub open spec fn as_unsigned(number: i64) -> int {
    if number >= 0 {
        number as int
    } else {
        number + 0x1_0000_0000_0000_0000
    }
}

/// The required fields that `entries` lack or hold with the wrong kind of
/// value, token first.
pub open spec fn offending_fields(entries: Seq<(Seq<char>, ConfigValueView)>) -> Seq<Seq<char>> {
    (if configured_token(entries) is None {
        seq!["bot_token"@]
    } else {
        Seq::<Seq<char>>::empty()
    }) + (if configured_channel(entries) is None {
        seq!["wakeup_channel_id"@]
    } else {
        Seq::<Seq<char>>::empty()
    })
}

/// The configuration that `entries` give, or the fields that offend.
pub open spec fn validated(entries: Seq<(Seq<char>, ConfigValueView)>) -> Result<
    BotConfigView,
    ConfigErrorView,
> {
    if offending_fields(entries).len() > 0 {
        Err(ConfigErrorView::Incomplete(offending_fields(entries)))
    } else {
        Ok(
            BotConfigView {
                bot_token: configured_token(entries).unwrap(),
                wakeup_channel_id: as_unsigned(configured_channel(entries).unwrap()) as u64,
            },
        )
    }
}

/// The offending fields as a message lists them: each in the colour for
/// values, with a comma between neighbours.
pub open spec fn offending_list(fields: Seq<Seq<char>>) -> Seq<char>
    decreases fields.len(),
{
    if fields.len() == 0 {
        Seq::<char>::empty()
    } else if fields.len() == 1 {
        fields[0]
    } else {
        offending_list(fields.drop_last()) + ansi_sequence(ColourCode::Reset) + ", "@
            + ansi_sequence(ColourCode::Info) + fields.last()
    }
}

/// The message for a configuration error.
pub open spec fn config_message(error: ConfigErrorView) -> Seq<char> {
    match error {
        ConfigErrorView::Malformed(why) => error_prefix()
            + "Failed to parse configuration data. Is the config file malformed?: \n"@ + coloured(
            ColourCode::Info,
            why,
        ),
        ConfigErrorView::Incomplete(fields) => error_prefix()
            + "Config file is either missing fields, or they are incorrect. Offending fields: `"@
            + coloured(ColourCode::Info, offending_list(fields)) + "`"@,
    }
}

/// The first entry with the key `key` is found by going through the entries
/// from the front.
proof fn lemma_first_value(entries: Seq<(Seq<char>, ConfigValueView)>, key: Seq<char>, at: int)
    requires
        0 <= at <= entries.len(),
        forall|j: int| 0 <= j < at ==> (#[trigger] entries[j]).0 != key,
    ensures
        at < entries.len() && entries[at].0 == key ==> first_value(entries, key) == Some(
            entries[at].1,
        ),
        at == entries.len() ==> first_value(entries, key) is None,
    decreases entries.len(),
{
    if entries.len() > 0 && at > 0 {
        let rest = entries.drop_first();
        assert(entries[0].0 != key);
        assert forall|j: int| 0 <= j < at - 1 implies (#[trigger] rest[j]).0 != key by {
            assert(rest[j] == entries[j + 1]);
        }
        lemma_first_value(rest, key, at - 1);
        if at < entries.len() {
            assert(rest[at - 1] == entries[at]);
        }
    }
}

/// The value of the first entry with the key `key`.
fn find_value<'a>(entries: &'a Vec<(String, ConfigValue)>, key: &str) -> (found: Option<
    &'a ConfigValue,
>)
    ensures
        match found {
            Some(value) => first_value(entry_views(entries@), key@) == Some(value@),
            None => first_value(entry_views(entries@), key@) is None,
        },
{
    let ghost views = entry_views(entries@);
    let mut i: usize = 0;
    while i < entries.len()
        invariant
            i <= entries.len(),
            views == entry_views(entries@),
            forall|j: int| 0 <= j < i ==> (#[trigger] views[j]).0 != key@,
        decreases entries.len() - i,
    {
        if str_eq(entries[i].0.as_str(), key) {
            proof {
                assert(views[i as int] == (entries[i as int].0@, entries[i as int].1@));
                lemma_first_value(views, key@, i as int);
            }
            return Some(&entries[i].1);
        }
        assert(views[i as int].0 == entries[i as int].0@);
        i += 1;
    }
    proof {
        lemma_first_value(views, key@, entries.len() as int);
    }
    None
}

/// The unsigned number with the same 64 bits as `number`.
pub fn reinterpret(number: i64) -> (unsigned: u64)
    ensures
        unsigned == as_unsigned(number),
{
    if number >= 0 {
        number as u64
    } else {
        let lifted = (number + i64::MAX + 1) as u64;
        lifted + 0x8000_0000_0000_0000u64
    }
}

/// The configuration that the entries of a document give.
///
/// `bot_token` has to hold a text and `wakeup_channel_id` a whole number;
/// where one of them does not, the error names every field that offends.
pub fn validate_config(entries: &Vec<(String, ConfigValue)>) -> (config: Result<
    BotConfig,
    ConfigError,
>)
    ensures
        match config {
            Ok(found) => validated(entry_views(entries@)) == Ok::<BotConfigView, ConfigErrorView>(
                found@,
            ),
            Err(error) => validated(entry_views(entries@)) == Err::<BotConfigView, ConfigErrorView>(
                error@,
            ),
        },
{
    let token = match find_value(entries, "bot_token") {
        Some(ConfigValue::Text(token)) => Some(token.clone()),
        _ => None,
    };
    let channel = match find_value(entries, "wakeup_channel_id") {
        Some(ConfigValue::Integer(channel)) => Some(*channel),
        _ => None,
    };
    match (token, channel) {
        (Some(bot_token), Some(channel)) => {
            assert(offending_fields(entry_views(entries@)) =~= Seq::<Seq<char>>::empty());
            Ok(BotConfig { bot_token, wakeup_channel_id: reinterpret(channel) })
        },
        (token, channel) => {
            let mut missing_fields: Vec<String> = Vec::new();
            if token.is_none() {
                missing_fields.push(String::from_str("bot_token"));
            }
            if channel.is_none() {
                missing_fields.push(String::from_str("wakeup_channel_id"));
            }
            assert(missing_fields@.map_values(|field: String| field@) =~= offending_fields(
                entry_views(entries@),
            ));
            Err(ConfigError::Incomplete(missing_fields))
        },
    }
}

/// The configuration that the text of a document gives.
///
/// A text that is no TOML document gives `Malformed`, with the reason of the
/// parser. For a document the result is that of [`validate_config`] on its
/// entries.
pub fn load_config(text: &str) -> (config: Result<BotConfig, ConfigError>)
    ensures
        match toml_entries(text@) {
            None => config matches Err(ConfigError::Malformed(_)),
            Some(entries) => match config {
                Ok(found) => validated(entries) == Ok::<BotConfigView, ConfigErrorView>(found@),
                Err(error) => validated(entries) == Err::<BotConfigView, ConfigErrorView>(error@),
            },
        },
{
    match parse_document(text) {
        Err(error) => Err(ConfigError::Malformed(error_text(&error))),
        Ok(entries) => validate_config(&entries),
    }
}

impl ConfigError {
    /// The message for this error.
    pub fn message(&self) -> (text: String)
        ensures
            text@ == config_message(self@),
    {
        let mut text = String::new();
        append_coloured(&mut text, ColourCode::Error, "Error");
        text.append(": ");
        match self {
            ConfigError::Malformed(why) => {
                text.append(
                    "Failed to parse configuration data. Is the config file malformed?: \n",
                );
                append_coloured(&mut text, ColourCode::Info, why.as_str());
                assert(text@ =~= config_message(self@));
                text
            },
            ConfigError::Incomplete(fields) => {
                text.append(
                    "Config file is either missing fields, or they are incorrect. Offending fields: `",
                );
                let ghost names = fields@.map_values(|field: String| field@);
                let mut list = String::new();
                let mut i: usize = 0;
                proof {
                    assert(names.take(0) =~= Seq::<Seq<char>>::empty());
                }
                while i < fields.len()
                    invariant
                        i <= fields.len(),
                        names == fields@.map_values(|field: String| field@),
                        list@ == offending_list(names.take(i as int)),
                    decreases fields.len() - i,
                {
                    proof {
                        assert(names.take(i + 1).drop_last() =~= names.take(i as int));
                        assert(names.take(i + 1).last() == fields[i as int]@);
                        assert(names.take(i + 1)[0] == fields[0]@);
                    }
                    if i > 0 {
                        list.append(ColourCode::Reset.fg_str());
                        list.append(", ");
                        list.append(ColourCode::Info.fg_str());
                    }
                    list.append(fields[i].as_str());
                    proof {
                        assert(list@ =~= offending_list(names.take(i + 1)));
                    }
                    i += 1;
                }
                proof {
                    assert(names.take(fields.len() as int) =~= names);
                }
                append_coloured(&mut text, ColourCode::Info, list.as_str());
                text.append("`");
                assert(text@ =~= config_message(self@));
                text
            },
        }
    }
}

} // verus!
