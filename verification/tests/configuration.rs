use magician::config::{
    load_config, reinterpret, validate_config, BotConfig, ConfigError, ConfigValue,
};
use magician::startup::TEMPLATE;

#[test]
fn a_complete_document_gives_the_configuration() {
    assert_eq!(
        load_config("bot_token = \"abc.def\"\nwakeup_channel_id = 1234567890123\n"),
        Ok(BotConfig { bot_token: "abc.def".to_string(), wakeup_channel_id: 1234567890123 })
    );
}

#[test]
fn further_entries_do_not_matter() {
    assert_eq!(
        load_config(
            "colour = true\nwakeup_channel_id = 7\nbot_token = 'x'\n[database]\nfile = \"realm.db\"\n"
        ),
        Ok(BotConfig { bot_token: "x".to_string(), wakeup_channel_id: 7 })
    );
}

#[test]
fn the_channel_keeps_its_bits() {
    assert_eq!(
        load_config("bot_token = \"t\"\nwakeup_channel_id = -1\n"),
        Ok(BotConfig { bot_token: "t".to_string(), wakeup_channel_id: u64::MAX })
    );
    assert_eq!(
        load_config("bot_token = \"t\"\nwakeup_channel_id = 9223372036854775807\n"),
        Ok(BotConfig { bot_token: "t".to_string(), wakeup_channel_id: 9223372036854775807 })
    );
}

#[test]
fn missing_fields_are_named() {
    assert_eq!(
        load_config(""),
        Err(ConfigError::Incomplete(vec!["bot_token".to_string(), "wakeup_channel_id".to_string()]))
    );
    assert_eq!(
        load_config("bot_token = \"t\"\n"),
        Err(ConfigError::Incomplete(vec!["wakeup_channel_id".to_string()]))
    );
    assert_eq!(
        load_config("wakeup_channel_id = 3\n"),
        Err(ConfigError::Incomplete(vec!["bot_token".to_string()]))
    );
}

#[test]
fn fields_of_the_wrong_kind_are_named() {
    assert_eq!(
        load_config("bot_token = 5\nwakeup_channel_id = \"3\"\n"),
        Err(ConfigError::Incomplete(vec!["bot_token".to_string(), "wakeup_channel_id".to_string()]))
    );
    assert_eq!(
        load_config("bot_token = \"t\"\nwakeup_channel_id = 3.5\n"),
        Err(ConfigError::Incomplete(vec!["wakeup_channel_id".to_string()]))
    );
    assert_eq!(
        load_config("bot_token = [\"t\"]\nwakeup_channel_id = 3\n"),
        Err(ConfigError::Incomplete(vec!["bot_token".to_string()]))
    );
}

#[test]
fn a_text_that_is_no_document_is_malformed() {
    for text in ["bot_token = ", "bot_token \"t\"", "= 3", "bot_token = \"a\"\nbot_token = \"b\"\n", "[[["] {
        match load_config(text) {
            Err(ConfigError::Malformed(why)) => assert!(!why.is_empty(), "{text:?}"),
            other => panic!("{text:?}: {other:?}"),
        }
    }
}

#[test]
fn the_template_has_every_field() {
    assert_eq!(load_config(TEMPLATE), Ok(BotConfig { bot_token: String::new(), wakeup_channel_id: 0 }));
}

#[test]
fn entries_are_validated_by_their_first_occurrence() {
    let entries = vec![
        ("wakeup_channel_id".to_string(), ConfigValue::Integer(9)),
        ("bot_token".to_string(), ConfigValue::Text("first".to_string())),
        ("bot_token".to_string(), ConfigValue::Integer(2)),
    ];
    assert_eq!(
        validate_config(&entries),
        Ok(BotConfig { bot_token: "first".to_string(), wakeup_channel_id: 9 })
    );
    let entries = vec![
        ("bot_token".to_string(), ConfigValue::Boolean(true)),
        ("bot_token".to_string(), ConfigValue::Text("second".to_string())),
        ("wakeup_channel_id".to_string(), ConfigValue::Integer(9)),
    ];
    assert_eq!(
        validate_config(&entries),
        Err(ConfigError::Incomplete(vec!["bot_token".to_string()]))
    );
    assert_eq!(
        validate_config(&vec![]),
        Err(ConfigError::Incomplete(vec!["bot_token".to_string(), "wakeup_channel_id".to_string()]))
    );
    for other in [ConfigValue::Float, ConfigValue::Datetime, ConfigValue::Array, ConfigValue::Table] {
        let entries = vec![
            ("bot_token".to_string(), ConfigValue::Text("t".to_string())),
            ("wakeup_channel_id".to_string(), other),
        ];
        assert_eq!(
            validate_config(&entries),
            Err(ConfigError::Incomplete(vec!["wakeup_channel_id".to_string()]))
        );
    }
}

#[test]
fn signed_numbers_are_read_as_unsigned() {
    assert_eq!(reinterpret(0), 0);
    assert_eq!(reinterpret(5), 5);
    assert_eq!(reinterpret(i64::MAX), 9223372036854775807);
    assert_eq!(reinterpret(-1), u64::MAX);
    assert_eq!(reinterpret(i64::MIN), 9223372036854775808);
    for number in [i64::MIN, -77, -1, 0, 1, 77, i64::MAX] {
        assert_eq!(reinterpret(number), number as u64);
    }
}

#[test]
fn configuration_errors_have_their_messages() {
    assert_eq!(
        ConfigError::Malformed("expected `=`".to_string()).message(),
        "\x1B[38;5;9mError\x1B[39m: Failed to parse configuration data. Is the config file malformed?: \n\x1B[38;5;14mexpected `=`\x1B[39m"
    );
    assert_eq!(
        ConfigError::Incomplete(vec!["bot_token".to_string()]).message(),
        "\x1B[38;5;9mError\x1B[39m: Config file is either missing fields, or they are incorrect. Offending fields: `\x1B[38;5;14mbot_token\x1B[39m`"
    );
    assert_eq!(
        ConfigError::Incomplete(vec!["bot_token".to_string(), "wakeup_channel_id".to_string()]).message(),
        "\x1B[38;5;9mError\x1B[39m: Config file is either missing fields, or they are incorrect. Offending fields: `\x1B[38;5;14mbot_token\x1B[39m, \x1B[38;5;14mwakeup_channel_id\x1B[39m`"
    );
}
