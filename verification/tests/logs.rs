use magician::colour_codes::ColourCode;
use magician::logging::{create_log_message, format_log_message, log_entry_line};
use magician::ui::LogEntry;

#[test]
fn a_log_line_has_time_severity_and_message() {
    assert_eq!(
        format_log_message("2024-05-01 | 13:37:00", "Bot Online!", ColourCode::Info),
        "[ 2024-05-01 | 13:37:00 ]  => \x1B[38;5;14m    Info\x1B[39m: Bot Online!"
    );
    assert_eq!(
        format_log_message("t", "", ColourCode::Location),
        "[ t ]  => \x1B[38;5;5mLocation\x1B[39m: "
    );
}

#[test]
fn severities_are_padded_to_eight_characters() {
    let expected = [
        (ColourCode::Reset, "\x1B[39m   Reset\x1B[39m"),
        (ColourCode::Info, "\x1B[38;5;14m    Info\x1B[39m"),
        (ColourCode::Field, "\x1B[38;5;12m   Field\x1B[39m"),
        (ColourCode::Error, "\x1B[38;5;9m   Error\x1B[39m"),
        (ColourCode::Warning, "\x1B[38;5;3m Warning\x1B[39m"),
        (ColourCode::Caution, "\x1B[38;5;11m Caution\x1B[39m"),
        (ColourCode::Success, "\x1B[38;5;10m Success\x1B[39m"),
        (ColourCode::Location, "\x1B[38;5;5mLocation\x1B[39m"),
    ];
    for (severity, name) in expected {
        assert_eq!(format_log_message("now", "m", severity), format!("[ now ]  => {name}: m"));
    }
}

fn is_timestamp(text: &str) -> bool {
    let shape = "dddd-dd-dd | dd:dd:dd";
    text.len() == shape.len()
        && text.chars().zip(shape.chars()).all(|(found, wanted)| {
            if wanted == 'd' {
                found.is_ascii_digit()
            } else {
                found == wanted
            }
        })
}

#[test]
fn a_log_line_is_stamped_with_the_time() {
    let line = create_log_message("something happened", ColourCode::Caution);
    let rest = line.strip_prefix("[ ").unwrap();
    let (timestamp, rest) = rest.split_once(" ]  => ").unwrap();
    assert!(is_timestamp(timestamp), "{timestamp:?}");
    assert_eq!(rest, "\x1B[38;5;11m Caution\x1B[39m: something happened");
    assert_eq!(line, format_log_message(timestamp, "something happened", ColourCode::Caution));
}

#[test]
fn a_log_entry_is_written_under_its_severity() {
    let entry = LogEntry { severity: ColourCode::Error, message: "storage is gone".to_string() };
    let line = log_entry_line(&entry);
    let (head, tail) = line.split_once(" ]  => ").unwrap();
    assert!(is_timestamp(head.strip_prefix("[ ").unwrap()));
    assert_eq!(tail, "\x1B[38;5;9m   Error\x1B[39m: storage is gone");
}
