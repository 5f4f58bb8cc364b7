use magician::colour_codes::ColourCode;

#[test]
fn embed_colours_pack_red_green_blue() {
    assert_eq!(ColourCode::Error.to_embed_colour(), 0xFF0000);
    assert_eq!(ColourCode::Warning.to_embed_colour(), 0x808000);
    assert_eq!(ColourCode::Location.to_embed_colour(), 0xFF00FF);
}

#[test]
fn terminal_sequences_follow_the_palette() {
    assert_eq!(ColourCode::Reset.fg_str(), "\x1B[39m");
    assert_eq!(ColourCode::Info.fg_str(), "\x1B[38;5;14m");
    assert_eq!(ColourCode::Field.fg_str(), "\x1B[38;5;12m");
    assert_eq!(ColourCode::Error.fg_str(), "\x1B[38;5;9m");
    assert_eq!(ColourCode::Warning.fg_str(), "\x1B[38;5;3m");
    assert_eq!(ColourCode::Caution.fg_str(), "\x1B[38;5;11m");
    assert_eq!(ColourCode::Success.fg_str(), "\x1B[38;5;10m");
    assert_eq!(ColourCode::Location.fg_str(), "\x1B[38;5;5m");
}

#[test]
fn colours_are_written_as_their_sequence() {
    assert_eq!(ColourCode::Error.to_text(), "\x1B[38;5;9m");
    assert_eq!(ColourCode::Reset.to_text(), "\x1B[39m");
    for code in [
        ColourCode::Reset,
        ColourCode::Info,
        ColourCode::Field,
        ColourCode::Error,
        ColourCode::Warning,
        ColourCode::Caution,
        ColourCode::Success,
        ColourCode::Location,
    ] {
        assert_eq!(code.to_text(), code.fg_str());
    }
}

#[test]
fn every_embed_colour_has_its_number() {
    assert_eq!(ColourCode::Reset.to_embed_colour(), 0x000000);
    assert_eq!(ColourCode::Info.to_embed_colour(), 0x00FFFF);
    assert_eq!(ColourCode::Field.to_embed_colour(), 0x0000FF);
    assert_eq!(ColourCode::Error.to_embed_colour(), 0xFF0000);
    assert_eq!(ColourCode::Warning.to_embed_colour(), 0x808000);
    assert_eq!(ColourCode::Caution.to_embed_colour(), 0xFFFF00);
    assert_eq!(ColourCode::Success.to_embed_colour(), 0x00FF00);
    assert_eq!(ColourCode::Location.to_embed_colour(), 0xFF00FF);
}

#[test]
fn text_is_coloured_and_reset() {
    let mut out = String::from("x");
    magician::colour_codes::append_coloured(&mut out, ColourCode::Field, "path");
    assert_eq!(out, "x\x1B[38;5;12mpath\x1B[39m");
}
