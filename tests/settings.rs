use highlights::render::markdown::{NoteStyle, QuoteStyle, RenderSettings};

#[test]
fn disable_split_lines() {
    let mut render_settings = RenderSettings::default();

    render_settings.disable_split_lines();

    assert!(!render_settings.split_lines_enabled());
}

#[test]
fn enable_split_lines() {
    let mut render_settings = RenderSettings::default();

    render_settings.enable_split_lines();

    assert!(render_settings.split_lines_enabled());
}

#[test]
fn settings_defaults() {
    let settings = RenderSettings::new();
    assert!(settings.split_lines_enabled());
    assert_eq!(settings.get_quote_style(), QuoteStyle::BlockQuote);
    assert_eq!(settings.get_note_style(), NoteStyle::Plain);
}

#[test]
fn settings_last_write_wins() {
    let settings = RenderSettings::new()
        .quote_style(QuoteStyle::Italic)
        .disable_split_lines()
        .quote_style(QuoteStyle::Bold)
        .note_style(NoteStyle::NestedQuote)
        .build();
    assert!(!settings.split_lines_enabled());
    assert_eq!(settings.get_quote_style(), QuoteStyle::Bold);
    assert_eq!(settings.get_note_style(), NoteStyle::NestedQuote);
}
