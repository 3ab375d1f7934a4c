use partal_gallery_api::logging::{
    color_enabled, colored_pair, colorize_span_fields, is_white_space_char, level_color,
    level_prefix, padded_level, span_fields_suffix, timestamp_prefix, LogLevel, Severity,
};

#[test]
fn maps_loglevel_to_tracing_level() {
    assert_eq!(tracing::Level::from(LogLevel::Debug), tracing::Level::DEBUG);
    assert_eq!(tracing::Level::from(LogLevel::Info), tracing::Level::INFO);
    assert_eq!(tracing::Level::from(LogLevel::Warn), tracing::Level::WARN);
    assert_eq!(tracing::Level::from(LogLevel::Error), tracing::Level::ERROR);
}

#[test]
fn no_color_wins_then_force_color_then_flag() {
    assert!(!color_enabled(true, true, false));
    assert!(!color_enabled(true, false, false));
    assert!(color_enabled(false, true, true));
    assert!(color_enabled(false, false, false));
    assert!(!color_enabled(false, false, true));
}

#[test]
fn level_prefix_pads_and_colours() {
    assert_eq!(level_prefix(Severity::Info, false), " INFO ");
    assert_eq!(level_prefix(Severity::Warn, false), " WARN ");
    assert_eq!(level_prefix(Severity::Error, false), "ERROR ");
    assert_eq!(level_prefix(Severity::Debug, false), "DEBUG ");
    assert_eq!(level_prefix(Severity::Trace, false), "TRACE ");
    assert_eq!(level_prefix(Severity::Error, true), "\x1b[31mERROR\x1b[0m ");
    assert_eq!(level_prefix(Severity::Info, true), "\x1b[32m INFO\x1b[0m ");
    assert_eq!(level_prefix(Severity::Trace, true), "\x1b[0mTRACE\x1b[0m ");
    assert_eq!(level_color(Severity::Warn), "\x1b[33m");
    assert_eq!(level_color(Severity::Debug), "\x1b[36m");
}

#[test]
fn timestamp_prefix_colours_when_asked() {
    assert_eq!(timestamp_prefix("2026-01-02T03:04:05.06Z", false), "2026-01-02T03:04:05.06Z ");
    assert_eq!(
        timestamp_prefix("2026-01-02T03:04:05.06Z", true),
        "\x1b[96m2026-01-02T03:04:05.06Z\x1b[0m "
    );
}

#[test]
fn span_fields_without_colour_are_verbatim() {
    assert_eq!(span_fields_suffix("a=1  b=2", false), " a=1  b=2");
    assert_eq!(span_fields_suffix("", false), "");
    assert_eq!(span_fields_suffix("", true), "");
}

#[test]
fn span_fields_are_stripped_and_coloured() {
    let fields = "\x1b[3mreq\x1b[0m\x1b[2m=\x1b[0m42   plain x=a=b";
    assert_eq!(
        colorize_span_fields(fields),
        "\x1b[36mreq\x1b[0m=\x1b[95m42\x1b[0m plain \x1b[36mx\x1b[0m=\x1b[95ma=b\x1b[0m"
    );
    assert_eq!(
        span_fields_suffix("k=v", true),
        " \x1b[36mk\x1b[0m=\x1b[95mv\x1b[0m"
    );
    assert_eq!(span_fields_suffix(" \t ", true), " ");
}

#[test]
fn colored_pair_wraps_key_and_value() {
    assert_eq!(colored_pair("k", "v"), "\x1b[36mk\x1b[0m=\x1b[95mv\x1b[0m");
}

#[test]
fn white_space_matches_std() {
    for c in ['\t', '\n', '\u{b}', '\u{c}', '\r', ' ', '\u{85}', '\u{a0}', '\u{1680}', '\u{2000}',
        '\u{200a}', '\u{2028}', '\u{2029}', '\u{202f}', '\u{205f}', '\u{3000}', 'a', '=', '\u{180e}',
        '\u{200b}', '\u{feff}', '\u{1b}'] {
        assert_eq!(is_white_space_char(c), c.is_whitespace(), "{:?}", c);
    }
    for code in 0u32..0x3100 {
        if let Some(c) = char::from_u32(code) {
            assert_eq!(is_white_space_char(c), c.is_whitespace(), "{:?}", c);
        }
    }
}

#[test]
fn plain_words_are_joined_with_single_spaces() {
    assert_eq!(colorize_span_fields("a  b\tc\n"), "a b c");
    assert_eq!(colorize_span_fields("   "), "");
}

#[test]
fn level_names_parse_to_distinct_levels() {
    let all = [LogLevel::Debug, LogLevel::Info, LogLevel::Warn, LogLevel::Error];
    for a in all {
        assert_eq!(a.level_name().parse::<tracing::Level>().unwrap(), tracing::Level::from(a));
        for b in all {
            assert_eq!(a == b, tracing::Level::from(a) == tracing::Level::from(b));
        }
    }
    assert_eq!(LogLevel::Warn.level_name(), "warn");
}

#[test]
fn padded_level_matches_tracing_display() {
    let pairs = [
        (Severity::Trace, tracing::Level::TRACE),
        (Severity::Debug, tracing::Level::DEBUG),
        (Severity::Info, tracing::Level::INFO),
        (Severity::Warn, tracing::Level::WARN),
        (Severity::Error, tracing::Level::ERROR),
    ];
    for (severity, level) in pairs {
        assert_eq!(padded_level(severity), format!("{:>5}", level));
    }
}
