//! The `--format` argument of admin commands, and the spinner frames.

use astrid::spinner::SpinnerStyle;
use astrid::value_format::ValueFormat;

#[test]
fn parse_recognises_known_formats() {
    assert_eq!(ValueFormat::parse("json"), ValueFormat::Json);
    assert_eq!(ValueFormat::parse("YAML"), ValueFormat::Yaml);
    assert_eq!(ValueFormat::parse("yml"), ValueFormat::Yaml);
    assert_eq!(ValueFormat::parse("toml"), ValueFormat::Toml);
    assert_eq!(ValueFormat::parse("pretty"), ValueFormat::Pretty);
    assert_eq!(ValueFormat::parse("anything-else"), ValueFormat::Pretty);
}

#[test]
fn only_pretty_is_pretty() {
    assert!(ValueFormat::Pretty.is_pretty());
    assert!(!ValueFormat::Json.is_pretty());
    assert_eq!(ValueFormat::default(), ValueFormat::Pretty);
}

#[test]
fn spinner_frames_advance_every_120ms() {
    assert_eq!(SpinnerStyle::Stellar.frames().len(), 8);
    assert_eq!(SpinnerStyle::Braille.frames().len(), 10);
    assert_eq!(SpinnerStyle::Stellar.frame_at(0), "✧");
    assert_eq!(SpinnerStyle::Stellar.frame_at(119), "✧");
    assert_eq!(SpinnerStyle::Stellar.frame_at(120), "✦");
    assert_eq!(SpinnerStyle::Stellar.frame_at(960), "✧");
    assert_eq!(SpinnerStyle::Dots.frame_at(240), "⣻");
}
