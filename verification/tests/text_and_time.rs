use n_player::text::{contains, push_decimal, push_two_digits};
use n_player::theme::Theme;
use n_player::time::{format_clock, TrackTime};
use n_player::window::WindowSize;
use n_player::MessageRustToAndroid;

#[test]
fn decimal_numerals() {
    let mut out = String::new();
    push_decimal(&mut out, 0);
    out.push(' ');
    push_decimal(&mut out, 7);
    out.push(' ');
    push_decimal(&mut out, 10);
    out.push(' ');
    push_decimal(&mut out, 1234567890);
    out.push(' ');
    push_decimal(&mut out, u64::MAX);
    assert_eq!(out, "0 7 10 1234567890 18446744073709551615");
}

#[test]
fn two_digit_numerals() {
    let mut out = String::from("x");
    push_two_digits(&mut out, 0);
    push_two_digits(&mut out, 9);
    push_two_digits(&mut out, 10);
    push_two_digits(&mut out, 123);
    assert_eq!(out, "x000910123");
}

#[test]
fn clock_labels() {
    assert_eq!(format_clock(0), "00:00");
    assert_eq!(format_clock(999), "00:00");
    assert_eq!(format_clock(1_000), "00:01");
    assert_eq!(format_clock(59_999), "00:59");
    assert_eq!(format_clock(60_000), "01:00");
    assert_eq!(format_clock(185_400), "03:05");
    assert_eq!(format_clock(3_600_000), "60:00");
    assert_eq!(format_clock(6_000_000), "100:00");
}

#[test]
fn track_time_label_and_default() {
    assert_eq!(TrackTime::default(), TrackTime { position: 0, length: 0 });
    assert_eq!(TrackTime::new(), TrackTime::default());
    assert_eq!(TrackTime { position: 754_000, length: 900_000 }.format_pos(), "12:34");
}

#[test]
fn substring_search() {
    assert!(contains("audio/mpeg", "audio"));
    assert!(contains("x-audio", "audio"));
    assert!(contains("audio", "audio"));
    assert!(contains("anything", ""));
    assert!(contains("", ""));
    assert!(!contains("", "audio"));
    assert!(!contains("audi", "audio"));
    assert!(!contains("video/mp4", "audio"));
    assert!(!contains("auDio/x", "audio"));
    assert!(contains("aaudio", "audio"));
    assert!(contains("übung-audio", "audio"));
}

#[test]
fn theme_names() {
    let all = [
        (Theme::Abyss, "Abyss", "abyss"),
        (Theme::Aqua, "Aqua", "aqua"),
        (Theme::Black, "Black", "black"),
        (Theme::Caramellatte, "Caramellatte", "caramellatte"),
        (Theme::Coffee, "Coffee", "coffee"),
        (Theme::Cyberpunk, "Cyberpunk", "cyberpunk"),
        (Theme::Dark, "Dark", "dark"),
        (Theme::Dracula, "Dracula", "dracula"),
        (Theme::Light, "Light", "light"),
        (Theme::Pastel, "Pastel", "pastel"),
        (Theme::Retro, "Retro", "retro"),
        (Theme::Synthwave, "Synthwave", "synthwave"),
    ];
    for (theme, name, identifier) in all {
        assert_eq!(theme.name(), name);
        assert_eq!(theme.identifier(), identifier);
    }
    assert_eq!(Theme::default(), Theme::Black);
}

#[test]
fn default_window_size() {
    assert_eq!(WindowSize::default(), WindowSize { width: 450, height: 625 });
}

#[test]
fn platform_requests() {
    assert_ne!(
        MessageRustToAndroid::AskDirectory,
        MessageRustToAndroid::OpenLink("https://example.org".to_string())
    );
}
