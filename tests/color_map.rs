use murmur::ColorName;
use owo_colors::OwoColorize;

#[test]
fn color_map_contains_expected_colors() {
    let expected_colors = vec!["red", "green", "white", "cyan", "yellow"];
    for color in expected_colors {
        assert!(ColorName::from_name(color).is_some());
    }
}

#[test]
fn color_map_applies_correct_color() {
    let red_text = ColorName::from_name("red").unwrap().paint("test");
    assert_eq!(red_text, "test".red().to_string());
}

#[test]
fn color_map_returns_none_for_unknown_color() {
    assert!(ColorName::from_name("unknown_color").is_none());
}

#[test]
fn color_map_handles_empty_string() {
    let red_text = ColorName::from_name("red").unwrap().paint("");
    assert_eq!(red_text, "".red().to_string());
}

#[test]
fn empty_color_name_is_unregistered() {
    assert!(ColorName::from_name("").is_none());
    assert!(ColorName::from_name("Red").is_none());
    assert!(ColorName::from_name("red ").is_none());
}

#[test]
fn color_names_round_trip() {
    let colors = [
        ColorName::Red,
        ColorName::Green,
        ColorName::White,
        ColorName::Cyan,
        ColorName::Yellow,
    ];
    for color in colors {
        assert_eq!(ColorName::from_name(color.name()), Some(color));
    }
}

#[test]
fn each_color_paints_its_escape() {
    assert_eq!(ColorName::Red.paint("abc"), "\x1b[31mabc\x1b[39m");
    assert_eq!(ColorName::Green.paint("abc"), "\x1b[32mabc\x1b[39m");
    assert_eq!(ColorName::Yellow.paint("abc"), "\x1b[33mabc\x1b[39m");
    assert_eq!(ColorName::Cyan.paint("abc"), "\x1b[36mabc\x1b[39m");
    assert_eq!(ColorName::White.paint("abc"), "\x1b[37mabc\x1b[39m");
}

#[test]
fn painting_wraps_and_keeps_text() {
    let colors = [
        ColorName::Red,
        ColorName::Green,
        ColorName::White,
        ColorName::Cyan,
        ColorName::Yellow,
    ];
    for color in colors {
        let painted = color.paint("some text");
        assert!(painted.contains("some text"));
        assert_ne!(painted, "some text");
    }
}
