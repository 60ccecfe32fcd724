use murmur::{ColorName, IconKind, Whisper};

const ALL_ICONS: [IconKind; 34] = [
    IconKind::NfFaTimes,
    IconKind::NfFaCheck,
    IconKind::NfFaInfoCircle,
    IconKind::NfFaRefresh,
    IconKind::NfFaWarning,
    IconKind::NfFaBug,
    IconKind::NfFaQuestion,
    IconKind::NfFaQuestionCircle,
    IconKind::NfFaTerminal,
    IconKind::NfFaTrash,
    IconKind::NfFaAngleRight,
    IconKind::NfFaAngleLeft,
    IconKind::NfFaAngleUp,
    IconKind::NfFaAngleDown,
    IconKind::NfFaThumbsUp,
    IconKind::NfFaThumbsDown,
    IconKind::NfFaFolder,
    IconKind::NfFaFolderOpen,
    IconKind::NfFaeCcCc,
    IconKind::NfFaeEqual,
    IconKind::NfOctDotFill,
    IconKind::NfMdGreaterThan,
    IconKind::NfMdLessThan,
    IconKind::NfMdEqual,
    IconKind::NfMdThumbsUp,
    IconKind::NfMdThumbsDown,
    IconKind::NfMdFolder,
    IconKind::NfMdFolderOpen,
    IconKind::UnicodeCrossMark,
    IconKind::UnicodeCheckMark,
    IconKind::UnicodeInformationSource,
    IconKind::UnicodeGear,
    IconKind::UnicodeWarningSign,
    IconKind::UnicodeBug,
];

#[test]
fn test_print_all_icons() {
    ALL_ICONS.iter().for_each(|icon_kind| {
        println!("{}: {}", icon_kind.to_string(), icon_kind.entry().glyph);
    });
}

#[test]
fn test_whisper_all_icons() {
    ALL_ICONS.iter().for_each(|icon_kind| {
        let lines = Whisper::new()
            .icon(*icon_kind)
            .message(&format!("{}: {}", icon_kind.to_string(), icon_kind.entry().glyph))
            .whisper();
        assert_eq!(lines.len(), 1);
    });
}

#[test]
fn test_spaces_after_icons() {
    for icon_kind in ALL_ICONS {
        let icon = icon_kind.entry().glyph;
        assert!(
            icon.ends_with(' ') && !icon.ends_with("  "),
            "Invalid spacing after {icon_kind:?} icon: '{icon}'",
        );
    }
}

#[test]
fn every_icon_has_a_registered_color() {
    for icon_kind in ALL_ICONS {
        let entry = icon_kind.entry();
        assert!(!entry.glyph.trim().is_empty());
        assert_eq!(ColorName::from_name(entry.color), Some(icon_kind.color()));
    }
}

#[test]
fn icon_entries_match_table() {
    let bug = IconKind::NfFaBug.entry();
    assert_eq!(bug.glyph, "\u{f188} ");
    assert_eq!(bug.color, "red");
    let gear = IconKind::UnicodeGear.entry();
    assert_eq!(gear.glyph, "\u{2699}\u{FE0F} ");
    assert_eq!(gear.color, "cyan");
    let check = IconKind::NfFaCheck.entry();
    assert_eq!(check.glyph, "\u{f00c} ");
    assert_eq!(check.color, "green");
    assert_eq!(IconKind::UnicodeWarningSign.to_string(), "\u{26A0}\u{FE0F} ");
    assert_eq!(IconKind::UnicodeWarningSign.color(), ColorName::Yellow);
}
