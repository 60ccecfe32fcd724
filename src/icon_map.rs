//! Maps each `IconKind` to its glyph and the name of its default color.
//!
//! The `Nf` kinds need a Nerd Font in the terminal; the `Unicode` kinds use
//! standard Unicode symbols. Every glyph ends in exactly one space, so the
//! message that follows it stands apart.

use crate::color_map::{color_name_text, color_of, lemma_color_registered, ColorName};
use vstd::prelude::*;

verus! {

/// The kinds of icon that can prefix a message.
#[non_exhaustive]
#[derive(Clone, Copy, Debug, PartialEq, Eq, Hash)]
pub enum IconKind {
    // Nerd Font, Font Awesome
    NfFaTimes,
    NfFaCheck,
    NfFaInfoCircle,
    NfFaRefresh,
    NfFaWarning,
    NfFaBug,
    NfFaQuestion,
    NfFaQuestionCircle,
    NfFaTerminal,
    NfFaTrash,
    NfFaAngleRight,
    NfFaAngleLeft,
    NfFaAngleUp,
    NfFaAngleDown,
    NfFaThumbsUp,
    NfFaThumbsDown,
    NfFaFolder,
    NfFaFolderOpen,

    // Nerd Font, Font Awesome Extension
    NfFaeCcCc,
    NfFaeEqual,

    // Nerd Font, Octicons
    NfOctDotFill,

    // Nerd Font, Material Design; each is superseded by an `NfFa` kind
    /// Superseded by `NfFaAngleRight`.
    NfMdGreaterThan,
    /// Superseded by `NfFaAngleLeft`.
    NfMdLessThan,
    /// Superseded by `NfFaeEqual`.
    NfMdEqual,
    /// Superseded by `NfFaThumbsUp`.
    NfMdThumbsUp,
    /// Superseded by `NfFaThumbsDown`.
    NfMdThumbsDown,
    /// Superseded by `NfFaFolder`.
    NfMdFolder,
    /// Superseded by `NfFaFolderOpen`.
    NfMdFolderOpen,

    // Unicode
    UnicodeCrossMark,
    UnicodeCheckMark,
    UnicodeInformationSource,
    UnicodeGear,
    UnicodeWarningSign,
    UnicodeBug,
}

/// The glyph and default color name of an icon.
#[derive(Clone, Copy, Debug, PartialEq, Eq)]
pub struct IconEntry {
    pub glyph: &'static str,
    pub color: &'static str,
}

/// The glyph shown for an icon kind.
pub open spec fn icon_glyph(k: IconKind) -> Seq<char> {
    match k {
        IconKind::NfFaTimes => "\u{f00d} "@,
        IconKind::NfFaCheck => "\u{f00c} "@,
        IconKind::NfFaInfoCircle => "\u{f05a} "@,
        IconKind::NfFaRefresh => "\u{f021} "@,
        IconKind::NfFaWarning => "\u{f071} "@,
        IconKind::NfFaBug => "\u{f188} "@,
        IconKind::NfFaQuestion => "\u{f128} "@,
        IconKind::NfFaQuestionCircle => "\u{f059} "@,
        IconKind::NfFaTerminal => "\u{f120} "@,
        IconKind::NfFaTrash => "\u{f1f8} "@,
        IconKind::NfFaAngleRight => "\u{f105} "@,
        IconKind::NfFaAngleLeft => "\u{f104} "@,
        IconKind::NfFaAngleUp => "\u{f106} "@,
        IconKind::NfFaAngleDown => "\u{f107} "@,
        IconKind::NfFaThumbsUp => "\u{f164} "@,
        IconKind::NfFaThumbsDown => "\u{f165} "@,
        IconKind::NfFaFolder => "\u{f07b} "@,
        IconKind::NfFaFolderOpen => "\u{f07c} "@,
        IconKind::NfFaeCcCc => "\u{e291} "@,
        IconKind::NfFaeEqual => "\u{e279} "@,
        IconKind::NfOctDotFill => "\u{f444} "@,
        IconKind::NfMdGreaterThan => "\u{f096d} "@,
        IconKind::NfMdLessThan => "\u{f097c} "@,
        IconKind::NfMdEqual => "\u{f01fc} "@,
        IconKind::NfMdThumbsUp => "\u{f0513} "@,
        IconKind::NfMdThumbsDown => "\u{f0511} "@,
        IconKind::NfMdFolder => "\u{f024b} "@,
        IconKind::NfMdFolderOpen => "\u{f0770} "@,
        IconKind::UnicodeCrossMark => "\u{274C} "@,
        IconKind::UnicodeCheckMark => "\u{2714}\u{FE0F} "@,
        IconKind::UnicodeInformationSource => "\u{2139}\u{FE0F} "@,
        IconKind::UnicodeGear => "\u{2699}\u{FE0F} "@,
        IconKind::UnicodeWarningSign => "\u{26A0}\u{FE0F} "@,
        IconKind::UnicodeBug => "\u{1F41B} "@,
    }
}

/// The default color of an icon kind.
pub open spec fn icon_color(k: IconKind) -> ColorName {
    match k {
        IconKind::NfFaTimes => ColorName::Red,
        IconKind::NfFaCheck => ColorName::Green,
        IconKind::NfFaInfoCircle => ColorName::White,
        IconKind::NfFaRefresh => ColorName::Cyan,
        IconKind::NfFaWarning => ColorName::Yellow,
        IconKind::NfFaBug => ColorName::Red,
        IconKind::NfFaQuestion => ColorName::Red,
        IconKind::NfFaQuestionCircle => ColorName::Red,
        IconKind::NfFaTerminal => ColorName::White,
        IconKind::NfFaTrash => ColorName::White,
        IconKind::NfFaAngleRight => ColorName::White,
        IconKind::NfFaAngleLeft => ColorName::White,
        IconKind::NfFaAngleUp => ColorName::White,
        IconKind::NfFaAngleDown => ColorName::White,
        IconKind::NfFaThumbsUp => ColorName::Green,
        IconKind::NfFaThumbsDown => ColorName::Red,
        IconKind::NfFaFolder => ColorName::White,
        IconKind::NfFaFolderOpen => ColorName::White,
        IconKind::NfFaeCcCc => ColorName::White,
        IconKind::NfFaeEqual => ColorName::White,
        IconKind::NfOctDotFill => ColorName::White,
        IconKind::NfMdGreaterThan => ColorName::White,
        IconKind::NfMdLessThan => ColorName::White,
        IconKind::NfMdEqual => ColorName::White,
        IconKind::NfMdThumbsUp => ColorName::Green,
        IconKind::NfMdThumbsDown => ColorName::Red,
        IconKind::NfMdFolder => ColorName::White,
        IconKind::NfMdFolderOpen => ColorName::White,
        IconKind::UnicodeCrossMark => ColorName::Red,
        IconKind::UnicodeCheckMark => ColorName::Green,
        IconKind::UnicodeInformationSource => ColorName::White,
        IconKind::UnicodeGear => ColorName::Cyan,
        IconKind::UnicodeWarningSign => ColorName::Yellow,
        IconKind::UnicodeBug => ColorName::Red,
    }
}

impl IconKind {
    /// The default color of this icon.
    pub fn color(&self) -> (r: ColorName)
        ensures
            r == icon_color(*self),
    {
        match self {
            IconKind::NfFaTimes => ColorName::Red,
            IconKind::NfFaCheck => ColorName::Green,
            IconKind::NfFaInfoCircle => ColorName::White,
            IconKind::NfFaRefresh => ColorName::Cyan,
            IconKind::NfFaWarning => ColorName::Yellow,
            IconKind::NfFaBug => ColorName::Red,
            IconKind::NfFaQuestion => ColorName::Red,
            IconKind::NfFaQuestionCircle => ColorName::Red,
            IconKind::NfFaTerminal => ColorName::White,
            IconKind::NfFaTrash => ColorName::White,
            IconKind::NfFaAngleRight => ColorName::White,
            IconKind::NfFaAngleLeft => ColorName::White,
            IconKind::NfFaAngleUp => ColorName::White,
            IconKind::NfFaAngleDown => ColorName::White,
            IconKind::NfFaThumbsUp => ColorName::Green,
            IconKind::NfFaThumbsDown => ColorName::Red,
            IconKind::NfFaFolder => ColorName::White,
            IconKind::NfFaFolderOpen => ColorName::White,
            IconKind::NfFaeCcCc => ColorName::White,
            IconKind::NfFaeEqual => ColorName::White,
            IconKind::NfOctDotFill => ColorName::White,
            IconKind::NfMdGreaterThan => ColorName::White,
            IconKind::NfMdLessThan => ColorName::White,
            IconKind::NfMdEqual => ColorName::White,
            IconKind::NfMdThumbsUp => ColorName::Green,
            IconKind::NfMdThumbsDown => ColorName::Red,
            IconKind::NfMdFolder => ColorName::White,
            IconKind::NfMdFolderOpen => ColorName::White,
            IconKind::UnicodeCrossMark => ColorName::Red,
            IconKind::UnicodeCheckMark => ColorName::Green,
            IconKind::UnicodeInformationSource => ColorName::White,
            IconKind::UnicodeGear => ColorName::Cyan,
            IconKind::UnicodeWarningSign => ColorName::Yellow,
            IconKind::UnicodeBug => ColorName::Red,
        }
    }

    /// The glyph of this icon, trailing space included.
    pub fn glyph(&self) -> (r: &'static str)
        ensures
            r@ == icon_glyph(*self),
    {
        match self {
            IconKind::NfFaTimes => "\u{f00d} ",
            IconKind::NfFaCheck => "\u{f00c} ",
            IconKind::NfFaInfoCircle => "\u{f05a} ",
            IconKind::NfFaRefresh => "\u{f021} ",
            IconKind::NfFaWarning => "\u{f071} ",
            IconKind::NfFaBug => "\u{f188} ",
            IconKind::NfFaQuestion => "\u{f128} ",
            IconKind::NfFaQuestionCircle => "\u{f059} ",
            IconKind::NfFaTerminal => "\u{f120} ",
            IconKind::NfFaTrash => "\u{f1f8} ",
            IconKind::NfFaAngleRight => "\u{f105} ",
            IconKind::NfFaAngleLeft => "\u{f104} ",
            IconKind::NfFaAngleUp => "\u{f106} ",
            IconKind::NfFaAngleDown => "\u{f107} ",
            IconKind::NfFaThumbsUp => "\u{f164} ",
            IconKind::NfFaThumbsDown => "\u{f165} ",
            IconKind::NfFaFolder => "\u{f07b} ",
            IconKind::NfFaFolderOpen => "\u{f07c} ",
            IconKind::NfFaeCcCc => "\u{e291} ",
            IconKind::NfFaeEqual => "\u{e279} ",
            IconKind::NfOctDotFill => "\u{f444} ",
            IconKind::NfMdGreaterThan => "\u{f096d} ",
            IconKind::NfMdLessThan => "\u{f097c} ",
            IconKind::NfMdEqual => "\u{f01fc} ",
            IconKind::NfMdThumbsUp => "\u{f0513} ",
            IconKind::NfMdThumbsDown => "\u{f0511} ",
            IconKind::NfMdFolder => "\u{f024b} ",
            IconKind::NfMdFolderOpen => "\u{f0770} ",
            IconKind::UnicodeCrossMark => "\u{274C} ",
            IconKind::UnicodeCheckMark => "\u{2714}\u{FE0F} ",
            IconKind::UnicodeInformationSource => "\u{2139}\u{FE0F} ",
            IconKind::UnicodeGear => "\u{2699}\u{FE0F} ",
            IconKind::UnicodeWarningSign => "\u{26A0}\u{FE0F} ",
            IconKind::UnicodeBug => "\u{1F41B} ",
        }
    }

    /// The glyph of this icon and the name of its default color.
    pub fn entry(&self) -> (r: IconEntry)
        ensures
            r.glyph@ == icon_glyph(*self),
            r.color@ == color_name_text(icon_color(*self)),
    {
        IconEntry { glyph: self.glyph(), color: self.color().name() }
    }

    /// The glyph of this icon as an owned string.
    pub fn to_string(&self) -> (r: String)
        ensures
            r@ == icon_glyph(*self),
    {
        self.glyph().to_owned()
    }
}

/// Every icon kind has a complete entry: a glyph that is not empty and a
/// color name that the color registry resolves.
pub proof fn lemma_icon_table_complete(k: IconKind)
    ensures
        icon_glyph(k).len() > 0,
        color_of(color_name_text(icon_color(k))) == Some(icon_color(k)),
{
    lemma_glyph_spacing(k);
    lemma_color_registered(icon_color(k));
}

/// Every glyph ends in exactly one space: its last character is a space and
/// the one before it is not.
pub proof fn lemma_glyph_spacing(k: IconKind)
    ensures
        icon_glyph(k).len() >= 2,
        icon_glyph(k).last() == ' ',
        icon_glyph(k)[icon_glyph(k).len() - 2] != ' ',
{
    reveal_strlit("\u{f00d} ");
    reveal_strlit("\u{f00c} ");
    reveal_strlit("\u{f05a} ");
    reveal_strlit("\u{f021} ");
    reveal_strlit("\u{f071} ");
    reveal_strlit("\u{f188} ");
    reveal_strlit("\u{f128} ");
    reveal_strlit("\u{f059} ");
    reveal_strlit("\u{f120} ");
    reveal_strlit("\u{f1f8} ");
    reveal_strlit("\u{f105} ");
    reveal_strlit("\u{f104} ");
    reveal_strlit("\u{f106} ");
    reveal_strlit("\u{f107} ");
    reveal_strlit("\u{f164} ");
    reveal_strlit("\u{f165} ");
    reveal_strlit("\u{f07b} ");
    reveal_strlit("\u{f07c} ");
    reveal_strlit("\u{e291} ");
    reveal_strlit("\u{e279} ");
    reveal_strlit("\u{f444} ");
    reveal_strlit("\u{f096d} ");
    reveal_strlit("\u{f097c} ");
    reveal_strlit("\u{f01fc} ");
    reveal_strlit("\u{f0513} ");
    reveal_strlit("\u{f0511} ");
    reveal_strlit("\u{f024b} ");
    reveal_strlit("\u{f0770} ");
    reveal_strlit("\u{274C} ");
    reveal_strlit("\u{2714}\u{FE0F} ");
    reveal_strlit("\u{2139}\u{FE0F} ");
    reveal_strlit("\u{2699}\u{FE0F} ");
    reveal_strlit("\u{26A0}\u{FE0F} ");
    reveal_strlit("\u{1F41B} ");
}

} // verus!
