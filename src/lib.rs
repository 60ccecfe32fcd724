//! Builds multi-line status messages, optionally prefixed with an icon and
//! painted in the icon's color, and renders them into the exact lines that a
//! caller writes to standard output.
//!
//! The icon and color tables are exhaustive matches, built into the code
//! rather than filled at run time: every icon kind has an entry, and every
//! color name that an entry uses is registered (`lemma_icon_table_complete`).
//! A color name that is not registered, the empty one included, leaves the
//! text uncolored.

pub mod color_map;
pub mod icon_map;

pub use color_map::ColorName;
pub use icon_map::{IconEntry, IconKind};

use crate::color_map::{color_name_text, color_of, lemma_empty_name_unregistered, painted};
use crate::icon_map::{icon_color, icon_glyph};
use vstd::prelude::*;
use vstd::utf8::{decode_utf8, encode_utf8, encode_utf8_decode_utf8, valid_utf8};

verus! {

/// What can go wrong while a message is shown.
#[derive(Clone, Copy, Debug, PartialEq, Eq, Hash)]
pub enum WhisperError {
    /// A shared icon table could not be reached. The tables of this crate
    /// are fixed matches that need no guard, so rendering never fails this
    /// way; the variant is there for callers that keep such a table.
    Lock,
    /// A line could not be printed, for a reason that is not told apart.
    Print,
    /// Standard output refused a write.
    Write,
    /// Standard output refused a flush.
    Flush,
    /// Bytes meant to become a message are not valid UTF-8.
    Utf8Conversion,
}

/// The text that describes an error.
pub open spec fn error_text(e: WhisperError) -> Seq<char> {
    match e {
        WhisperError::Lock => "Failed to acquire lock on ICON_MAP"@,
        WhisperError::Print => "Failed to print message"@,
        WhisperError::Write => "Error writing to buffer"@,
        WhisperError::Flush => "Error flushing buffer"@,
        WhisperError::Utf8Conversion => "Failed to convert bytes to UTF-8 string"@,
    }
}

impl WhisperError {
    /// The text that describes this error.
    pub fn to_string(&self) -> (r: String)
        ensures
            r@ == error_text(*self),
    {
        let text: &str = match self {
            WhisperError::Lock => "Failed to acquire lock on ICON_MAP",
            WhisperError::Print => "Failed to print message",
            WhisperError::Write => "Error writing to buffer",
            WhisperError::Flush => "Error flushing buffer",
            WhisperError::Utf8Conversion => "Failed to convert bytes to UTF-8 string",
        };
        text.to_owned()
    }
}

/// The characters of each string.
pub open spec fn string_views(v: Seq<String>) -> Seq<Seq<char>> {
    v.map_values(|s: String| s@)
}

/// The characters of each string slice.
pub open spec fn str_views(v: Seq<&str>) -> Seq<Seq<char>> {
    v.map_values(|s: &str| s@)
}

/// One output line: prefix and message each painted in the color registered
/// under `color`, or both verbatim when no color is registered under it.
pub open spec fn colored_line(color: Seq<char>, prefix: Seq<char>, message: Seq<char>) -> Seq<char> {
    match color_of(color) {
        Some(c) => painted(c, prefix) + painted(c, message),
        None => prefix + message,
    }
}

/// The two spaces that indent every line after the first.
pub open spec fn indent() -> Seq<char> {
    seq![' ', ' ']
}

/// The prefix of the line at index `i`: the glyph on the first line, the
/// indent on every later one.
pub open spec fn line_prefix(glyph: Seq<char>, i: int) -> Seq<char> {
    if i == 0 {
        glyph
    } else {
        indent()
    }
}

/// The messages that are shown: a single empty one when there are none.
pub open spec fn shown_messages(messages: Seq<Seq<char>>) -> Seq<Seq<char>> {
    if messages.len() == 0 {
        seq![Seq::empty()]
    } else {
        messages
    }
}

/// The lines that show `messages` under `glyph` in the color named `color`,
/// each without its line terminator.
pub open spec fn rendered(glyph: Seq<char>, color: Seq<char>, messages: Seq<Seq<char>>) -> Seq<
    Seq<char>,
> {
    Seq::new(
        shown_messages(messages).len(),
        |i: int| colored_line(color, line_prefix(glyph, i), shown_messages(messages)[i]),
    )
}

/// Relies on std::str::from_utf8: it succeeds exactly on valid UTF-8 and
/// then views the same bytes as text.
#[verifier::external_body]
fn str_from_utf8(bytes: &[u8]) -> (r: Option<&str>)
    ensures
        match r {
            Some(s) => encode_utf8(s@) == bytes@,
            None => !valid_utf8(bytes@),
        },
{
    std::str::from_utf8(bytes).ok()
}

/// A message under construction: an optional icon and the lines of text that
/// follow it, in order.
#[derive(Debug, Clone, PartialEq, Eq)]
pub struct Whisper {
    /// The icon shown before the first line, if any.
    pub icon_kind: Option<IconKind>,
    /// The lines of the message.
    pub messages: Vec<String>,
}

impl Default for Whisper {
    fn default() -> (r: Self)
        ensures
            r.icon_kind.is_none(),
            r.lines().len() == 0,
    {
        Whisper::new()
    }
}

impl Whisper {
    /// The lines of the message as text.
    pub open spec fn lines(&self) -> Seq<Seq<char>> {
        string_views(self.messages@)
    }

    /// This message with its icon set to `icon_kind`.
    pub open spec fn with_icon(self, icon_kind: IconKind) -> Whisper {
        Whisper { icon_kind: Some(icon_kind), messages: self.messages }
    }

    /// The glyph shown on the first line: the icon's, or none.
    pub open spec fn glyph_text(&self) -> Seq<char> {
        match self.icon_kind {
            Some(k) => icon_glyph(k),
            None => Seq::empty(),
        }
    }

    /// The name of the color the lines are painted in: the icon's default
    /// color, or the empty name when there is no icon.
    pub open spec fn color_text(&self) -> Seq<char> {
        match self.icon_kind {
            Some(k) => color_name_text(icon_color(k)),
            None => Seq::empty(),
        }
    }

    /// The lines that showing this message writes.
    pub open spec fn output(&self) -> Seq<Seq<char>> {
        rendered(self.glyph_text(), self.color_text(), self.lines())
    }

    /// A message with no icon and no lines.
    pub fn new() -> (r: Self)
        ensures
            r.icon_kind.is_none(),
            r.lines().len() == 0,
    {
        Whisper { icon_kind: None, messages: Vec::new() }
    }

    /// Sets the icon, replacing any set before; the lines stay as they are.
    pub fn icon(self, icon_kind: IconKind) -> (r: Self)
        ensures
            r == self.with_icon(icon_kind),
    {
        Whisper { icon_kind: Some(icon_kind), messages: self.messages }
    }

    /// Appends one line.
    pub fn message(self, message: &str) -> (r: Self)
        ensures
            r.icon_kind == self.icon_kind,
            r.lines() == self.lines().push(message@),
    {
        let mut w = self;
        w.messages.push(message.to_owned());
        proof {
            assert(w.lines() =~= self.lines().push(message@));
        }
        w
    }

    /// Appends each of `messages` as a line, in order.
    pub fn messages(self, messages: &[&str]) -> (r: Self)
        ensures
            r.icon_kind == self.icon_kind,
            r.lines() == self.lines() + str_views(messages@),
    {
        let mut w = self;
        let mut i: usize = 0;
        while i < messages.len()
            invariant
                i <= messages@.len(),
                w.icon_kind == self.icon_kind,
                w.lines() =~= self.lines() + str_views(messages@.subrange(0, i as int)),
            decreases messages@.len() - i,
        {
            let ghost before = w.lines();
            w.messages.push(messages[i].to_owned());
            proof {
                assert(w.lines() =~= before.push(messages@[i as int]@));
                assert(str_views(messages@.subrange(0, i + 1)) =~= str_views(
                    messages@.subrange(0, i as int),
                ).push(messages@[i as int]@));
            }
            i = i + 1;
        }
        proof {
            assert(messages@.subrange(0, messages@.len() as int) =~= messages@);
        }
        w
    }

    /// Appends `bytes`, decoded as UTF-8, as one line; fails with
    /// `Utf8Conversion`, and appends nothing, when they are not valid UTF-8.
    pub fn message_from_utf8(self, bytes: &[u8]) -> (r: Result<Self, WhisperError>)
        ensures
            r is Ok <==> valid_utf8(bytes@),
            match r {
                Ok(w) => w.icon_kind == self.icon_kind && w.lines() == self.lines().push(
                    decode_utf8(bytes@),
                ),
                Err(e) => e == WhisperError::Utf8Conversion,
            },
    {
        match str_from_utf8(bytes) {
            Some(text) => {
                proof {
                    encode_utf8_decode_utf8(text@);
                    vstd::utf8::encode_utf8_valid_utf8(text@);
                }
                Ok(self.message(text))
            },
            None => Err(WhisperError::Utf8Conversion),
        }
    }

    /// One output line: `prefix` and `message` each painted in the color
    /// registered under `color`, or both verbatim when there is none.
    pub fn format_line(color: &str, prefix: &str, message: &str) -> (r: String)
        ensures
            r@ == colored_line(color@, prefix@, message@),
    {
        match ColorName::from_name(color) {
            Some(c) => {
                let mut line = c.paint(prefix);
                let painted_message = c.paint(message);
                line.append(painted_message.as_str());
                line
            },
            None => {
                let mut line = prefix.to_owned();
                line.append(message);
                line
            },
        }
    }

    /// The lines that show this message's lines under `glyph` in the color
    /// named `color`: the glyph prefixes the first line, two spaces each later
    /// one, and a message without lines shows one empty line.
    pub fn format_lines(&self, glyph: &str, color: &str) -> (r: Vec<String>)
        ensures
            string_views(r@) == rendered(glyph@, color@, self.lines()),
    {
        let mut out: Vec<String> = Vec::new();
        if self.messages.len() == 0 {
            let empty = "";
            proof {
                reveal_strlit("");
            }
            out.push(Self::format_line(color, glyph, empty));
            proof {
                assert(string_views(out@) =~= rendered(glyph@, color@, self.lines()));
            }
        } else {
            let indent_text = "  ";
            proof {
                reveal_strlit("  ");
            }
            let mut i: usize = 0;
            while i < self.messages.len()
                invariant
                    i <= self.messages@.len(),
                    self.messages@.len() > 0,
                    indent_text@ == indent(),
                    out@.len() == i,
                    forall|j: int|
                        0 <= j < i ==> #[trigger] out@[j]@ == colored_line(
                            color@,
                            line_prefix(glyph@, j),
                            self.lines()[j],
                        ),
                decreases self.messages@.len() - i,
            {
                let prefix: &str = if i == 0 {
                    glyph
                } else {
                    indent_text
                };
                out.push(Self::format_line(color, prefix, self.messages[i].as_str()));
                i = i + 1;
            }
            proof {
                assert(string_views(out@) =~= rendered(glyph@, color@, self.lines()));
            }
        }
        out
    }

    /// The lines that showing this message writes, each without its line
    /// terminator: the icon's glyph and default color when an icon is set,
    /// no glyph and no color otherwise. The caller writes each line followed
    /// by a line terminator to standard output.
    pub fn whisper(&self) -> (r: Vec<String>)
        ensures
            string_views(r@) == self.output(),
    {
        match self.icon_kind {
            Some(kind) => {
                let entry = kind.entry();
                assert(entry.glyph@ == self.glyph_text());
                assert(entry.color@ == self.color_text());
                self.format_lines(entry.glyph, entry.color)
            },
            None => {
                let none = "";
                proof {
                    reveal_strlit("");
                }
                assert(none@ =~= self.glyph_text());
                assert(none@ =~= self.color_text());
                self.format_lines(none, none)
            },
        }
    }
}

/// A message with no icon and no lines shows exactly one line, and that line
/// is empty.
pub proof fn lemma_empty_whisper_one_empty_line(w: Whisper)
    requires
        w.icon_kind.is_none(),
        w.lines().len() == 0,
    ensures
        w.output() == seq![Seq::<char>::empty()],
{
    lemma_empty_name_unregistered();
    assert(w.output() =~= seq![Seq::<char>::empty()]);
}

/// Without an icon nothing is painted: the first line is the first message
/// as it is, and every later line is two spaces followed by its message.
pub proof fn lemma_no_icon_plain_lines(w: Whisper)
    requires
        w.icon_kind.is_none(),
        w.lines().len() > 0,
    ensures
        w.output().len() == w.lines().len(),
        w.output()[0] == w.lines()[0],
        forall|i: int| 0 < i < w.lines().len() ==> #[trigger] w.output()[i] == indent() + w.lines()[i],
{
    lemma_empty_name_unregistered();
    assert(w.output()[0] =~= w.lines()[0]);
}

/// Under a color name that is not registered, the line is the prefix
/// followed by the message, verbatim.
pub proof fn lemma_unregistered_color_verbatim(
    color: Seq<char>,
    prefix: Seq<char>,
    message: Seq<char>,
)
    requires
        color_of(color) is None,
    ensures
        colored_line(color, prefix, message) == prefix + message,
{
}

/// Setting the icon twice keeps only the second: the message and what it
/// shows are those of setting the second icon alone.
pub proof fn lemma_icon_last_wins(w: Whisper, first: IconKind, second: IconKind)
    ensures
        w.with_icon(first).with_icon(second) == w.with_icon(second),
        w.with_icon(first).with_icon(second).output() == w.with_icon(second).output(),
{
}

/// Appending no lines leaves the lines as they were.
pub proof fn lemma_append_no_lines(w: Whisper)
    ensures
        w.lines() + str_views(Seq::<&str>::empty()) == w.lines(),
{
    assert(w.lines() + str_views(Seq::<&str>::empty()) =~= w.lines());
}

} // verus!
