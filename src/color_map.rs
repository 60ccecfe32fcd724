//! Maps color names to text transforms that wrap text in ANSI foreground
//! color escapes.

use owo_colors::OwoColorize;
use vstd::prelude::*;

verus! {

/// The colors a message can be painted in. Each is registered under its
/// lower-case name ("red", "green", "white", "cyan", "yellow").
#[derive(Clone, Copy, Debug, PartialEq, Eq, Hash)]
pub enum ColorName {
    Red,
    Green,
    White,
    Cyan,
    Yellow,
}

/// The digit that follows `3` in the ANSI foreground code of a color.
pub open spec fn ansi_digit(c: ColorName) -> char {
    match c {
        ColorName::Red => '1',
        ColorName::Green => '2',
        ColorName::Yellow => '3',
        ColorName::Cyan => '6',
        ColorName::White => '7',
    }
}

/// The escape that switches the foreground to `c`: `ESC [ 3 d m`.
pub open spec fn fg_start(c: ColorName) -> Seq<char> {
    seq!['\u{1b}', '[', '3', ansi_digit(c), 'm']
}

/// The escape that restores the default foreground: `ESC [ 3 9 m`.
pub open spec fn fg_end() -> Seq<char> {
    seq!['\u{1b}', '[', '3', '9', 'm']
}

/// `t` painted in the color `c`.
pub open spec fn painted(c: ColorName, t: Seq<char>) -> Seq<char> {
    fg_start(c) + t + fg_end()
}

/// The name under which a color is registered.
pub open spec fn color_name_text(c: ColorName) -> Seq<char> {
    match c {
        ColorName::Red => "red"@,
        ColorName::Green => "green"@,
        ColorName::White => "white"@,
        ColorName::Cyan => "cyan"@,
        ColorName::Yellow => "yellow"@,
    }
}

/// The color registered under `name`, if any.
pub open spec fn color_of(name: Seq<char>) -> Option<ColorName> {
    if name == "red"@ {
        Some(ColorName::Red)
    } else if name == "green"@ {
        Some(ColorName::Green)
    } else if name == "white"@ {
        Some(ColorName::White)
    } else if name == "cyan"@ {
        Some(ColorName::Cyan)
    } else if name == "yellow"@ {
        Some(ColorName::Yellow)
    } else {
        None
    }
}

/// `t` occurs in `s` as a contiguous run of characters.
pub open spec fn contains_text(s: Seq<char>, t: Seq<char>) -> bool {
    exists|i: int| 0 <= i && i + t.len() <= s.len() && #[trigger] s.subrange(i, i + t.len()) == t
}

/// Relies on owo_colors' `red` and its `Display`: the text between `ESC[31m` and `ESC[39m`.
#[verifier::external_body]
fn paint_red(text: &str) -> (r: String)
    ensures
        r@ == painted(ColorName::Red, text@),
{
    text.red().to_string()
}

/// Relies on owo_colors' `green` and its `Display`: the text between `ESC[32m` and `ESC[39m`.
#[verifier::external_body]
fn paint_green(text: &str) -> (r: String)
    ensures
        r@ == painted(ColorName::Green, text@),
{
    text.green().to_string()
}

/// Relies on owo_colors' `white` and its `Display`: the text between `ESC[37m` and `ESC[39m`.
#[verifier::external_body]
fn paint_white(text: &str) -> (r: String)
    ensures
        r@ == painted(ColorName::White, text@),
{
    text.white().to_string()
}

/// Relies on owo_colors' `cyan` and its `Display`: the text between `ESC[36m` and `ESC[39m`.
#[verifier::external_body]
fn paint_cyan(text: &str) -> (r: String)
    ensures
        r@ == painted(ColorName::Cyan, text@),
{
    text.cyan().to_string()
}

/// Relies on owo_colors' `yellow` and its `Display`: the text between `ESC[33m` and `ESC[39m`.
#[verifier::external_body]
fn paint_yellow(text: &str) -> (r: String)
    ensures
        r@ == painted(ColorName::Yellow, text@),
{
    text.yellow().to_string()
}

/// Whether two texts hold the same characters.
fn same_text(a: &str, b: &str) -> (r: bool)
    ensures
        r == (a@ == b@),
{
    a.to_owned() == b.to_owned()
}

impl ColorName {
    /// Looks a color up by its registered name; `None` for any other text,
    /// the empty text included.
    pub fn from_name(name: &str) -> (r: Option<ColorName>)
        ensures
            r == color_of(name@),
    {
        if same_text(name, "red") {
            Some(ColorName::Red)
        } else if same_text(name, "green") {
            Some(ColorName::Green)
        } else if same_text(name, "white") {
            Some(ColorName::White)
        } else if same_text(name, "cyan") {
            Some(ColorName::Cyan)
        } else if same_text(name, "yellow") {
            Some(ColorName::Yellow)
        } else {
            None
        }
    }

    /// The name under which this color is registered.
    pub fn name(&self) -> (r: &'static str)
        ensures
            r@ == color_name_text(*self),
    {
        match self {
            ColorName::Red => "red",
            ColorName::Green => "green",
            ColorName::White => "white",
            ColorName::Cyan => "cyan",
            ColorName::Yellow => "yellow",
        }
    }

    /// Wraps `text` in this color's foreground escape and the reset escape.
    pub fn paint(&self, text: &str) -> (r: String)
        ensures
            r@ == painted(*self, text@),
    {
        match self {
            ColorName::Red => paint_red(text),
            ColorName::Green => paint_green(text),
            ColorName::White => paint_white(text),
            ColorName::Cyan => paint_cyan(text),
            ColorName::Yellow => paint_yellow(text),
        }
    }
}

/// Each color is found under its registered name.
pub proof fn lemma_color_registered(c: ColorName)
    ensures
        color_of(color_name_text(c)) == Some(c),
{
    reveal_strlit("red");
    reveal_strlit("green");
    reveal_strlit("white");
    reveal_strlit("cyan");
    reveal_strlit("yellow");
    assert("red"@ != "green"@ && "red"@ != "white"@ && "red"@ != "cyan"@ && "red"@ != "yellow"@) by {
        assert("red"@[0] != "green"@[0] && "red"@[0] != "white"@[0] && "red"@[0] != "cyan"@[0]);
        assert("red"@.len() != "yellow"@.len());
    }
    assert("green"@ != "white"@ && "green"@ != "cyan"@ && "green"@ != "yellow"@) by {
        assert("green"@[0] != "white"@[0] && "green"@[0] != "cyan"@[0]);
        assert("green"@[0] != "yellow"@[0]);
    }
    assert("white"@ != "cyan"@ && "white"@ != "yellow"@) by {
        assert("white"@[0] != "cyan"@[0] && "white"@[0] != "yellow"@[0]);
    }
    assert("cyan"@ != "yellow"@) by {
        assert("cyan"@[0] != "yellow"@[0]);
    }
}

/// Painting keeps the text whole inside the result and always changes it:
/// the result holds `t` as a substring and differs from `t`.
pub proof fn lemma_paint_wraps(c: ColorName, t: Seq<char>)
    ensures
        contains_text(painted(c, t), t),
        painted(c, t) != t,
{
    let s = painted(c, t);
    assert(s.subrange(5, 5 + t.len() as int) =~= t);
    assert(s.len() == t.len() + 10);
}

/// No color is registered under the empty name.
pub proof fn lemma_empty_name_unregistered()
    ensures
        color_of(Seq::empty()) is None,
{
    reveal_strlit("red");
    reveal_strlit("green");
    reveal_strlit("white");
    reveal_strlit("cyan");
    reveal_strlit("yellow");
    assert("red"@.len() == 3 && "green"@.len() == 5 && "white"@.len() == 5);
    assert("cyan"@.len() == 4 && "yellow"@.len() == 6);
}

} // verus!
