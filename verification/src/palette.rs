//! The palette of the prompt and the ANSI escape sequences that colour a
//! piece of text.

use vstd::prelude::*;

verus! {

/// The colours that the prompt uses.
#[derive(Clone, Copy, Debug, PartialEq, Eq, Structural)]
pub enum Color {
    Black,
    Red,
    Green,
    Yellow,
    Blue,
    Cyan,
    BrightWhite,
}

/// The background that the terminal shows where nothing is painted.
pub const TERMINAL_BACKGROUND: Color = Color::Black;

/// The text colour of the segments that carry no warning.
pub const SEGMENT_FOREGROUND: Color = Color::Black;

/// The SGR parameter that selects `color` for the text.
pub open spec fn foreground_code(color: Color) -> Seq<char> {
    match color {
        Color::Black => seq!['3', '0'],
        Color::Red => seq!['3', '1'],
        Color::Green => seq!['3', '2'],
        Color::Yellow => seq!['3', '3'],
        Color::Blue => seq!['3', '4'],
        Color::Cyan => seq!['3', '6'],
        Color::BrightWhite => seq!['9', '7'],
    }
}

/// The SGR parameter that selects `color` for the background.
pub open spec fn background_code(color: Color) -> Seq<char> {
    match color {
        Color::Black => seq!['4', '0'],
        Color::Red => seq!['4', '1'],
        Color::Green => seq!['4', '2'],
        Color::Yellow => seq!['4', '3'],
        Color::Blue => seq!['4', '4'],
        Color::Cyan => seq!['4', '6'],
        Color::BrightWhite => seq!['1', '0', '7'],
    }
}

/// The escape sequence that ends all colouring.
pub open spec fn reset_sequence() -> Seq<char> {
    seq!['\x1b', '[', '0', 'm']
}

/// The escape sequence that switches to `foreground` on `background`.
pub open spec fn style_sequence(foreground: Color, background: Color) -> Seq<char> {
    seq!['\x1b', '['] + background_code(background) + seq![';'] + foreground_code(foreground)
        + seq!['m']
}

/// The escape sequence that switches the text to bright black.
pub open spec fn bright_black_sequence() -> Seq<char> {
    seq!['\x1b', '[', '9', '0', 'm']
}

/// `text` with `style` switched on again behind every reset sequence in it,
/// so that a reset inside the text does not end the colouring early.
pub open spec fn restyled(text: Seq<char>, style: Seq<char>) -> Seq<char>
    decreases text.len(),
{
    if text.len() == 0 {
        text
    } else if reset_sequence().is_prefix_of(text) {
        reset_sequence() + style + restyled(text.skip(4), style)
    } else {
        seq![text[0]] + restyled(text.skip(1), style)
    }
}

/// `text` in `foreground` on `background`: the style, the text, a reset.
pub open spec fn painted(text: Seq<char>, foreground: Color, background: Color) -> Seq<char> {
    let style = style_sequence(foreground, background);
    style + restyled(text, style) + reset_sequence()
}

/// `text` in bright black on the terminal's own background.
pub open spec fn painted_bright_black(text: Seq<char>) -> Seq<char> {
    let style = bright_black_sequence();
    style + restyled(text, style) + reset_sequence()
}

/// A text without an escape character is coloured as it stands: the style
/// in front of it and a reset behind it.
pub proof fn lemma_plain_text_keeps_its_shape(text: Seq<char>, style: Seq<char>)
    requires
        !text.contains('\x1b'),
    ensures
        restyled(text, style) == text,
    decreases text.len(),
{
    if text.len() > 0 {
        assert(text[0] != '\x1b');
        assert(reset_sequence()[0] == '\x1b');
        assert(!reset_sequence().is_prefix_of(text)) by {
            if reset_sequence().is_prefix_of(text) {
                assert(text[0] == reset_sequence()[0]);
            }
        }
        let rest = text.skip(1);
        assert forall|i: int| 0 <= i < rest.len() implies rest[i] != '\x1b' by {
            assert(rest[i] == text[i + 1]);
        }
        lemma_plain_text_keeps_its_shape(rest, style);
        assert(seq![text[0]] + rest =~= text);
    }
}

/// Colours a text with the `colored` crate: `Colorize::color`, then
/// `Colorize::on_color`, then the `Display` of the `ColoredString`, after
/// `control::set_override(true)` has switched colouring on whatever the
/// environment says. Trusted: that the output is the SGR sequence with the
/// background code before the foreground code, the text with the style
/// repeated behind each reset sequence in it, and a final reset.
#[verifier::external_body]
pub(crate) fn paint(text: &str, foreground: Color, background: Color) -> (out: String)
    ensures
        out@ == painted(text@, foreground, background),
{
    let pick = |color: Color| match color {
        Color::Black => colored::Color::Black,
        Color::Red => colored::Color::Red,
        Color::Green => colored::Color::Green,
        Color::Yellow => colored::Color::Yellow,
        Color::Blue => colored::Color::Blue,
        Color::Cyan => colored::Color::Cyan,
        Color::BrightWhite => colored::Color::BrightWhite,
    };
    colored::control::set_override(true);
    colored::Colorize::on_color(colored::Colorize::color(text, pick(foreground)), pick(background))
        .to_string()
}

/// Colours a text bright black with the `colored` crate:
/// `Colorize::bright_black`, then the `Display` of the `ColoredString`, after
/// `control::set_override(true)`. Trusted: that the output is the SGR
/// sequence for bright black text, the text with that sequence repeated
/// behind each reset sequence in it, and a final reset.
#[verifier::external_body]
pub(crate) fn paint_bright_black(text: &str) -> (out: String)
    ensures
        out@ == painted_bright_black(text@),
{
    colored::control::set_override(true);
    colored::Colorize::bright_black(text).to_string()
}

} // verus!
