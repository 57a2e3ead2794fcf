//! Coloured status text: a message together with how it is to be shown, and
//! its rendering into terminal text through the `colored` crate.

use colored::{Colorize, CustomColor};
use vstd::prelude::*;
use vstd::string::*;

use crate::text::decimal_text;

verus! {

/// How a status message is shown.
#[derive(Clone, Copy, Debug, PartialEq, Eq, Structural)]
pub enum Tint {
    /// As it is, without any styling.
    Plain,
    Red,
    /// The true colour (255, 127, 0).
    Orange,
    Yellow,
    Blue,
    Green,
    Purple,
    Bold,
}

/// A status message and how it is shown.
#[derive(Debug)]
pub struct Styled {
    pub text: String,
    pub tint: Tint,
}

/// The escape character that starts a terminal control sequence.
pub open spec fn esc() -> char {
    '\u{1b}'
}

/// The control sequence that ends all styling.
pub open spec fn reset_sequence() -> Seq<char> {
    seq![esc(), '[', '0', 'm']
}

/// The control sequence that selects the graphic rendition `code`.
pub open spec fn sgr_sequence(code: Seq<char>) -> Seq<char> {
    seq![esc(), '['] + code + seq!['m']
}

/// `s` with `style` inserted after every reset sequence in it, so that the
/// styling goes on after text that was styled on its own.
pub open spec fn restyle_after_resets(s: Seq<char>, style: Seq<char>) -> Seq<char>
    decreases s.len(),
{
    if s.len() == 0 {
        s
    } else if reset_sequence().is_prefix_of(s) {
        reset_sequence() + style + restyle_after_resets(s.skip(4), style)
    } else {
        seq![s[0]] + restyle_after_resets(s.drop_first(), style)
    }
}

/// `text` shown with the graphic rendition `code`, as the `colored` crate
/// writes it when it colours.
pub open spec fn sgr_form(code: Seq<char>, text: Seq<char>) -> Seq<char> {
    sgr_sequence(code) + restyle_after_resets(text, sgr_sequence(code)) + reset_sequence()
}

/// The rendition codes of the sixteen basic foreground colours.
pub open spec fn is_basic_foreground(code: Seq<char>) -> bool {
    code.len() == 2 && (code[0] == '3' || code[0] == '9') && '0' as u32 <= code[1] as u32 <= '7' as u32
}

/// The rendition code of the foreground true colour (`r`, `g`, `b`).
pub open spec fn true_color_code(r: u8, g: u8, b: u8) -> Seq<char> {
    seq!['3', '8', ';', '2', ';'] + decimal_text(r as nat) + seq![';'] + decimal_text(g as nat)
        + seq![';'] + decimal_text(b as nat)
}

/// Whether `out` is `text` shown with `tint`: `text` itself, or the styled
/// form of it. Which of the two comes out is left unsaid: `colored` decides
/// by its colouring switch (`control::set_override`, else the environment and
/// whether standard output is a terminal), which it reads anew, more than
/// once, while it writes the text. These contracts hold where that switch is
/// not changed while a text is written; the library never changes it.
pub open spec fn shown_as(out: Seq<char>, text: Seq<char>, tint: Tint) -> bool {
    match tint {
        Tint::Plain => out == text,
        Tint::Red => out == text || out == sgr_form(seq!['3', '1'], text),
        Tint::Orange => out == text || out == sgr_form(true_color_code(255, 127, 0), text) || exists|
            code: Seq<char>,
        | is_basic_foreground(code) && out == sgr_form(code, text),
        Tint::Yellow => out == text || out == sgr_form(seq!['3', '3'], text),
        Tint::Blue => out == text || out == sgr_form(seq!['3', '4'], text),
        Tint::Green => out == text || out == sgr_form(seq!['3', '2'], text),
        Tint::Purple => out == text || out == sgr_form(seq!['3', '5'], text),
        Tint::Bold => out == text || out == sgr_form(seq!['1'], text),
    }
}

/// `text.red()` of `colored`, written out: `text` unchanged where colouring is
/// off, else `text` in the foreground colour 31.
#[verifier::external_body]
fn paint_red(text: &str) -> (out: String)
    ensures
        out@ == text@ || out@ == sgr_form(seq!['3', '1'], text@),
{
    text.red().to_string()
}

/// `text.green()` of `colored`, written out: `text` unchanged where colouring
/// is off, else `text` in the foreground colour 32.
#[verifier::external_body]
fn paint_green(text: &str) -> (out: String)
    ensures
        out@ == text@ || out@ == sgr_form(seq!['3', '2'], text@),
{
    text.green().to_string()
}

/// `text.yellow()` of `colored`, written out: `text` unchanged where colouring
/// is off, else `text` in the foreground colour 33.
#[verifier::external_body]
fn paint_yellow(text: &str) -> (out: String)
    ensures
        out@ == text@ || out@ == sgr_form(seq!['3', '3'], text@),
{
    text.yellow().to_string()
}

/// `text.blue()` of `colored`, written out: `text` unchanged where colouring
/// is off, else `text` in the foreground colour 34.
#[verifier::external_body]
fn paint_blue(text: &str) -> (out: String)
    ensures
        out@ == text@ || out@ == sgr_form(seq!['3', '4'], text@),
{
    text.blue().to_string()
}

/// `text.purple()` of `colored`, written out: `text` unchanged where colouring
/// is off, else `text` in the foreground colour 35 (magenta).
#[verifier::external_body]
fn paint_purple(text: &str) -> (out: String)
    ensures
        out@ == text@ || out@ == sgr_form(seq!['3', '5'], text@),
{
    text.purple().to_string()
}

/// `text.bold()` of `colored`, written out: `text` unchanged where colouring
/// is off, else `text` with the rendition 1 (bold).
#[verifier::external_body]
fn paint_bold(text: &str) -> (out: String)
    ensures
        out@ == text@ || out@ == sgr_form(seq!['1'], text@),
{
    text.bold().to_string()
}

/// `text.custom_color(CustomColor::new(r, g, b))` of `colored`, written out:
/// `text` unchanged where colouring is off; else `text` in the true colour
/// where the `COLORTERM` environment variable announces true colour, and in
/// one of the sixteen basic colours otherwise. Which basic colour (the
/// nearest one to (`r`, `g`, `b`)) is left unsaid.
#[verifier::external_body]
fn paint_custom(text: &str, r: u8, g: u8, b: u8) -> (out: String)
    ensures
        out@ == text@ || out@ == sgr_form(true_color_code(r, g, b), text@) || exists|
            code: Seq<char>,
        | is_basic_foreground(code) && out@ == sgr_form(code, text@),
{
    text.custom_color(CustomColor::new(r, g, b)).to_string()
}

/// The terminal text of a styled message.
pub fn render(styled: &Styled) -> (out: String)
    ensures
        shown_as(out@, styled.text@, styled.tint),
{
    let text = styled.text.as_str();
    match styled.tint {
        Tint::Plain => String::from_str(text),
        Tint::Red => paint_red(text),
        Tint::Orange => paint_custom(text, 255, 127, 0),
        Tint::Yellow => paint_yellow(text),
        Tint::Blue => paint_blue(text),
        Tint::Green => paint_green(text),
        Tint::Purple => paint_purple(text),
        Tint::Bold => paint_bold(text),
    }
}

} // verus!
