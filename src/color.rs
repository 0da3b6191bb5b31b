//! Terminal styling: the accuracy color ramp and the styled-text helpers.

use vstd::prelude::*;
use colored::Colorize;
use vstd::string::StringExecFns;
use crate::text::decimal;

verus! {

/// The color for a statistic backed by `count` submissions: seven buckets,
/// each five counts wide, the last open-ended.
pub open spec fn accuracy_color(count: u32) -> (u8, u8, u8) {
    if count <= 4 {
        (255, 58, 58)
    } else if count <= 9 {
        (204, 59, 81)
    } else if count <= 14 {
        (130, 73, 133)
    } else if count <= 19 {
        (86, 80, 161)
    } else if count <= 24 {
        (72, 92, 171)
    } else if count <= 29 {
        (58, 109, 181)
    } else {
        (40, 127, 194)
    }
}

/// The bucket of a submission count: one for each five counts, the last
/// holding every count from thirty up.
pub open spec fn accuracy_bucket(count: u32) -> int {
    if count >= 30 {
        6
    } else {
        count as int / 5
    }
}

/// Two counts get the same accuracy color exactly when they fall in the same
/// bucket: the color changes at 5, 10, 15, 20, 25 and 30, and not above.
pub proof fn lemma_accuracy_buckets(a: u32, b: u32)
    ensures
        accuracy_color(a) == accuracy_color(b) <==> accuracy_bucket(a) == accuracy_bucket(b),
{
}

/// The color that a duration backed by `count` submissions is drawn in.
pub fn get_accuracy_color(count: u32) -> (r: (u8, u8, u8))
    ensures
        r == accuracy_color(count),
{
    if count <= 4 {
        (255, 58, 58)
    } else if count <= 9 {
        (204, 59, 81)
    } else if count <= 14 {
        (130, 73, 133)
    } else if count <= 19 {
        (86, 80, 161)
    } else if count <= 24 {
        (72, 92, 171)
    } else if count <= 29 {
        (58, 109, 181)
    } else {
        (40, 127, 194)
    }
}

/// The escape character that opens a terminal control sequence.
pub open spec fn esc() -> char {
    '\x1b'
}

/// The sequence that ends a styled span.
pub open spec fn reset() -> Seq<char> {
    seq![esc(), '[', '0', 'm']
}

/// `text` holds no reset sequence, which colored would otherwise re-style
/// inside the span.
pub open spec fn no_reset(text: Seq<char>) -> bool {
    forall|i: int| 0 <= i ==> !(#[trigger] reset_at(text, i))
}

/// A reset sequence starts at position `i` of `text`.
pub open spec fn reset_at(text: Seq<char>, i: int) -> bool {
    i + 4 <= text.len() && text.subrange(i, i + 4) == reset()
}

/// `text` after the select-graphic-rendition sequence with `codes`, then a
/// reset.
pub open spec fn wrapped(codes: Seq<char>, text: Seq<char>) -> Seq<char> {
    seq![esc(), '['] + codes + seq!['m'] + text + reset()
}

/// The 24-bit foreground codes `38;2;R;G;B`.
pub open spec fn rgb_codes(rgb: (u8, u8, u8)) -> Seq<char> {
    seq!['3', '8', ';', '2', ';'] + decimal(rgb.0 as nat) + seq![';'] + decimal(rgb.1 as nat)
        + seq![';'] + decimal(rgb.2 as nat)
}

/// One of the sixteen basic foreground codes, `30`–`37` and `90`–`97`.
pub open spec fn basic_fg(codes: Seq<char>) -> bool {
    codes.len() == 2 && (codes[0] == '3' || codes[0] == '9') && '0' <= codes[1] <= '7'
}

/// The foreground codes for `rgb`: the 24-bit form, or the nearest basic
/// color where the terminal does not announce 24-bit support.
pub open spec fn fg_codes_for(codes: Seq<char>, rgb: (u8, u8, u8)) -> bool {
    codes == rgb_codes(rgb) || basic_fg(codes)
}

/// The sequence that opens a span styled with `codes`.
pub open spec fn opening(codes: Seq<char>) -> Seq<char> {
    seq![esc(), '['] + codes + seq!['m']
}

/// `text` with the opening sequence for `codes` inserted after each reset
/// sequence in it, read from the left, so that the style goes on after a
/// span nested inside it ends.
pub open spec fn restyled(codes: Seq<char>, text: Seq<char>) -> Seq<char>
    decreases text.len(),
{
    if text.len() == 0 {
        text
    } else if text.len() >= 4 && text.subrange(0, 4) == reset() {
        reset() + opening(codes) + restyled(codes, text.subrange(4, text.len() as int))
    } else {
        seq![text[0]] + restyled(codes, text.drop_first())
    }
}

/// `r` shows `text` with the given codes when `color` is on, and is `text`
/// itself when it is off.
pub open spec fn shown_with(r: Seq<char>, codes: Seq<char>, text: Seq<char>, color: bool) -> bool {
    if !color {
        r == text
    } else {
        r == wrapped(codes, restyled(codes, text))
    }
}

/// `r` shows `text` in the foreground color `rgb` when `color` is on, and is
/// `text` itself when it is off.
pub open spec fn shown_in(r: Seq<char>, rgb: (u8, u8, u8), text: Seq<char>, color: bool) -> bool {
    if !color {
        r == text
    } else {
        exists|codes: Seq<char>|
            fg_codes_for(codes, rgb) && r == wrapped(codes, restyled(codes, text))
    }
}

/// A text without reset sequences is left as it is when styled.
pub proof fn lemma_restyled_plain(codes: Seq<char>, text: Seq<char>)
    requires
        no_reset(text),
    ensures
        restyled(codes, text) == text,
    decreases text.len(),
{
    if text.len() > 0 {
        let rest = text.drop_first();
        assert(!reset_at(text, 0));
        assert forall|i: int| 0 <= i implies !(#[trigger] reset_at(rest, i)) by {
            assert(!reset_at(text, i + 1));
            if i + 4 <= rest.len() {
                assert(rest.subrange(i, i + 4) =~= text.subrange(i + 1, i + 5));
            }
        }
        lemma_restyled_plain(codes, rest);
        assert(seq![text[0]] + rest =~= text);
    }
}

/// Relies on colored's `control::set_override`, `truecolor` and its
/// `Display`: with styling forced on, the text after `ESC[38;2;R;G;Bm` (or the
/// nearest basic color's code where `COLORTERM` is not `truecolor` or
/// `24bit`) and before `ESC[0m`.
/// Each reset sequence inside the text is followed by the opening sequence
/// again.
/// Styling is forced on for the whole process: the caller asks for color,
/// so neither the environment nor whether output is a terminal decides.
#[verifier::external_body]
fn paint_rgb(text: &str, r: u8, g: u8, b: u8) -> (out: String)
    ensures
        shown_in(out@, (r, g, b), text@, true),
{
    colored::control::set_override(true);
    text.truecolor(r, g, b).to_string()
}

/// Relies on colored's `control::set_override`, `bold` and its `Display`:
/// with styling forced on, the text after `ESC[1m` and before `ESC[0m`.
/// Each reset sequence inside the text is followed by the opening sequence
/// again.
/// Styling is forced on for the whole process: the caller asks for color,
/// so neither the environment nor whether output is a terminal decides.
#[verifier::external_body]
fn paint_bold(text: &str) -> (out: String)
    ensures
        shown_with(out@, seq!['1'], text@, true),
{
    colored::control::set_override(true);
    text.bold().to_string()
}

/// Relies on colored's `control::set_override`, `bold`, `green` and its
/// `Display`: with styling forced on, the text after `ESC[1;32m` and before
/// `ESC[0m`.
/// Each reset sequence inside the text is followed by the opening sequence
/// again.
/// Styling is forced on for the whole process: the caller asks for color,
/// so neither the environment nor whether output is a terminal decides.
#[verifier::external_body]
fn paint_bold_green(text: &str) -> (out: String)
    ensures
        shown_with(out@, seq!['1', ';', '3', '2'], text@, true),
{
    colored::control::set_override(true);
    text.bold().green().to_string()
}

/// Relies on colored's `control::set_override`, `blue`, `underline` and its
/// `Display`: with styling forced on, the text after `ESC[4;34m` and before
/// `ESC[0m`.
/// Each reset sequence inside the text is followed by the opening sequence
/// again.
/// Styling is forced on for the whole process: the caller asks for color,
/// so neither the environment nor whether output is a terminal decides.
#[verifier::external_body]
fn paint_blue_underlined(text: &str) -> (out: String)
    ensures
        shown_with(out@, seq!['4', ';', '3', '4'], text@, true),
{
    colored::control::set_override(true);
    text.blue().underline().to_string()
}

/// The text in the foreground color `rgb` when `color` is on, else as it is.
pub fn style_rgb(text: &str, rgb: (u8, u8, u8), color: bool) -> (r: String)
    ensures
        shown_in(r@, rgb, text@, color),
{
    if color {
        paint_rgb(text, rgb.0, rgb.1, rgb.2)
    } else {
        String::from_str(text)
    }
}

/// The text in bold when `color` is on, else as it is.
pub fn style_bold(text: &str, color: bool) -> (r: String)
    ensures
        shown_with(r@, seq!['1'], text@, color),
{
    if color {
        paint_bold(text)
    } else {
        String::from_str(text)
    }
}

/// The text in bold green when `color` is on, else as it is.
pub fn style_bold_green(text: &str, color: bool) -> (r: String)
    ensures
        shown_with(r@, seq!['1', ';', '3', '2'], text@, color),
{
    if color {
        paint_bold_green(text)
    } else {
        String::from_str(text)
    }
}

/// The text blue and underlined when `color` is on, else as it is.
pub fn style_blue_underlined(text: &str, color: bool) -> (r: String)
    ensures
        shown_with(r@, seq!['4', ';', '3', '4'], text@, color),
{
    if color {
        paint_blue_underlined(text)
    } else {
        String::from_str(text)
    }
}

/// A duration string in the accuracy color for `count` submissions when
/// `color` is on, else as it is.
pub fn format_with_color(value: &str, count: u32, color: bool) -> (r: String)
    ensures
        shown_in(r@, accuracy_color(count), value@, color),
{
    let rgb = get_accuracy_color(count);
    style_rgb(value, rgb, color)
}

} // verus!
