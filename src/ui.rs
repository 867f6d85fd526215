//! What the views and the status bar put on screen, as plain values that a
//! renderer draws: colors, text lines, and the content of the status bar.
use vstd::prelude::*;

use crate::keyboard::{InputLanguage, InputState, PressedSymbol};
use crate::keyboard_io::KeyEvent;

verus! {

/// The colors that the user interface uses.
#[derive(Debug, Clone, Copy, PartialEq, Eq, Structural)]
pub enum UiColor {
    Black,
    White,
    LightBlue,
    Blue,
    Red,
    Gray,
    DarkGray,
}

/// One line of text at a position of the screen.
pub struct TextLine {
    pub text: String,
    pub x: i32,
    pub y: i32,
    pub color: UiColor,
}

/// What a view draws in one tick: its text lines, and whether the frame-rate
/// overlay is to be shown from now on (`None`: left as it is).
pub struct Frame {
    pub lines: Vec<TextLine>,
    pub show_fps: Option<bool>,
}

/// The text line has the given content, position and color.
pub open spec fn line_is(l: TextLine, text: Seq<char>, x: int, y: int, color: UiColor) -> bool {
    l.text@ == text && l.x == x && l.y == y && l.color == color
}

/// Relies on `String::push`, which appends one character to the string.
#[verifier::external_body]
fn push_char(s: &mut String, c: char)
    ensures
        final(s)@ == old(s)@.push(c),
{
    s.push(c);
}

/// The decimal digit `d`.
pub open spec fn digit_char(d: u8) -> char {
    match d {
        0 => '0',
        1 => '1',
        2 => '2',
        3 => '3',
        4 => '4',
        5 => '5',
        6 => '6',
        7 => '7',
        8 => '8',
        _ => '9',
    }
}

/// A number below 100 written with two digits.
pub open spec fn two_digits(n: u8) -> Seq<char> {
    seq![digit_char(n / 10), digit_char(n % 10)]
}

/// Wall-clock time as `HH:MM:SS`.
pub open spec fn clock_text(hour: u8, minute: u8, second: u8) -> Seq<char> {
    two_digits(hour).push(':') + two_digits(minute).push(':') + two_digits(second)
}

/// Abbreviations of the held modifiers, each followed by a space, in the
/// order Fn, Shift, Alt, Ctrl, Opt.
pub open spec fn modifier_text(s: InputState) -> Seq<char> {
    (if s.fn_pressed { "Fn "@ } else { Seq::empty() }) + (if s.shift_pressed {
        "Shft "@
    } else {
        Seq::empty()
    }) + (if s.alt_pressed { "Alt "@ } else { Seq::empty() }) + (if s.ctrl_pressed {
        "Ctrl "@
    } else {
        Seq::empty()
    }) + (if s.opt_pressed { "Opt "@ } else { Seq::empty() })
}

/// The last symbol, when it is a character: `P ` or `R ` for the direction,
/// then the character.
pub open spec fn pressed_text(p: Option<(KeyEvent, PressedSymbol)>) -> Option<Seq<char>> {
    match p {
        Some((event, PressedSymbol::Char(c))) => Some(
            (if event == KeyEvent::Pressed {
                "P "@
            } else {
                "R "@
            }).push(c),
        ),
        _ => None,
    }
}

/// Label of the active language.
pub open spec fn language_text(lang: InputLanguage) -> Seq<char> {
    match lang {
        InputLanguage::En => "ENG"@,
        InputLanguage::Ru => "РУС"@,
    }
}

/// Color of the label of the active language.
pub open spec fn language_color(lang: InputLanguage) -> UiColor {
    match lang {
        InputLanguage::En => UiColor::Blue,
        InputLanguage::Ru => UiColor::Red,
    }
}

/// Content of the status bar, left to right: language, held modifiers, last
/// character with its direction, wall-clock time.
pub struct TopLine {
    pub language: String,
    pub language_color: UiColor,
    pub modifiers: String,
    pub pressed: Option<String>,
    pub time: String,
}

fn digit(d: u8) -> (r: char)
    requires
        d < 10,
    ensures
        r == digit_char(d),
{
    match d {
        0 => '0',
        1 => '1',
        2 => '2',
        3 => '3',
        4 => '4',
        5 => '5',
        6 => '6',
        7 => '7',
        8 => '8',
        _ => '9',
    }
}

fn push_two_digits(s: &mut String, n: u8)
    requires
        n < 100,
    ensures
        final(s)@ == old(s)@ + two_digits(n),
{
    push_char(s, digit(n / 10));
    push_char(s, digit(n % 10));
    assert(final(s)@ =~= old(s)@ + two_digits(n));
}

/// Writes a wall-clock time as `HH:MM:SS`.
pub fn format_clock(hour: u8, minute: u8, second: u8) -> (r: String)
    requires
        hour < 24,
        minute < 60,
        second < 61,
    ensures
        r@ == clock_text(hour, minute, second),
{
    let mut r = String::new();
    push_two_digits(&mut r, hour);
    push_char(&mut r, ':');
    push_two_digits(&mut r, minute);
    push_char(&mut r, ':');
    push_two_digits(&mut r, second);
    assert(r@ =~= clock_text(hour, minute, second));
    r
}

/// The abbreviations of the held modifiers.
pub fn modifier_labels(s: &InputState) -> (r: String)
    ensures
        r@ == modifier_text(*s),
{
    let mut r = String::new();
    if s.fn_pressed {
        r.append("Fn ");
    }
    if s.shift_pressed {
        r.append("Shft ");
    }
    if s.alt_pressed {
        r.append("Alt ");
    }
    if s.ctrl_pressed {
        r.append("Ctrl ");
    }
    if s.opt_pressed {
        r.append("Opt ");
    }
    assert(r@ =~= modifier_text(*s));
    r
}

/// The last symbol as shown in the status bar, when it is a character.
pub fn pressed_label(p: &Option<(KeyEvent, PressedSymbol)>) -> (r: Option<String>)
    ensures
        match r {
            Some(t) => pressed_text(*p) == Some(t@),
            None => pressed_text(*p) is None,
        },
{
    match p {
        Some((event, PressedSymbol::Char(c))) => {
            let mut t = match event {
                KeyEvent::Pressed => String::from_str("P "),
                KeyEvent::Released => String::from_str("R "),
            };
            push_char(&mut t, *c);
            Some(t)
        },
        _ => None,
    }
}

/// The content of the status bar for the given input and time of day.
pub fn top_line(
    input_state: &InputState,
    pressed: &Option<(KeyEvent, PressedSymbol)>,
    hour: u8,
    minute: u8,
    second: u8,
) -> (r: TopLine)
    requires
        hour < 24,
        minute < 60,
        second < 61,
    ensures
        r.language@ == language_text(input_state.lang),
        r.language_color == language_color(input_state.lang),
        r.modifiers@ == modifier_text(*input_state),
        match r.pressed {
            Some(t) => pressed_text(*pressed) == Some(t@),
            None => pressed_text(*pressed) is None,
        },
        r.time@ == clock_text(hour, minute, second),
{
    let (language, language_color) = match input_state.lang {
        InputLanguage::En => (String::from_str("ENG"), UiColor::Blue),
        InputLanguage::Ru => (String::from_str("РУС"), UiColor::Red),
    };
    TopLine {
        language,
        language_color,
        modifiers: modifier_labels(input_state),
        pressed: pressed_label(pressed),
        time: format_clock(hour, minute, second),
    }
}

} // verus!
