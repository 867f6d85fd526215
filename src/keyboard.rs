//! Modifier and symbol resolver: tracks which modifier keys are held and
//! which input language is active, and turns a key transition into either a
//! change of that state or a logical symbol.
use vstd::prelude::*;

use crate::keyboard_io::{KeyEvent, Scancode};

verus! {

/// Active input language.
#[derive(Debug, Clone, Copy, PartialEq, Eq, Structural)]
pub enum InputLanguage {
    En,
    Ru,
}

/// Logical symbol of a key: a printable character or a named key.
#[derive(Debug, Clone, Copy, PartialEq, Eq, Structural)]
pub enum PressedSymbol {
    Char(char),
    ArrowUp,
    ArrowDown,
    ArrowLeft,
    ArrowRight,
    Enter,
    Backspace,
    Delete,
    Tab,
    Space,
    Escape,
}

/// The five modifier keys.
#[derive(Debug, Clone, Copy, PartialEq, Eq, Structural)]
pub enum Modifier {
    Ctrl,
    Shift,
    Opt,
    Alt,
    Fn,
}

/// Modifier flags and active language.
#[derive(Debug, Clone, Copy, PartialEq, Eq, Structural)]
pub struct InputState {
    pub ctrl_pressed: bool,
    pub shift_pressed: bool,
    pub opt_pressed: bool,
    pub alt_pressed: bool,
    pub fn_pressed: bool,
    pub lang: InputLanguage,
}

/// The modifier bound to a key, if any.
pub open spec fn modifier_of(key: Scancode) -> Option<Modifier> {
    match key {
        Scancode::Ctrl => Some(Modifier::Ctrl),
        Scancode::Shift => Some(Modifier::Shift),
        Scancode::Opt => Some(Modifier::Opt),
        Scancode::Alt => Some(Modifier::Alt),
        Scancode::Fn => Some(Modifier::Fn),
        _ => None,
    }
}

/// Symbols of the keys that carry a second legend, reached with Fn held.
pub open spec fn fn_layer(key: Scancode) -> Option<PressedSymbol> {
    match key {
        Scancode::Semicolon => Some(PressedSymbol::ArrowUp),
        Scancode::Period => Some(PressedSymbol::ArrowDown),
        Scancode::Comma => Some(PressedSymbol::ArrowLeft),
        Scancode::Slash => Some(PressedSymbol::ArrowRight),
        Scancode::Tilde => Some(PressedSymbol::Escape),
        Scancode::Backspace => Some(PressedSymbol::Delete),
        _ => None,
    }
}

/// Keys whose symbol is named in every language.
pub open spec fn named_key(key: Scancode) -> Option<PressedSymbol> {
    match key {
        Scancode::Enter => Some(PressedSymbol::Enter),
        Scancode::Backspace => Some(PressedSymbol::Backspace),
        Scancode::Tab => Some(PressedSymbol::Tab),
        Scancode::Space => Some(PressedSymbol::Space),
        _ => None,
    }
}

/// Latin layout: the character of a key without and with shift.
pub open spec fn latin_chars(key: Scancode) -> Option<(char, char)> {
    match key {
        Scancode::Z => Some(('z', 'Z')),
        Scancode::C => Some(('c', 'C')),
        Scancode::B => Some(('b', 'B')),
        Scancode::M => Some(('m', 'M')),
        Scancode::Period => Some(('.', '>')),
        Scancode::S => Some(('s', 'S')),
        Scancode::F => Some(('f', 'F')),
        Scancode::H => Some(('h', 'H')),
        Scancode::K => Some(('k', 'K')),
        Scancode::Semicolon => Some((';', ':')),
        Scancode::Q => Some(('q', 'Q')),
        Scancode::E => Some(('e', 'E')),
        Scancode::T => Some(('t', 'T')),
        Scancode::U => Some(('u', 'U')),
        Scancode::O => Some(('o', 'O')),
        Scancode::LeftSquareBracket => Some(('[', '{')),
        Scancode::BackSlash => Some(('\\', '|')),
        Scancode::_1 => Some(('1', '!')),
        Scancode::_3 => Some(('3', '#')),
        Scancode::_5 => Some(('5', '%')),
        Scancode::_7 => Some(('7', '&')),
        Scancode::_9 => Some(('9', '(')),
        Scancode::Underscore => Some(('-', '_')),
        Scancode::X => Some(('x', 'X')),
        Scancode::V => Some(('v', 'V')),
        Scancode::N => Some(('n', 'N')),
        Scancode::Comma => Some((',', '<')),
        Scancode::Slash => Some(('/', '?')),
        Scancode::A => Some(('a', 'A')),
        Scancode::D => Some(('d', 'D')),
        Scancode::G => Some(('g', 'G')),
        Scancode::J => Some(('j', 'J')),
        Scancode::L => Some(('l', 'L')),
        Scancode::Quote => Some(('\'', '"')),
        Scancode::W => Some(('w', 'W')),
        Scancode::R => Some(('r', 'R')),
        Scancode::Y => Some(('y', 'Y')),
        Scancode::I => Some(('i', 'I')),
        Scancode::P => Some(('p', 'P')),
        Scancode::RightSquareBracket => Some((']', '}')),
        Scancode::Tilde => Some(('`', '~')),
        Scancode::_2 => Some(('2', '@')),
        Scancode::_4 => Some(('4', '$')),
        Scancode::_6 => Some(('6', '^')),
        Scancode::_8 => Some(('8', '*')),
        Scancode::_0 => Some(('0', ')')),
        Scancode::Equal => Some(('=', '+')),
        _ => None,
    }
}

/// Cyrillic layout: the keys whose characters differ from the Latin layout.
pub open spec fn cyrillic_chars(key: Scancode) -> Option<(char, char)> {
    match key {
        Scancode::Q => Some(('й', 'Й')),
        Scancode::W => Some(('ц', 'Ц')),
        Scancode::E => Some(('у', 'У')),
        Scancode::R => Some(('к', 'К')),
        Scancode::T => Some(('е', 'Е')),
        Scancode::Y => Some(('н', 'Н')),
        Scancode::U => Some(('г', 'Г')),
        Scancode::I => Some(('ш', 'Ш')),
        Scancode::O => Some(('щ', 'Щ')),
        Scancode::P => Some(('з', 'З')),
        Scancode::LeftSquareBracket => Some(('х', 'Х')),
        Scancode::RightSquareBracket => Some(('ъ', 'Ъ')),
        Scancode::A => Some(('ф', 'Ф')),
        Scancode::S => Some(('ы', 'Ы')),
        Scancode::D => Some(('в', 'В')),
        Scancode::F => Some(('а', 'А')),
        Scancode::G => Some(('п', 'П')),
        Scancode::H => Some(('р', 'Р')),
        Scancode::J => Some(('о', 'О')),
        Scancode::K => Some(('л', 'Л')),
        Scancode::L => Some(('д', 'Д')),
        Scancode::Semicolon => Some(('ж', 'Ж')),
        Scancode::Quote => Some(('э', 'Э')),
        Scancode::Z => Some(('я', 'Я')),
        Scancode::X => Some(('ч', 'Ч')),
        Scancode::C => Some(('с', 'С')),
        Scancode::V => Some(('м', 'М')),
        Scancode::B => Some(('и', 'И')),
        Scancode::N => Some(('т', 'Т')),
        Scancode::M => Some(('ь', 'Ь')),
        Scancode::Comma => Some(('б', 'Б')),
        Scancode::Period => Some(('ю', 'Ю')),
        Scancode::Slash => Some(('.', ',')),
        Scancode::Tilde => Some(('ё', 'Ё')),
        _ => None,
    }
}

/// The characters of a key, without and with shift, in a language.
pub open spec fn layout_chars(lang: InputLanguage, key: Scancode) -> Option<(char, char)> {
    match lang {
        InputLanguage::En => latin_chars(key),
        InputLanguage::Ru => if cyrillic_chars(key) is Some {
            cyrillic_chars(key)
        } else {
            latin_chars(key)
        },
    }
}

/// The symbol of a non-modifier key under the current state: the Fn legend
/// when Fn is held and the key has one, else its named symbol, else its
/// character in the active language, upper form when shift is held.
pub open spec fn layout_symbol(s: InputState, key: Scancode) -> Option<PressedSymbol> {
    if s.fn_pressed && fn_layer(key) is Some {
        fn_layer(key)
    } else if named_key(key) is Some {
        named_key(key)
    } else {
        match layout_chars(s.lang, key) {
            Some((lower, upper)) => Some(
                PressedSymbol::Char(
                    if s.shift_pressed {
                        upper
                    } else {
                        lower
                    },
                ),
            ),
            None => None,
        }
    }
}

/// Ctrl together with Space switches the input language.
pub open spec fn is_language_toggle(s: InputState, key: Scancode) -> bool {
    s.ctrl_pressed && key == Scancode::Space
}

/// The language that a toggle switches to.
pub open spec fn other_language(lang: InputLanguage) -> InputLanguage {
    match lang {
        InputLanguage::En => InputLanguage::Ru,
        InputLanguage::Ru => InputLanguage::En,
    }
}

/// Whether the flag of a modifier is set.
pub open spec fn modifier_held(s: InputState, m: Modifier) -> bool {
    match m {
        Modifier::Ctrl => s.ctrl_pressed,
        Modifier::Shift => s.shift_pressed,
        Modifier::Opt => s.opt_pressed,
        Modifier::Alt => s.alt_pressed,
        Modifier::Fn => s.fn_pressed,
    }
}

/// The state with the flag of one modifier set to `down`.
pub open spec fn with_modifier(s: InputState, m: Modifier, down: bool) -> InputState {
    match m {
        Modifier::Ctrl => InputState { ctrl_pressed: down, ..s },
        Modifier::Shift => InputState { shift_pressed: down, ..s },
        Modifier::Opt => InputState { opt_pressed: down, ..s },
        Modifier::Alt => InputState { alt_pressed: down, ..s },
        Modifier::Fn => InputState { fn_pressed: down, ..s },
    }
}

/// Resolution of one transition: the next state and the symbol, if any.
/// A modifier key sets (Pressed) or clears (Released) its flag and yields no
/// symbol; the language toggle switches the language on Pressed and yields no
/// symbol; any other key leaves the state as it is and yields its layout
/// symbol, for both directions.
pub open spec fn resolve(s: InputState, event: KeyEvent, key: Scancode) -> (InputState, Option<PressedSymbol>) {
    match modifier_of(key) {
        Some(m) => (with_modifier(s, m, event == KeyEvent::Pressed), None),
        None => if is_language_toggle(s, key) {
            (
                if event == KeyEvent::Pressed {
                    InputState { lang: other_language(s.lang), ..s }
                } else {
                    s
                },
                None,
            )
        } else {
            (s, layout_symbol(s, key))
        },
    }
}

/// Pressing a modifier key sets its flag and releasing it clears it; the
/// other flags and the language stay as they were, and no symbol comes out.
pub proof fn lemma_modifier_keys(s: InputState, key: Scancode)
    requires
        modifier_of(key) is Some,
    ensures
        ({
            let m = modifier_of(key)->0;
            let (pressed, pressed_symbol) = resolve(s, KeyEvent::Pressed, key);
            let (released, released_symbol) = resolve(s, KeyEvent::Released, key);
            &&& pressed_symbol is None
            &&& released_symbol is None
            &&& modifier_held(pressed, m)
            &&& !modifier_held(released, m)
            &&& pressed.lang == s.lang
            &&& released.lang == s.lang
            &&& forall|o: Modifier|
                o != m ==> #[trigger] modifier_held(pressed, o) == modifier_held(s, o)
                    && modifier_held(released, o) == modifier_held(s, o)
        }),
{
}

/// Resolution is a function of the state, the direction and the key alone:
/// equal inputs give equal next states and equal symbols.
pub proof fn lemma_resolve_deterministic(
    s1: InputState,
    s2: InputState,
    e1: KeyEvent,
    e2: KeyEvent,
    k1: Scancode,
    k2: Scancode,
)
    requires
        s1 == s2,
        e1 == e2,
        k1 == k2,
    ensures
        resolve(s1, e1, k1) == resolve(s2, e2, k2),
{
}

/// A key that is neither a modifier nor the language toggle yields the same
/// symbol when pressed and when released, and leaves the state unchanged.
pub proof fn lemma_symbol_both_directions(s: InputState, key: Scancode)
    requires
        modifier_of(key) is None,
        !is_language_toggle(s, key),
    ensures
        resolve(s, KeyEvent::Pressed, key) == resolve(s, KeyEvent::Released, key),
        resolve(s, KeyEvent::Pressed, key).0 == s,
{
}

/// Every key that is not a modifier has a symbol in each language, with and
/// without shift and Fn.
pub proof fn lemma_layout_total(s: InputState, key: Scancode)
    requires
        modifier_of(key) is None,
    ensures
        layout_symbol(s, key) is Some,
{
}

fn modifier_key(key: Scancode) -> (r: Option<Modifier>)
    ensures
        r == modifier_of(key),
{
    match key {
        Scancode::Ctrl => Some(Modifier::Ctrl),
        Scancode::Shift => Some(Modifier::Shift),
        Scancode::Opt => Some(Modifier::Opt),
        Scancode::Alt => Some(Modifier::Alt),
        Scancode::Fn => Some(Modifier::Fn),
        _ => None,
    }
}

fn fn_layer_symbol(key: Scancode) -> (r: Option<PressedSymbol>)
    ensures
        r == fn_layer(key),
{
    match key {
        Scancode::Semicolon => Some(PressedSymbol::ArrowUp),
        Scancode::Period => Some(PressedSymbol::ArrowDown),
        Scancode::Comma => Some(PressedSymbol::ArrowLeft),
        Scancode::Slash => Some(PressedSymbol::ArrowRight),
        Scancode::Tilde => Some(PressedSymbol::Escape),
        Scancode::Backspace => Some(PressedSymbol::Delete),
        _ => None,
    }
}

fn named_symbol(key: Scancode) -> (r: Option<PressedSymbol>)
    ensures
        r == named_key(key),
{
    match key {
        Scancode::Enter => Some(PressedSymbol::Enter),
        Scancode::Backspace => Some(PressedSymbol::Backspace),
        Scancode::Tab => Some(PressedSymbol::Tab),
        Scancode::Space => Some(PressedSymbol::Space),
        _ => None,
    }
}

fn latin_pair(key: Scancode) -> (r: Option<(char, char)>)
    ensures
        r == latin_chars(key),
{
    match key {
        Scancode::Z => Some(('z', 'Z')),
        Scancode::C => Some(('c', 'C')),
        Scancode::B => Some(('b', 'B')),
        Scancode::M => Some(('m', 'M')),
        Scancode::Period => Some(('.', '>')),
        Scancode::S => Some(('s', 'S')),
        Scancode::F => Some(('f', 'F')),
        Scancode::H => Some(('h', 'H')),
        Scancode::K => Some(('k', 'K')),
        Scancode::Semicolon => Some((';', ':')),
        Scancode::Q => Some(('q', 'Q')),
        Scancode::E => Some(('e', 'E')),
        Scancode::T => Some(('t', 'T')),
        Scancode::U => Some(('u', 'U')),
        Scancode::O => Some(('o', 'O')),
        Scancode::LeftSquareBracket => Some(('[', '{')),
        Scancode::BackSlash => Some(('\\', '|')),
        Scancode::_1 => Some(('1', '!')),
        Scancode::_3 => Some(('3', '#')),
        Scancode::_5 => Some(('5', '%')),
        Scancode::_7 => Some(('7', '&')),
        Scancode::_9 => Some(('9', '(')),
        Scancode::Underscore => Some(('-', '_')),
        Scancode::X => Some(('x', 'X')),
        Scancode::V => Some(('v', 'V')),
        Scancode::N => Some(('n', 'N')),
        Scancode::Comma => Some((',', '<')),
        Scancode::Slash => Some(('/', '?')),
        Scancode::A => Some(('a', 'A')),
        Scancode::D => Some(('d', 'D')),
        Scancode::G => Some(('g', 'G')),
        Scancode::J => Some(('j', 'J')),
        Scancode::L => Some(('l', 'L')),
        Scancode::Quote => Some(('\'', '"')),
        Scancode::W => Some(('w', 'W')),
        Scancode::R => Some(('r', 'R')),
        Scancode::Y => Some(('y', 'Y')),
        Scancode::I => Some(('i', 'I')),
        Scancode::P => Some(('p', 'P')),
        Scancode::RightSquareBracket => Some((']', '}')),
        Scancode::Tilde => Some(('`', '~')),
        Scancode::_2 => Some(('2', '@')),
        Scancode::_4 => Some(('4', '$')),
        Scancode::_6 => Some(('6', '^')),
        Scancode::_8 => Some(('8', '*')),
        Scancode::_0 => Some(('0', ')')),
        Scancode::Equal => Some(('=', '+')),
        _ => None,
    }
}

fn cyrillic_pair(key: Scancode) -> (r: Option<(char, char)>)
    ensures
        r == cyrillic_chars(key),
{
    match key {
        Scancode::Q => Some(('й', 'Й')),
        Scancode::W => Some(('ц', 'Ц')),
        Scancode::E => Some(('у', 'У')),
        Scancode::R => Some(('к', 'К')),
        Scancode::T => Some(('е', 'Е')),
        Scancode::Y => Some(('н', 'Н')),
        Scancode::U => Some(('г', 'Г')),
        Scancode::I => Some(('ш', 'Ш')),
        Scancode::O => Some(('щ', 'Щ')),
        Scancode::P => Some(('з', 'З')),
        Scancode::LeftSquareBracket => Some(('х', 'Х')),
        Scancode::RightSquareBracket => Some(('ъ', 'Ъ')),
        Scancode::A => Some(('ф', 'Ф')),
        Scancode::S => Some(('ы', 'Ы')),
        Scancode::D => Some(('в', 'В')),
        Scancode::F => Some(('а', 'А')),
        Scancode::G => Some(('п', 'П')),
        Scancode::H => Some(('р', 'Р')),
        Scancode::J => Some(('о', 'О')),
        Scancode::K => Some(('л', 'Л')),
        Scancode::L => Some(('д', 'Д')),
        Scancode::Semicolon => Some(('ж', 'Ж')),
        Scancode::Quote => Some(('э', 'Э')),
        Scancode::Z => Some(('я', 'Я')),
        Scancode::X => Some(('ч', 'Ч')),
        Scancode::C => Some(('с', 'С')),
        Scancode::V => Some(('м', 'М')),
        Scancode::B => Some(('и', 'И')),
        Scancode::N => Some(('т', 'Т')),
        Scancode::M => Some(('ь', 'Ь')),
        Scancode::Comma => Some(('б', 'Б')),
        Scancode::Period => Some(('ю', 'Ю')),
        Scancode::Slash => Some(('.', ',')),
        Scancode::Tilde => Some(('ё', 'Ё')),
        _ => None,
    }
}

impl InputState {
    /// No modifier held, Latin layout active.
    pub fn new() -> (r: Self)
        ensures
            !r.ctrl_pressed && !r.shift_pressed && !r.opt_pressed && !r.alt_pressed && !r.fn_pressed,
            r.lang == InputLanguage::En,
    {
        InputState {
            ctrl_pressed: false,
            shift_pressed: false,
            opt_pressed: false,
            alt_pressed: false,
            fn_pressed: false,
            lang: InputLanguage::En,
        }
    }

    /// The symbol that a non-modifier key has under this state.
    pub fn symbol_for(&self, key: Scancode) -> (r: Option<PressedSymbol>)
        ensures
            r == layout_symbol(*self, key),
    {
        if self.fn_pressed {
            let f = fn_layer_symbol(key);
            if f.is_some() {
                return f;
            }
        }
        let named = named_symbol(key);
        if named.is_some() {
            return named;
        }
        let chars = match self.lang {
            InputLanguage::En => latin_pair(key),
            InputLanguage::Ru => {
                let c = cyrillic_pair(key);
                if c.is_some() {
                    c
                } else {
                    latin_pair(key)
                }
            },
        };
        match chars {
            Some((lower, upper)) => Some(
                PressedSymbol::Char(
                    if self.shift_pressed {
                        upper
                    } else {
                        lower
                    },
                ),
            ),
            None => None,
        }
    }

    /// Takes one key transition: a modifier key updates its flag, the
    /// language toggle switches the language, and any other key yields its
    /// symbol under the current state (for both directions).
    pub fn eat_keys(&mut self, event: KeyEvent, key: Scancode) -> (r: Option<PressedSymbol>)
        ensures
            (*final(self), r) == resolve(*old(self), event, key),
    {
        let down = event == KeyEvent::Pressed;
        match modifier_key(key) {
            Some(Modifier::Ctrl) => {
                self.ctrl_pressed = down;
                None
            },
            Some(Modifier::Shift) => {
                self.shift_pressed = down;
                None
            },
            Some(Modifier::Opt) => {
                self.opt_pressed = down;
                None
            },
            Some(Modifier::Alt) => {
                self.alt_pressed = down;
                None
            },
            Some(Modifier::Fn) => {
                self.fn_pressed = down;
                None
            },
            None => {
                if self.ctrl_pressed && key == Scancode::Space {
                    if down {
                        self.lang = match self.lang {
                            InputLanguage::En => InputLanguage::Ru,
                            InputLanguage::Ru => InputLanguage::En,
                        };
                    }
                    None
                } else {
                    self.symbol_for(key)
                }
            },
        }
    }
}

} // verus!
