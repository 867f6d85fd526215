//! The input of one tick: the raw transition of the last poll, the modifier
//! and language state, and the resolved symbol.
use vstd::prelude::*;

use crate::keyboard::{resolve, InputState, PressedSymbol};
use crate::keyboard_io::{KeyEvent, Scancode};

verus! {

/// Input snapshot handed to the views each tick.
pub struct KeyboardState {
    pub key: Option<(KeyEvent, Scancode)>,
    pub input_state: InputState,
    pub pressed: Option<(KeyEvent, PressedSymbol)>,
}

/// The input snapshot after a poll that reported `key`: the transition is
/// kept as it is, and resolved against the held modifiers and language; the
/// symbol, if any, carries the direction of the transition.
pub open spec fn next_keyboard_state(ks: KeyboardState, key: Option<(KeyEvent, Scancode)>) -> KeyboardState {
    match key {
        Some((event, code)) => {
            let (input_state, symbol) = resolve(ks.input_state, event, code);
            KeyboardState {
                key,
                input_state,
                pressed: match symbol {
                    Some(sym) => Some((event, sym)),
                    None => None,
                },
            }
        },
        None => KeyboardState { key: None, input_state: ks.input_state, pressed: None },
    }
}

impl KeyboardState {
    /// No transition, no symbol, no modifier held, Latin layout.
    pub fn new() -> (r: Self)
        ensures
            r.key is None,
            r.pressed is None,
            r.input_state == (InputState {
                ctrl_pressed: false,
                shift_pressed: false,
                opt_pressed: false,
                alt_pressed: false,
                fn_pressed: false,
                lang: crate::keyboard::InputLanguage::En,
            }),
    {
        KeyboardState { key: None, input_state: InputState::new(), pressed: None }
    }

    /// Takes the transition reported by a poll of the keyboard.
    pub fn update(&mut self, key: Option<(KeyEvent, Scancode)>)
        ensures
            *final(self) == next_keyboard_state(*old(self), key),
    {
        let pressed = match key {
            Some((event, code)) => match self.input_state.eat_keys(event, code) {
                Some(sym) => Some((event, sym)),
                None => None,
            },
            None => None,
        };
        self.key = key;
        self.pressed = pressed;
    }
}

} // verus!
