use cardworder::keyboard::{InputLanguage, InputState, PressedSymbol};
use cardworder::keyboard_io::{KeyEvent, Scancode};
use cardworder::keyboard_state::KeyboardState;

#[test]
fn letter_without_shift() {
    let mut s = InputState::new();
    assert_eq!(
        s.eat_keys(KeyEvent::Pressed, Scancode::H),
        Some(PressedSymbol::Char('h'))
    );
}

#[test]
fn letter_with_shift() {
    let mut s = InputState::new();
    s.shift_pressed = true;
    assert_eq!(
        s.eat_keys(KeyEvent::Pressed, Scancode::H),
        Some(PressedSymbol::Char('H'))
    );
}

#[test]
fn shift_key_then_letter() {
    let mut s = InputState::new();
    assert_eq!(s.eat_keys(KeyEvent::Pressed, Scancode::Shift), None);
    assert_eq!(
        s.eat_keys(KeyEvent::Pressed, Scancode::_2),
        Some(PressedSymbol::Char('@'))
    );
    assert_eq!(s.eat_keys(KeyEvent::Released, Scancode::Shift), None);
    assert_eq!(
        s.eat_keys(KeyEvent::Pressed, Scancode::_2),
        Some(PressedSymbol::Char('2'))
    );
}

#[test]
fn arrow_down_press_then_release() {
    let mut s = InputState::new();
    assert_eq!(s.eat_keys(KeyEvent::Pressed, Scancode::Fn), None);
    assert_eq!(
        s.eat_keys(KeyEvent::Pressed, Scancode::Period),
        Some(PressedSymbol::ArrowDown)
    );
    assert_eq!(
        s.eat_keys(KeyEvent::Released, Scancode::Period),
        Some(PressedSymbol::ArrowDown)
    );
}

#[test]
fn arrow_down_through_keyboard_state() {
    let mut ks = KeyboardState::new();
    ks.update(Some((KeyEvent::Pressed, Scancode::Fn)));
    assert_eq!(ks.pressed, None);
    ks.update(Some((KeyEvent::Pressed, Scancode::Period)));
    assert_eq!(ks.pressed, Some((KeyEvent::Pressed, PressedSymbol::ArrowDown)));
    ks.update(Some((KeyEvent::Released, Scancode::Period)));
    assert_eq!(ks.pressed, Some((KeyEvent::Released, PressedSymbol::ArrowDown)));
    assert_eq!(ks.key, Some((KeyEvent::Released, Scancode::Period)));
}

#[test]
fn fn_layer_other_keys() {
    let mut s = InputState::new();
    s.fn_pressed = true;
    assert_eq!(s.eat_keys(KeyEvent::Pressed, Scancode::Semicolon), Some(PressedSymbol::ArrowUp));
    assert_eq!(s.eat_keys(KeyEvent::Pressed, Scancode::Comma), Some(PressedSymbol::ArrowLeft));
    assert_eq!(s.eat_keys(KeyEvent::Pressed, Scancode::Slash), Some(PressedSymbol::ArrowRight));
    assert_eq!(s.eat_keys(KeyEvent::Pressed, Scancode::Tilde), Some(PressedSymbol::Escape));
    assert_eq!(s.eat_keys(KeyEvent::Pressed, Scancode::Backspace), Some(PressedSymbol::Delete));
    // keys without a second legend keep their character
    assert_eq!(s.eat_keys(KeyEvent::Pressed, Scancode::K), Some(PressedSymbol::Char('k')));
}

#[test]
fn named_keys() {
    let mut s = InputState::new();
    assert_eq!(s.eat_keys(KeyEvent::Pressed, Scancode::Enter), Some(PressedSymbol::Enter));
    assert_eq!(s.eat_keys(KeyEvent::Pressed, Scancode::Backspace), Some(PressedSymbol::Backspace));
    assert_eq!(s.eat_keys(KeyEvent::Pressed, Scancode::Tab), Some(PressedSymbol::Tab));
    assert_eq!(s.eat_keys(KeyEvent::Pressed, Scancode::Space), Some(PressedSymbol::Space));
    assert_eq!(s.eat_keys(KeyEvent::Pressed, Scancode::Semicolon), Some(PressedSymbol::Char(';')));
}

#[test]
fn modifier_flags_follow_press_and_release() {
    let cases = [
        Scancode::Ctrl,
        Scancode::Shift,
        Scancode::Opt,
        Scancode::Alt,
        Scancode::Fn,
    ];
    for key in cases {
        let mut s = InputState::new();
        assert_eq!(s.eat_keys(KeyEvent::Pressed, key), None);
        let held = match key {
            Scancode::Ctrl => s.ctrl_pressed,
            Scancode::Shift => s.shift_pressed,
            Scancode::Opt => s.opt_pressed,
            Scancode::Alt => s.alt_pressed,
            _ => s.fn_pressed,
        };
        assert!(held);
        let flags = [s.ctrl_pressed, s.shift_pressed, s.opt_pressed, s.alt_pressed, s.fn_pressed];
        assert_eq!(flags.iter().filter(|f| **f).count(), 1);
        assert_eq!(s.eat_keys(KeyEvent::Released, key), None);
        assert_eq!(s, InputState::new());
    }
}

#[test]
fn resolution_is_deterministic() {
    let mut a = InputState::new();
    a.shift_pressed = true;
    a.lang = InputLanguage::Ru;
    let mut b = a;
    assert_eq!(
        a.eat_keys(KeyEvent::Released, Scancode::Comma),
        b.eat_keys(KeyEvent::Released, Scancode::Comma)
    );
    assert_eq!(a, b);
    assert_eq!(
        a.eat_keys(KeyEvent::Pressed, Scancode::Comma),
        Some(PressedSymbol::Char('Б'))
    );
}

#[test]
fn ctrl_space_switches_language() {
    let mut s = InputState::new();
    s.eat_keys(KeyEvent::Pressed, Scancode::Ctrl);
    assert_eq!(s.eat_keys(KeyEvent::Pressed, Scancode::Space), None);
    assert_eq!(s.lang, InputLanguage::Ru);
    assert_eq!(s.eat_keys(KeyEvent::Released, Scancode::Space), None);
    assert_eq!(s.lang, InputLanguage::Ru);
    s.eat_keys(KeyEvent::Released, Scancode::Ctrl);
    assert_eq!(s.eat_keys(KeyEvent::Pressed, Scancode::H), Some(PressedSymbol::Char('р')));
    assert_eq!(s.eat_keys(KeyEvent::Pressed, Scancode::_7), Some(PressedSymbol::Char('7')));
    s.eat_keys(KeyEvent::Pressed, Scancode::Shift);
    assert_eq!(s.eat_keys(KeyEvent::Pressed, Scancode::Q), Some(PressedSymbol::Char('Й')));
    assert_eq!(s.eat_keys(KeyEvent::Pressed, Scancode::Slash), Some(PressedSymbol::Char(',')));
    s.eat_keys(KeyEvent::Pressed, Scancode::Ctrl);
    s.eat_keys(KeyEvent::Pressed, Scancode::Space);
    assert_eq!(s.lang, InputLanguage::En);
}

#[test]
fn keyboard_state_without_transition() {
    let mut ks = KeyboardState::new();
    ks.update(Some((KeyEvent::Pressed, Scancode::A)));
    assert_eq!(ks.pressed, Some((KeyEvent::Pressed, PressedSymbol::Char('a'))));
    ks.update(None);
    assert_eq!(ks.key, None);
    assert_eq!(ks.pressed, None);
    assert_eq!(ks.input_state, InputState::new());
}
