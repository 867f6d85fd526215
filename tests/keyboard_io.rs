use cardworder::keyboard_io::{scancode_at, CardputerKeyboard, KeyEvent, Scancode};

fn snapshot_with(reg: usize, bits: u8) -> [u8; 8] {
    let mut s = [0u8; 8];
    s[reg] = bits;
    s
}

#[test]
fn key_table_positions() {
    assert_eq!(scancode_at(0, 0), Scancode::Opt);
    assert_eq!(scancode_at(0, 6), Scancode::Space);
    assert_eq!(scancode_at(1, 3), Scancode::H);
    assert_eq!(scancode_at(0, 5), Scancode::Period);
    assert_eq!(scancode_at(5, 0), Scancode::Fn);
    assert_eq!(scancode_at(7, 6), Scancode::Equal);
}

#[test]
fn new_detector_has_nothing_down() {
    let k = CardputerKeyboard::new();
    assert_eq!(k.state(), [0u8; 8]);
}

#[test]
fn single_press_is_reported() {
    let mut k = CardputerKeyboard::new();
    let keys = snapshot_with(1, 1 << 3);
    assert_eq!(k.read_events(keys), Some((KeyEvent::Pressed, Scancode::H)));
    assert_eq!(k.state(), keys);
}

#[test]
fn single_release_is_reported() {
    let mut k = CardputerKeyboard::new();
    k.read_events(snapshot_with(1, 1 << 3));
    assert_eq!(k.read_events([0u8; 8]), Some((KeyEvent::Released, Scancode::H)));
}

#[test]
fn second_poll_without_change_is_quiet() {
    let mut k = CardputerKeyboard::new();
    let keys = snapshot_with(6, 1 << 5);
    assert_eq!(k.read_events(keys), Some((KeyEvent::Pressed, Scancode::P)));
    assert_eq!(k.read_events(keys), None);
    assert_eq!(k.read_events(keys), None);
}

#[test]
fn two_changes_report_the_first_in_scan_order() {
    let mut k = CardputerKeyboard::new();
    let mut keys = [0u8; 8];
    keys[2] = 1 << 4; // O
    keys[5] = 1 << 1; // A
    assert_eq!(k.read_events(keys), Some((KeyEvent::Pressed, Scancode::O)));
    assert_eq!(k.read_events(keys), None);
    assert_eq!(k.state(), keys);
}

#[test]
fn two_changes_in_one_register_report_the_lower_bit() {
    let mut k = CardputerKeyboard::new();
    let keys = snapshot_with(0, (1 << 6) | (1 << 2));
    assert_eq!(k.read_events(keys), Some((KeyEvent::Pressed, Scancode::C)));
    assert_eq!(k.read_events(keys), None);
}

#[test]
fn press_and_release_in_one_poll() {
    let mut k = CardputerKeyboard::new();
    k.read_events(snapshot_with(3, 1 << 6));
    // Backspace released, Tilde pressed: the release comes first in scan order.
    let mut keys = [0u8; 8];
    keys[7] = 1;
    assert_eq!(k.read_events(keys), Some((KeyEvent::Released, Scancode::Backspace)));
    assert_eq!(k.read_events(keys), None);
}

#[test]
fn bit_outside_the_matrix_is_not_a_key() {
    let mut k = CardputerKeyboard::new();
    assert_eq!(k.read_events(snapshot_with(4, 0x80)), None);
    assert_eq!(k.state(), snapshot_with(4, 0x80));
}

#[test]
fn raw_events_are_the_changed_bits() {
    let mut k = CardputerKeyboard::new();
    k.read_events_raw([1, 2, 3, 4, 5, 6, 7, 8]);
    let d = k.read_events_raw([1, 3, 0, 4, 4, 6, 0x7f, 0]);
    assert_eq!(d, [0, 1, 3, 0, 1, 0, 0x78, 8]);
    assert_eq!(k.state(), [1, 3, 0, 4, 4, 6, 0x7f, 0]);
}

#[test]
fn pressed_keys_in_scan_order() {
    let mut raw = [0u8; 8];
    raw[0] = 0b100_0001; // Opt, Space
    raw[1] = 0b000_1000; // H
    raw[7] = 0b100_0000; // Equal
    assert_eq!(
        CardputerKeyboard::read_keys(raw),
        vec![Scancode::Opt, Scancode::Space, Scancode::H, Scancode::Equal]
    );
    assert_eq!(CardputerKeyboard::read_keys([0u8; 8]), vec![]);
}

#[test]
fn all_keys_down() {
    let keys = CardputerKeyboard::read_keys([0x7f; 8]);
    assert_eq!(keys.len(), 56);
    assert_eq!(keys[0], Scancode::Opt);
    assert_eq!(keys[55], Scancode::Equal);
}

#[test]
fn column_lines_are_active_low() {
    let low = [true, false, false, true, false, false, true];
    assert_eq!(CardputerKeyboard::read_columns(low), 0b100_1001);
    assert_eq!(CardputerKeyboard::read_columns([false; 7]), 0);
    assert_eq!(CardputerKeyboard::read_columns([true; 7]), 0x7f);
}

#[test]
fn row_select_code() {
    assert_eq!(CardputerKeyboard::mux_levels(0), [false, false, false]);
    assert_eq!(CardputerKeyboard::mux_levels(5), [true, false, true]);
    assert_eq!(CardputerKeyboard::mux_levels(6), [false, true, true]);
    assert_eq!(CardputerKeyboard::mux_levels(7), [true, true, true]);
}
