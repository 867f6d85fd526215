//! The main menu: two entries, chosen with the arrow keys and confirmed with
//! Enter; Opt+F toggles the frame-rate overlay.
use vstd::prelude::*;

use crate::keyboard::PressedSymbol;
use crate::keyboard_io::{KeyEvent, Scancode};
use crate::keyboard_state::KeyboardState;
use crate::ui::{Frame, TextLine, UiColor, line_is};
use crate::view_manager::CardputerView;
use crate::views::start::StartView;

verus! {

/// The entries of the main menu.
#[derive(Debug, Clone, Copy, PartialEq, Eq, Structural)]
pub enum MainMenuOption {
    Nothing,
    ConnectWifiAndUpdateNtp,
}

/// The main menu view.
#[derive(Debug, Clone, Copy, PartialEq, Eq, Structural)]
pub struct MainMenuView {
    pub show_fps: bool,
    pub current_option: Option<MainMenuOption>,
}

/// A fresh menu: no entry selected, no frame-rate overlay.
pub open spec fn default_menu() -> MainMenuView {
    MainMenuView { show_fps: false, current_option: None }
}

/// The menu after one update with `ks`, and the view it hands over to.
/// Opt held while F is pressed toggles the overlay; a press of ArrowDown
/// selects the network entry, of ArrowUp the other one; a press of Enter
/// while the network entry is selected hands over to the start view.
pub open spec fn menu_update(m: MainMenuView, ks: KeyboardState) -> (MainMenuView, Option<CardputerView>) {
    let show_fps = if ks.input_state.opt_pressed && ks.key == Some((KeyEvent::Pressed, Scancode::F)) {
        !m.show_fps
    } else {
        m.show_fps
    };
    let kept = MainMenuView { show_fps, current_option: m.current_option };
    match ks.pressed {
        Some((KeyEvent::Pressed, PressedSymbol::ArrowDown)) => (
            MainMenuView { show_fps, current_option: Some(MainMenuOption::ConnectWifiAndUpdateNtp) },
            None,
        ),
        Some((KeyEvent::Pressed, PressedSymbol::ArrowUp)) => (
            MainMenuView { show_fps, current_option: Some(MainMenuOption::Nothing) },
            None,
        ),
        Some((KeyEvent::Pressed, PressedSymbol::Enter)) => if m.current_option == Some(
            MainMenuOption::ConnectWifiAndUpdateNtp,
        ) {
            (kept, Some(CardputerView::Start(StartView {})))
        } else {
            (kept, None)
        },
        _ => (kept, None),
    }
}

/// Label of an entry, marked when it is the selected one.
pub open spec fn entry_text(selected: bool, label: Seq<char>) -> Seq<char> {
    if selected {
        "> "@ + label
    } else {
        "  "@ + label
    }
}

/// Color of an entry: light blue when selected, white otherwise.
pub open spec fn entry_color(selected: bool) -> UiColor {
    if selected {
        UiColor::LightBlue
    } else {
        UiColor::White
    }
}

/// The frame of the menu: its two entries, and the overlay setting.
pub open spec fn menu_frame(m: MainMenuView, f: Frame) -> bool {
    let first = m.current_option == Some(MainMenuOption::Nothing);
    let second = m.current_option == Some(MainMenuOption::ConnectWifiAndUpdateNtp);
    &&& f.lines@.len() == 2
    &&& line_is(f.lines@[0], entry_text(first, "Nothing"@), 0, 8, entry_color(first))
    &&& line_is(
        f.lines@[1],
        entry_text(second, "Connect Wifi and Update Ntp"@),
        0,
        21,
        entry_color(second),
    )
    &&& f.show_fps == Some(m.show_fps)
}

impl Default for MainMenuView {
    fn default() -> (r: Self)
        ensures
            r == default_menu(),
    {
        MainMenuView { show_fps: false, current_option: None }
    }
}

fn entry_line(selected: bool, marked: &str, unmarked: &str, y: i32) -> (r: TextLine)
    ensures
        r.text@ == (if selected { marked@ } else { unmarked@ }),
        r.x == 0,
        r.y == y,
        r.color == entry_color(selected),
{
    if selected {
        TextLine { text: String::from_str(marked), x: 0, y, color: UiColor::LightBlue }
    } else {
        TextLine { text: String::from_str(unmarked), x: 0, y, color: UiColor::White }
    }
}

impl MainMenuView {
    /// The menu shows the status bar.
    pub fn is_need_top_line(&self) -> (r: bool)
        ensures
            r,
    {
        true
    }

    /// The menu is redrawn from a cleared frame each tick.
    pub fn is_need_clear_on_update(&self) -> (r: bool)
        ensures
            r,
    {
        true
    }

    /// Reacts to the input of one tick; returns the view to hand over to.
    pub fn update(&mut self, keyboard_state: &KeyboardState) -> (r: Option<CardputerView>)
        ensures
            (*final(self), r) == menu_update(*old(self), *keyboard_state),
    {
        if keyboard_state.input_state.opt_pressed {
            match keyboard_state.key {
                Some((KeyEvent::Pressed, Scancode::F)) => {
                    self.show_fps = !self.show_fps;
                },
                _ => {},
            }
        }
        match keyboard_state.pressed {
            Some((KeyEvent::Pressed, PressedSymbol::ArrowDown)) => {
                self.current_option = Some(MainMenuOption::ConnectWifiAndUpdateNtp);
            },
            Some((KeyEvent::Pressed, PressedSymbol::ArrowUp)) => {
                self.current_option = Some(MainMenuOption::Nothing);
            },
            Some((KeyEvent::Pressed, PressedSymbol::Enter)) => {
                match self.current_option {
                    Some(MainMenuOption::ConnectWifiAndUpdateNtp) => {
                        return Some(CardputerView::Start(StartView {}));
                    },
                    _ => {},
                }
            },
            _ => {},
        }
        None
    }

    /// The two entries, the selected one marked and in light blue, and the
    /// overlay setting.
    pub fn draw(&self) -> (r: Frame)
        ensures
            menu_frame(*self, r),
    {
        let first = match self.current_option {
            Some(MainMenuOption::Nothing) => true,
            _ => false,
        };
        let second = match self.current_option {
            Some(MainMenuOption::ConnectWifiAndUpdateNtp) => true,
            _ => false,
        };
        let mut lines: Vec<TextLine> = Vec::new();
        lines.push(entry_line(first, "> Nothing", "  Nothing", 8));
        lines.push(
            entry_line(
                second,
                "> Connect Wifi and Update Ntp",
                "  Connect Wifi and Update Ntp",
                21,
            ),
        );
        proof {
            reveal_strlit("> Nothing");
            reveal_strlit("  Nothing");
            reveal_strlit("Nothing");
            reveal_strlit("> Connect Wifi and Update Ntp");
            reveal_strlit("  Connect Wifi and Update Ntp");
            reveal_strlit("Connect Wifi and Update Ntp");
            reveal_strlit("> ");
            reveal_strlit("  ");
            assert("> Nothing"@ =~= "> "@ + "Nothing"@);
            assert("  Nothing"@ =~= "  "@ + "Nothing"@);
            assert("> Connect Wifi and Update Ntp"@ =~= "> "@ + "Connect Wifi and Update Ntp"@);
            assert("  Connect Wifi and Update Ntp"@ =~= "  "@ + "Connect Wifi and Update Ntp"@);
        }
        Frame { lines, show_fps: Some(self.show_fps) }
    }
}

} // verus!
