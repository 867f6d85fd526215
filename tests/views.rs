use cardworder::keyboard::PressedSymbol;
use cardworder::keyboard_io::{KeyEvent, Scancode};
use cardworder::keyboard_state::KeyboardState;
use cardworder::ui::UiColor;
use cardworder::view_manager::{CardputerView, ViewKind, ViewManager};
use cardworder::views::main_menu::{MainMenuOption, MainMenuView};
use cardworder::views::start::{StartView, StartupAction, StartupFailure, StartupStep, StepOutcome};

fn input(key: Option<(KeyEvent, Scancode)>) -> KeyboardState {
    let mut ks = KeyboardState::new();
    ks.update(key);
    ks
}

fn symbol(event: KeyEvent, sym: PressedSymbol) -> KeyboardState {
    let mut ks = KeyboardState::new();
    ks.pressed = Some((event, sym));
    ks
}

#[test]
fn menu_arrows_select_entries() {
    let mut m = MainMenuView::default();
    assert!(m.update(&symbol(KeyEvent::Pressed, PressedSymbol::ArrowDown)).is_none());
    assert_eq!(m.current_option, Some(MainMenuOption::ConnectWifiAndUpdateNtp));
    assert!(m.update(&symbol(KeyEvent::Pressed, PressedSymbol::ArrowUp)).is_none());
    assert_eq!(m.current_option, Some(MainMenuOption::Nothing));
    // a release changes nothing
    assert!(m.update(&symbol(KeyEvent::Released, PressedSymbol::ArrowDown)).is_none());
    assert_eq!(m.current_option, Some(MainMenuOption::Nothing));
}

#[test]
fn menu_enter_on_network_entry_starts() {
    let mut m = MainMenuView::default();
    assert!(m.update(&symbol(KeyEvent::Pressed, PressedSymbol::Enter)).is_none());
    m.update(&symbol(KeyEvent::Pressed, PressedSymbol::ArrowDown));
    let next = m.update(&symbol(KeyEvent::Pressed, PressedSymbol::Enter));
    assert_eq!(next, Some(CardputerView::Start(StartView {})));
}

#[test]
fn menu_opt_f_toggles_overlay() {
    let mut m = MainMenuView::default();
    let mut ks = input(Some((KeyEvent::Pressed, Scancode::Opt)));
    ks.update(Some((KeyEvent::Pressed, Scancode::F)));
    m.update(&ks);
    assert!(m.show_fps);
    m.update(&ks);
    assert!(!m.show_fps);
    // F alone does not toggle
    m.update(&input(Some((KeyEvent::Pressed, Scancode::F))));
    assert!(!m.show_fps);
}

#[test]
fn menu_frame_marks_selection() {
    let mut m = MainMenuView::default();
    let f = m.draw();
    assert_eq!(f.lines.len(), 2);
    assert_eq!(f.lines[0].text, "  Nothing");
    assert_eq!(f.lines[0].color, UiColor::White);
    assert_eq!((f.lines[0].x, f.lines[0].y), (0, 8));
    assert_eq!(f.lines[1].text, "  Connect Wifi and Update Ntp");
    assert_eq!((f.lines[1].x, f.lines[1].y), (0, 21));
    assert_eq!(f.show_fps, Some(false));
    m.current_option = Some(MainMenuOption::ConnectWifiAndUpdateNtp);
    let f = m.draw();
    assert_eq!(f.lines[0].text, "  Nothing");
    assert_eq!(f.lines[1].text, "> Connect Wifi and Update Ntp");
    assert_eq!(f.lines[1].color, UiColor::LightBlue);
}

#[test]
fn start_view_hands_over_to_menu() {
    let mut s = StartView {};
    assert!(!s.is_need_top_line());
    assert!(!s.is_need_clear_on_update());
    assert_eq!(
        s.update(&KeyboardState::new()),
        Some(CardputerView::MainMenu(MainMenuView::default()))
    );
    let f = s.draw();
    assert!(f.lines.is_empty());
    assert_eq!(f.show_fps, None);
}

#[test]
fn first_tick_initialises_the_view() {
    let mut vm = ViewManager::new(CardputerView::MainMenu(MainMenuView::default()));
    assert!(vm.view_need_init());
    let plan = vm.loop_logic(&KeyboardState::new());
    assert_eq!(plan.init, Some(ViewKind::MainMenu));
    assert!(!plan.switched);
    assert!(plan.clear);
    assert!(plan.top_line);
    assert!(!vm.view_need_init());
    let plan = vm.loop_logic(&KeyboardState::new());
    assert_eq!(plan.init, None);
}

#[test]
fn hand_over_takes_effect_in_the_same_tick() {
    let mut vm = ViewManager::new(CardputerView::MainMenu(MainMenuView::default()));
    vm.loop_logic(&symbol(KeyEvent::Pressed, PressedSymbol::ArrowDown));
    // tick N: Enter on the network entry hands over to the start view
    let plan = vm.loop_logic(&symbol(KeyEvent::Pressed, PressedSymbol::Enter));
    assert!(plan.switched);
    assert_eq!(plan.init, None);
    assert_eq!(*vm.current_view(), CardputerView::Start(StartView {}));
    assert!(vm.view_need_init());
    assert!(!plan.clear);
    assert!(!plan.top_line);
    assert!(plan.frame.lines.is_empty());
    // tick N+1: the start view is initialised first, then hands over to a fresh menu
    let plan = vm.loop_logic(&KeyboardState::new());
    assert_eq!(plan.init, Some(ViewKind::Start));
    assert!(plan.switched);
    assert_eq!(
        *vm.current_view(),
        CardputerView::MainMenu(MainMenuView::default())
    );
    assert!(vm.view_need_init());
    assert!(plan.top_line);
    assert_eq!(plan.frame.lines.len(), 2);
    // tick N+2: the menu is initialised
    let plan = vm.loop_logic(&KeyboardState::new());
    assert_eq!(plan.init, Some(ViewKind::MainMenu));
    assert!(!plan.switched);
    assert!(!vm.view_need_init());
}

#[test]
fn new_view_is_updated_once_before_init() {
    let mut vm = ViewManager::new(CardputerView::Start(StartView {}));
    let plan = vm.loop_logic(&symbol(KeyEvent::Pressed, PressedSymbol::ArrowDown));
    assert_eq!(plan.init, Some(ViewKind::Start));
    assert!(plan.switched);
    let expected = MainMenuView {
        show_fps: false,
        current_option: Some(MainMenuOption::ConnectWifiAndUpdateNtp),
    };
    assert_eq!(*vm.current_view(), CardputerView::MainMenu(expected));
    assert!(vm.view_need_init());
}

fn show_text(a: &StartupAction) -> Option<String> {
    match a {
        StartupAction::ShowLine(t) => Some(t.clone()),
        _ => None,
    }
}

#[test]
fn startup_sequence_when_all_succeeds() {
    let mut step = StartupStep::first();
    let mut shown = Vec::new();
    let mut polls = 0;
    let mut actions = 0;
    while !step.is_final() {
        let action = step.action();
        actions += 1;
        if let Some(t) = show_text(&action) {
            shown.push(t);
        }
        if let StartupAction::SetTimezone(tz) = &action {
            assert_eq!(tz, "GMT-3");
        }
        let outcome = match action {
            StartupAction::PollNtp => {
                polls += 1;
                if polls < 3 {
                    StepOutcome::Pending
                } else {
                    StepOutcome::Succeeded
                }
            }
            _ => StepOutcome::Succeeded,
        };
        step = step.next(outcome);
    }
    assert_eq!(step, StartupStep::Done);
    assert!(matches!(step.action(), StartupAction::Finish));
    assert_eq!(polls, 3);
    assert_eq!(actions, 13);
    assert_eq!(
        shown,
        vec!["Starting...", "Starting Wifi...", "Starting NTP...", "Awaiting NTP...", "Got NTP!"]
    );
}

#[test]
fn startup_failures_halt() {
    let s = StartupStep::ConnectWifi.next(StepOutcome::Failed);
    assert_eq!(s, StartupStep::Halted(StartupFailure::WifiConnect));
    match s.action() {
        StartupAction::Halt(m) => assert_eq!(m, "error connecting to wifi"),
        _ => panic!("expected a halt"),
    }
    assert!(s.is_final());
    assert_eq!(s.next(StepOutcome::Succeeded), s);
    let s = StartupStep::EnsureWifiFile.next(StepOutcome::Failed);
    match s.action() {
        StartupAction::Halt(m) => assert_eq!(m, "error create wifi file"),
        _ => panic!("expected a halt"),
    }
    let s = StartupStep::StartNtp.next(StepOutcome::Failed);
    assert_eq!(s, StartupStep::Halted(StartupFailure::NtpStart));
    let s = StartupStep::StopWifi.next(StepOutcome::Failed);
    match s.action() {
        StartupAction::Halt(m) => assert_eq!(m, "error stopping wifi"),
        _ => panic!("expected a halt"),
    }
    assert_eq!(StartupStep::AwaitNtp.next(StepOutcome::Pending), StartupStep::AwaitNtp);
    assert_eq!(StartupStep::AwaitNtp.next(StepOutcome::Succeeded), StartupStep::ShowGotNtp);
}
