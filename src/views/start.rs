//! The start view: its initialisation connects to the network and waits for
//! the clock to be synchronised, then it hands over to the main menu.
use vstd::prelude::*;

use crate::keyboard_state::KeyboardState;
use crate::ui::Frame;
use crate::view_manager::CardputerView;
use crate::views::main_menu::{MainMenuView, default_menu};

verus! {

/// A step of the start view's initialisation. The steps run in the order
/// in which they are declared; a failure halts the sequence.
#[derive(Debug, Clone, Copy, PartialEq, Eq, Structural)]
pub enum StartupStep {
    ShowStarting,
    SetTimezone,
    EnsureWifiFile,
    ShowStartingWifi,
    ConnectWifi,
    ShowStartingNtp,
    StartNtp,
    ShowAwaitingNtp,
    AwaitNtp,
    ShowGotNtp,
    StopWifi,
    Done,
    Halted(StartupFailure),
}

/// The step whose failure halted the initialisation.
#[derive(Debug, Clone, Copy, PartialEq, Eq, Structural)]
pub enum StartupFailure {
    WifiFile,
    WifiConnect,
    NtpStart,
    WifiStop,
}

/// How the action of a step came out. `Pending` is what a poll of the clock
/// synchronisation reports while it has not completed.
#[derive(Debug, Clone, Copy, PartialEq, Eq, Structural)]
pub enum StepOutcome {
    Succeeded,
    Failed,
    Pending,
}

/// The work that a step asks of the device.
pub enum StartupAction {
    /// Draw this text on the bottom line and present the frame.
    ShowLine(String),
    /// Set the time zone to this rule.
    SetTimezone(String),
    /// Write the default network credentials unless a record exists.
    EnsureWifiFile,
    /// Connect to the network and wait until connected.
    ConnectWifi,
    /// Start the clock synchronisation.
    StartNtp,
    /// Ask whether the clock synchronisation has completed.
    PollNtp,
    /// Stop the network.
    StopWifi,
    /// Initialisation complete.
    Finish,
    /// Unrecoverable failure: log this message and stop.
    Halt(String),
}

/// The step after `step` whose action came out as `outcome`. Drawing and
/// setting the time zone cannot fail; the clock is polled until its
/// synchronisation completes; any other failure halts.
pub open spec fn next_step(step: StartupStep, outcome: StepOutcome) -> StartupStep {
    match step {
        StartupStep::ShowStarting => StartupStep::SetTimezone,
        StartupStep::SetTimezone => StartupStep::EnsureWifiFile,
        StartupStep::EnsureWifiFile => if outcome == StepOutcome::Succeeded {
            StartupStep::ShowStartingWifi
        } else {
            StartupStep::Halted(StartupFailure::WifiFile)
        },
        StartupStep::ShowStartingWifi => StartupStep::ConnectWifi,
        StartupStep::ConnectWifi => if outcome == StepOutcome::Succeeded {
            StartupStep::ShowStartingNtp
        } else {
            StartupStep::Halted(StartupFailure::WifiConnect)
        },
        StartupStep::ShowStartingNtp => StartupStep::StartNtp,
        StartupStep::StartNtp => if outcome == StepOutcome::Succeeded {
            StartupStep::ShowAwaitingNtp
        } else {
            StartupStep::Halted(StartupFailure::NtpStart)
        },
        StartupStep::ShowAwaitingNtp => StartupStep::AwaitNtp,
        StartupStep::AwaitNtp => if outcome == StepOutcome::Succeeded {
            StartupStep::ShowGotNtp
        } else {
            StartupStep::AwaitNtp
        },
        StartupStep::ShowGotNtp => StartupStep::StopWifi,
        StartupStep::StopWifi => if outcome == StepOutcome::Succeeded {
            StartupStep::Done
        } else {
            StartupStep::Halted(StartupFailure::WifiStop)
        },
        StartupStep::Done => StartupStep::Done,
        StartupStep::Halted(f) => StartupStep::Halted(f),
    }
}

/// The message logged when a step fails.
pub open spec fn failure_text(f: StartupFailure) -> Seq<char> {
    match f {
        StartupFailure::WifiFile => "error create wifi file"@,
        StartupFailure::WifiConnect => "error connecting to wifi"@,
        StartupFailure::NtpStart => "error starting ntp"@,
        StartupFailure::WifiStop => "error stopping wifi"@,
    }
}

/// The action that a step asks for.
pub open spec fn step_action(step: StartupStep, a: StartupAction) -> bool {
    match step {
        StartupStep::ShowStarting => a matches StartupAction::ShowLine(t) && t@ == "Starting..."@,
        StartupStep::SetTimezone => a matches StartupAction::SetTimezone(t) && t@ == "GMT-3"@,
        StartupStep::EnsureWifiFile => a is EnsureWifiFile,
        StartupStep::ShowStartingWifi => a matches StartupAction::ShowLine(t) && t@
            == "Starting Wifi..."@,
        StartupStep::ConnectWifi => a is ConnectWifi,
        StartupStep::ShowStartingNtp => a matches StartupAction::ShowLine(t) && t@
            == "Starting NTP..."@,
        StartupStep::StartNtp => a is StartNtp,
        StartupStep::ShowAwaitingNtp => a matches StartupAction::ShowLine(t) && t@
            == "Awaiting NTP..."@,
        StartupStep::AwaitNtp => a is PollNtp,
        StartupStep::ShowGotNtp => a matches StartupAction::ShowLine(t) && t@ == "Got NTP!"@,
        StartupStep::StopWifi => a is StopWifi,
        StartupStep::Done => a is Finish,
        StartupStep::Halted(f) => a matches StartupAction::Halt(t) && t@ == failure_text(f),
    }
}

impl StartupStep {
    /// The first step of the initialisation.
    pub fn first() -> (r: Self)
        ensures
            r == StartupStep::ShowStarting,
    {
        StartupStep::ShowStarting
    }

    /// Whether the initialisation has ended, completed or halted.
    pub fn is_final(&self) -> (r: bool)
        ensures
            r == (*self is Done || *self is Halted),
    {
        match self {
            StartupStep::Done => true,
            StartupStep::Halted(_) => true,
            _ => false,
        }
    }

    /// The step that follows once this step's action came out as `outcome`.
    pub fn next(&self, outcome: StepOutcome) -> (r: Self)
        ensures
            r == next_step(*self, outcome),
    {
        let ok = outcome == StepOutcome::Succeeded;
        match self {
            StartupStep::ShowStarting => StartupStep::SetTimezone,
            StartupStep::SetTimezone => StartupStep::EnsureWifiFile,
            StartupStep::EnsureWifiFile => if ok {
                StartupStep::ShowStartingWifi
            } else {
                StartupStep::Halted(StartupFailure::WifiFile)
            },
            StartupStep::ShowStartingWifi => StartupStep::ConnectWifi,
            StartupStep::ConnectWifi => if ok {
                StartupStep::ShowStartingNtp
            } else {
                StartupStep::Halted(StartupFailure::WifiConnect)
            },
            StartupStep::ShowStartingNtp => StartupStep::StartNtp,
            StartupStep::StartNtp => if ok {
                StartupStep::ShowAwaitingNtp
            } else {
                StartupStep::Halted(StartupFailure::NtpStart)
            },
            StartupStep::ShowAwaitingNtp => StartupStep::AwaitNtp,
            StartupStep::AwaitNtp => if ok {
                StartupStep::ShowGotNtp
            } else {
                StartupStep::AwaitNtp
            },
            StartupStep::ShowGotNtp => StartupStep::StopWifi,
            StartupStep::StopWifi => if ok {
                StartupStep::Done
            } else {
                StartupStep::Halted(StartupFailure::WifiStop)
            },
            StartupStep::Done => StartupStep::Done,
            StartupStep::Halted(f) => StartupStep::Halted(*f),
        }
    }

    /// The work this step asks of the device.
    pub fn action(&self) -> (r: StartupAction)
        ensures
            step_action(*self, r),
    {
        match self {
            StartupStep::ShowStarting => StartupAction::ShowLine(String::from_str("Starting...")),
            StartupStep::SetTimezone => StartupAction::SetTimezone(String::from_str("GMT-3")),
            StartupStep::EnsureWifiFile => StartupAction::EnsureWifiFile,
            StartupStep::ShowStartingWifi => StartupAction::ShowLine(
                String::from_str("Starting Wifi..."),
            ),
            StartupStep::ConnectWifi => StartupAction::ConnectWifi,
            StartupStep::ShowStartingNtp => StartupAction::ShowLine(
                String::from_str("Starting NTP..."),
            ),
            StartupStep::StartNtp => StartupAction::StartNtp,
            StartupStep::ShowAwaitingNtp => StartupAction::ShowLine(
                String::from_str("Awaiting NTP..."),
            ),
            StartupStep::AwaitNtp => StartupAction::PollNtp,
            StartupStep::ShowGotNtp => StartupAction::ShowLine(String::from_str("Got NTP!")),
            StartupStep::StopWifi => StartupAction::StopWifi,
            StartupStep::Done => StartupAction::Finish,
            StartupStep::Halted(f) => StartupAction::Halt(
                match f {
                    StartupFailure::WifiFile => String::from_str("error create wifi file"),
                    StartupFailure::WifiConnect => String::from_str("error connecting to wifi"),
                    StartupFailure::NtpStart => String::from_str("error starting ntp"),
                    StartupFailure::WifiStop => String::from_str("error stopping wifi"),
                },
            ),
        }
    }
}

/// The start view; it holds no state of its own.
#[derive(Debug, Clone, Copy, PartialEq, Eq, Structural)]
pub struct StartView {}

impl StartView {
    /// The start view draws no status bar.
    pub fn is_need_top_line(&self) -> (r: bool)
        ensures
            !r,
    {
        false
    }

    /// The start view keeps what its initialisation drew.
    pub fn is_need_clear_on_update(&self) -> (r: bool)
        ensures
            !r,
    {
        false
    }

    /// Once initialised, the start view hands over to a fresh main menu.
    pub fn update(&mut self, _keyboard_state: &KeyboardState) -> (r: Option<CardputerView>)
        ensures
            r == Some(CardputerView::MainMenu(default_menu())),
            *final(self) == *old(self),
    {
        Some(CardputerView::MainMenu(MainMenuView::default()))
    }

    /// The start view draws nothing.
    pub fn draw(&self) -> (r: Frame)
        ensures
            r.lines@.len() == 0,
            r.show_fps is None,
    {
        Frame { lines: Vec::new(), show_fps: None }
    }
}

} // verus!
