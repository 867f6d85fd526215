//! The view manager: owns the active view and decides, tick by tick, which
//! view is initialised, updated and drawn.
use vstd::prelude::*;

use crate::keyboard_state::KeyboardState;
use crate::ui::Frame;
use crate::views::main_menu::{MainMenuView, default_menu, menu_frame, menu_update};
use crate::views::start::StartView;

verus! {

/// The views, as a closed set.
#[derive(Debug, Clone, Copy, PartialEq, Eq, Structural)]
pub enum CardputerView {
    Start(StartView),
    MainMenu(MainMenuView),
}

/// Which view a value is, without its state.
#[derive(Debug, Clone, Copy, PartialEq, Eq, Structural)]
pub enum ViewKind {
    Start,
    MainMenu,
}

pub open spec fn kind_of(v: CardputerView) -> ViewKind {
    match v {
        CardputerView::Start(_) => ViewKind::Start,
        CardputerView::MainMenu(_) => ViewKind::MainMenu,
    }
}

/// The view after one update with `ks`, and the view it hands over to.
pub open spec fn view_update(v: CardputerView, ks: KeyboardState) -> (CardputerView, Option<CardputerView>) {
    match v {
        CardputerView::Start(_) => (v, Some(CardputerView::MainMenu(default_menu()))),
        CardputerView::MainMenu(m) => {
            let (m2, next) = menu_update(m, ks);
            (CardputerView::MainMenu(m2), next)
        },
    }
}

/// Whether the view is redrawn from a cleared frame each tick.
pub open spec fn needs_clear(v: CardputerView) -> bool {
    v is MainMenu
}

/// Whether the view shows the status bar.
pub open spec fn needs_top_line(v: CardputerView) -> bool {
    v is MainMenu
}

/// What the view draws.
pub open spec fn view_frame(v: CardputerView, f: Frame) -> bool {
    match v {
        CardputerView::Start(_) => f.lines@.len() == 0 && f.show_fps is None,
        CardputerView::MainMenu(m) => menu_frame(m, f),
    }
}

/// Whether the update of this tick hands over to another view.
pub open spec fn tick_switches(v: CardputerView, ks: KeyboardState) -> bool {
    view_update(v, ks).1 is Some
}

/// The active view at the end of a tick: the updated view, or, when the
/// update handed over, the new view after one update with the same input
/// (made before its initialisation, whose own result is dropped).
pub open spec fn tick_view(v: CardputerView, ks: KeyboardState) -> CardputerView {
    let (updated, next) = view_update(v, ks);
    match next {
        Some(n) => view_update(n, ks).0,
        None => updated,
    }
}

impl CardputerView {
    /// Whether the view is redrawn from a cleared frame each tick.
    pub fn is_need_clear_on_update(&self) -> (r: bool)
        ensures
            r == needs_clear(*self),
    {
        match self {
            CardputerView::Start(s) => s.is_need_clear_on_update(),
            CardputerView::MainMenu(m) => m.is_need_clear_on_update(),
        }
    }

    /// Whether the view shows the status bar.
    pub fn is_need_top_line(&self) -> (r: bool)
        ensures
            r == needs_top_line(*self),
    {
        match self {
            CardputerView::Start(s) => s.is_need_top_line(),
            CardputerView::MainMenu(m) => m.is_need_top_line(),
        }
    }

    /// Which view this is.
    pub fn kind(&self) -> (r: ViewKind)
        ensures
            r == kind_of(*self),
    {
        match self {
            CardputerView::Start(_) => ViewKind::Start,
            CardputerView::MainMenu(_) => ViewKind::MainMenu,
        }
    }

    /// Reacts to the input of one tick; returns the view to hand over to.
    pub fn update(&mut self, keyboard_state: &KeyboardState) -> (r: Option<CardputerView>)
        ensures
            (*final(self), r) == view_update(*old(self), *keyboard_state),
    {
        match self {
            CardputerView::Start(s) => s.update(keyboard_state),
            CardputerView::MainMenu(m) => m.update(keyboard_state),
        }
    }

    /// What the view draws this tick.
    pub fn draw(&self) -> (r: Frame)
        ensures
            view_frame(*self, r),
    {
        match self {
            CardputerView::Start(s) => s.draw(),
            CardputerView::MainMenu(m) => m.draw(),
        }
    }
}

/// The steps of one tick, in the order in which they are carried out: the
/// initialisation of the active view, a clear after a hand-over, a clear
/// that the view asks for, the view's frame, the status bar, and then the
/// frame is presented.
pub struct TickPlan {
    pub init: Option<ViewKind>,
    pub switched: bool,
    pub clear: bool,
    pub frame: Frame,
    pub top_line: bool,
}

/// Owns the active view; `view_need_init` holds exactly while the active
/// view has not been initialised since it became active.
pub struct ViewManager {
    current_view: CardputerView,
    view_need_init: bool,
}

impl ViewManager {
    /// The active view.
    pub closed spec fn active(&self) -> CardputerView {
        self.current_view
    }

    /// Whether the active view still waits for its initialisation.
    pub closed spec fn awaits_init(&self) -> bool {
        self.view_need_init
    }

    /// A manager whose active view is `view`, not yet initialised.
    pub fn new(view: CardputerView) -> (r: Self)
        ensures
            r.active() == view,
            r.awaits_init(),
    {
        ViewManager { current_view: view, view_need_init: true }
    }

    /// The active view.
    pub fn current_view(&self) -> (r: &CardputerView)
        ensures
            *r == self.active(),
    {
        &self.current_view
    }

    /// Whether the active view still waits for its initialisation.
    pub fn view_need_init(&self) -> (r: bool)
        ensures
            r == self.awaits_init(),
    {
        self.view_need_init
    }

    /// One tick with the input `keyboard_state`. The plan says which view to
    /// initialise first (the active one, when it has not been), whether the
    /// update handed over to another view, whether to clear, what to draw and
    /// whether to draw the status bar. A hand-over makes the new view active
    /// and not initialised, after one update of it with the same input.
    pub fn loop_logic(&mut self, keyboard_state: &KeyboardState) -> (plan: TickPlan)
        ensures
            plan.init == (if old(self).awaits_init() {
                Some(kind_of(old(self).active()))
            } else {
                None
            }),
            plan.switched == tick_switches(old(self).active(), *keyboard_state),
            final(self).active() == tick_view(old(self).active(), *keyboard_state),
            final(self).awaits_init() == tick_switches(old(self).active(), *keyboard_state),
            plan.clear == needs_clear(final(self).active()),
            view_frame(final(self).active(), plan.frame),
            plan.top_line == needs_top_line(final(self).active()),
    {
        let init = if self.view_need_init {
            self.view_need_init = false;
            Some(self.current_view.kind())
        } else {
            None
        };
        let next_view = self.current_view.update(keyboard_state);
        let switched = match next_view {
            Some(next_view) => {
                self.current_view = next_view;
                self.view_need_init = true;
                let _ = self.current_view.update(keyboard_state);
                true
            },
            None => false,
        };
        let clear = self.current_view.is_need_clear_on_update();
        let frame = self.current_view.draw();
        let top_line = self.current_view.is_need_top_line();
        TickPlan { init, switched, clear, frame, top_line }
    }
}

/// When the update of a tick hands over to a view, that view is active at
/// the end of the tick (after its one update with the same input) and waits
/// for its initialisation, which the next tick carries out first.
pub proof fn lemma_hand_over(v: CardputerView, ks: KeyboardState)
    requires
        view_update(v, ks).1 is Some,
    ensures
        ({
            let next = view_update(v, ks).1->0;
            &&& tick_switches(v, ks)
            &&& kind_of(tick_view(v, ks)) == kind_of(next)
            &&& tick_view(v, ks) == view_update(next, ks).0
        }),
{
}

} // verus!
