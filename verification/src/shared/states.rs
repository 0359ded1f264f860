use crate::screens::Screen;
use crate::app_plan::{AppPlan, Registration, ResourceKind};
use vstd::prelude::*;

verus! {

/// Global flags of a running game.
#[derive(Clone, Copy, Debug, PartialEq, Eq, Structural)]
pub struct GameState {
    /// The screen that was left most recently.
    pub last_screen: Screen,
    pub diagnostics: bool,
    pub debug_ui: bool,
    pub paused: bool,
    pub muted: bool,
}

impl Default for GameState {
    fn default() -> (state: Self)
        ensures
            state == (GameState {
                last_screen: Screen::Title,
                diagnostics: true,
                debug_ui: true,
                paused: false,
                muted: false,
            }),
    {
        GameState {
            last_screen: Screen::Title,
            diagnostics: true,
            debug_ui: true,
            paused: false,
            muted: false,
        }
    }
}

impl GameState {
    /// Leaves the game neither paused nor muted; the other flags stay.
    pub fn reset(&mut self)
        ensures
            *final(self) == (GameState { paused: false, muted: false, ..*old(self) }),
    {
        self.paused = false;
        self.muted = false;
    }

    /// Sound effects play only while the game is neither muted nor paused.
    pub fn sounds_enabled(&self) -> (enabled: bool)
        ensures
            enabled == (!self.muted && !self.paused),
    {
        !(self.muted || self.paused)
    }

    /// Records the screen that a transition left; a transition that left no
    /// screen counts as leaving the title screen.
    pub fn track_last_screen(&mut self, exited: Option<Screen>)
        ensures
            *final(self) == (GameState {
                last_screen: match exited {
                    Some(s) => s,
                    None => Screen::Title,
                },
                ..*old(self)
            }),
    {
        self.last_screen = match exited {
            Some(s) => s,
            None => Screen::Title,
        };
    }
}

/// The registrations of this module's plugin, in order.
pub open spec fn plugin_steps() -> Seq<Registration> {
    seq![
        Registration::InitResource(ResourceKind::GameState),
    ]
}

/// Creates the game state.
pub fn plugin(app: &mut AppPlan)
    ensures
        final(app)@ == old(app)@ + plugin_steps(),
{
    let ghost start = app@;
    app.add(Registration::InitResource(ResourceKind::GameState));
    assert(app@ =~= start + plugin_steps());
}

} // verus!
