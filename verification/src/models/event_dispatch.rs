//! Events that input and game logic send each other.
use crate::app_plan::{AppPlan, Registration, SystemId};
use crate::game::mood::Mood;
use crate::screens::{on_esc, spec_on_esc, Back, Screen};
use crate::shared::states::GameState;
use vstd::prelude::*;

verus! {

/// Toggles the camera cursor of an entity's view.
#[derive(Clone, Copy, Debug, PartialEq, Eq, Structural)]
pub struct CamCursorToggle(pub u64);

/// Toggles the pause, asked by an entity's input.
#[derive(Clone, Copy, Debug, PartialEq, Eq, Structural)]
pub struct TogglePause(pub u64);

/// Toggles the mute, asked by an entity's input.
#[derive(Clone, Copy, Debug, PartialEq, Eq, Structural)]
pub struct ToggleMute(pub u64);

/// Toggles the debug UI.
#[derive(Clone, Copy, Debug, PartialEq, Eq, Structural)]
pub struct ToggleDebugUi;

/// Changes the music to a mood, asked for an entity.
#[derive(Clone, Copy, Debug, PartialEq, Eq, Structural)]
pub struct ChangeMood {
    pub entity: u64,
    pub mood: Mood,
}

/// The settings changed.
#[derive(Clone, Copy, Debug, PartialEq, Eq, Structural)]
pub struct SettingsChanged;

/// Escape pressed by an entity on a screen: asks to go back to the screen
/// left last, except on the splash, title and loading screens.
pub fn back(entity: u64, screen: &Screen, state: &GameState) -> (back: Option<Back>)
    ensures
        back == spec_on_esc(entity, *screen, *state),
{
    on_esc(entity, screen, state)
}

/// The registrations of this module's plugin, in order.
pub open spec fn plugin_steps() -> Seq<Registration> {
    seq![
        Registration::Observer(SystemId::Pause),
        Registration::Observer(SystemId::Mute),
        Registration::Observer(SystemId::Back),
    ]
}

/// Turns pause, mute and escape input into events.
pub fn plugin(app: &mut AppPlan)
    ensures
        final(app)@ == old(app)@ + plugin_steps(),
{
    let ghost start = app@;
    app.add(Registration::Observer(SystemId::Pause));
    app.add(Registration::Observer(SystemId::Mute));
    app.add(Registration::Observer(SystemId::Back));
    assert(app@ =~= start + plugin_steps());
}

} // verus!
