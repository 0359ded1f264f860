//! Events sent on input.
use crate::app_plan::{AppPlan, Registration, SystemId};
use vstd::prelude::*;

verus! {

/// Toggles the camera cursor of an entity's view.
#[derive(Clone, Copy, Debug, PartialEq, Eq, Structural)]
pub struct ToggleCamCursor(pub u64);

/// Toggles the pause, asked by an entity's input.
#[derive(Clone, Copy, Debug, PartialEq, Eq, Structural)]
pub struct TogglePause(pub u64);

/// Toggles the mute, asked by an entity's input.
#[derive(Clone, Copy, Debug, PartialEq, Eq, Structural)]
pub struct ToggleMute(pub u64);

/// Toggles the debug UI.
#[derive(Clone, Copy, Debug, PartialEq, Eq, Structural)]
pub struct ToggleDebugUi;

/// The settings changed.
#[derive(Clone, Copy, Debug, PartialEq, Eq, Structural)]
pub struct SettingsChanged;

/// A pause input of an entity toggles its pause.
pub fn pause(entity: u64) -> (event: TogglePause)
    ensures
        event == TogglePause(entity),
{
    TogglePause(entity)
}

/// A mute input of an entity toggles its mute.
pub fn mute(entity: u64) -> (event: ToggleMute)
    ensures
        event == ToggleMute(entity),
{
    ToggleMute(entity)
}

/// The registrations of this module's plugin, in order.
pub open spec fn plugin_steps() -> Seq<Registration> {
    seq![
        Registration::Observer(SystemId::Pause),
        Registration::Observer(SystemId::Mute),
    ]
}

/// Turns pause and mute input into events.
pub fn plugin(app: &mut AppPlan)
    ensures
        final(app)@ == old(app)@ + plugin_steps(),
{
    let ghost start = app@;
    app.add(Registration::Observer(SystemId::Pause));
    app.add(Registration::Observer(SystemId::Mute));
    assert(app@ =~= start + plugin_steps());
}

} // verus!
