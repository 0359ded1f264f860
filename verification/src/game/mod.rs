//! Game mechanics: music moods and cutscenes.
pub mod dialogue;
pub mod mood;

use crate::app_plan::{AppPlan, PluginKind, Registration, SystemId};
use vstd::prelude::*;

verus! {

/// The registrations of this module's plugin, in order.
pub open spec fn plugin_steps() -> Seq<Registration> {
    self::mood::plugin_steps()
    + seq![
        Registration::Plugin(PluginKind::DevTools),
        Registration::Plugin(PluginKind::Dialogue),
        Registration::Observer(SystemId::Pause),
        Registration::Observer(SystemId::Mute),
    ]
}

/// Sets up the game mechanics: moods, dialogue, and pause and mute input.
pub fn plugin(app: &mut AppPlan)
    ensures
        final(app)@ == old(app)@ + plugin_steps(),
{
    let ghost start = app@;
    self::mood::plugin(app);
    app.add(Registration::Plugin(PluginKind::DevTools));
    app.add(Registration::Plugin(PluginKind::Dialogue));
    app.add(Registration::Observer(SystemId::Pause));
    app.add(Registration::Observer(SystemId::Mute));
    assert(app@ =~= start + plugin_steps());
}

} // verus!
