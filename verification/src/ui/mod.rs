//! Reusable UI logic: the gameplay modal stack, widget names and button
//! interaction.
pub mod interaction;
pub mod modal;
pub mod widget;

use crate::app_plan::{AppPlan, PluginKind, Registration};
use vstd::prelude::*;

verus! {

/// The registrations of this module's plugin, in order.
pub open spec fn plugin_steps() -> Seq<Registration> {
    seq![
        Registration::Plugin(PluginKind::Prefabs),
    ]
    + self::interaction::plugin_steps()
    + seq![
        Registration::Plugin(PluginKind::Perf),
    ]
}

/// Sets up the UI prefabs and interactions.
pub fn plugin(app: &mut AppPlan)
    ensures
        final(app)@ == old(app)@ + plugin_steps(),
{
    let ghost start = app@;
    app.add(Registration::Plugin(PluginKind::Prefabs));
    self::interaction::plugin(app);
    app.add(Registration::Plugin(PluginKind::Perf));
    assert(app@ =~= start + plugin_steps());
}

} // verus!
