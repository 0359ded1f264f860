//! Player movement and action input.
use crate::app_plan::{AppPlan, Registration, RunCondition, Schedule, SystemId};
use crate::screens::Screen;
use crate::shared::AppSystems;
use vstd::prelude::*;

verus! {

/// The registrations of this module's plugin, in order.
pub open spec fn plugin_steps() -> Seq<Registration> {
    seq![
        Registration::System { schedule: Schedule::FixedUpdate, system: SystemId::Movement, condition: RunCondition::InScreen(Screen::Gameplay), set: Some(AppSystems::UserInput), after: None },
        Registration::Observer(SystemId::HandleSprintIn),
        Registration::Observer(SystemId::HandleSprintOut),
        Registration::Observer(SystemId::HandleDash),
        Registration::Observer(SystemId::CrouchIn),
        Registration::Observer(SystemId::CrouchOut),
    ]
}

/// Moves the player during gameplay and handles sprint, dash and crouch input.
pub fn plugin(app: &mut AppPlan)
    ensures
        final(app)@ == old(app)@ + plugin_steps(),
{
    let ghost start = app@;
    app.add(Registration::System { schedule: Schedule::FixedUpdate, system: SystemId::Movement, condition: RunCondition::InScreen(Screen::Gameplay), set: Some(AppSystems::UserInput), after: None });
    app.add(Registration::Observer(SystemId::HandleSprintIn));
    app.add(Registration::Observer(SystemId::HandleSprintOut));
    app.add(Registration::Observer(SystemId::HandleDash));
    app.add(Registration::Observer(SystemId::CrouchIn));
    app.add(Registration::Observer(SystemId::CrouchOut));
    assert(app@ =~= start + plugin_steps());
}

} // verus!
