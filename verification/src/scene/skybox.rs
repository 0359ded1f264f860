use crate::app_plan::{AppPlan, Registration, RunCondition, Schedule, SystemId};
use crate::screens::Screen;
use vstd::prelude::*;

verus! {

/// How the sun and the moon travel across the sky.
#[derive(Clone, Copy, Debug, PartialEq, Eq, Structural)]
pub enum SunCycle {
    DayNight,
    Nimbus,
}

/// The name under which a sun cycle is shown and stored.
pub open spec fn sun_cycle_name(cycle: SunCycle) -> Seq<char> {
    match cycle {
        SunCycle::DayNight => "DayNight"@,
        SunCycle::Nimbus => "Nimbus"@,
    }
}

impl SunCycle {
    pub fn as_str(&self) -> (name: &'static str)
        ensures
            name@ == sun_cycle_name(*self),
    {
        match self {
            SunCycle::DayNight => "DayNight",
            SunCycle::Nimbus => "Nimbus",
        }
    }
}

/// The day-night cycle is stored as "DayNight" and the nimbus cycle as
/// "Nimbus", so the two names tell the cycles apart.
pub proof fn lemma_sun_cycle_names()
    ensures
        sun_cycle_name(SunCycle::DayNight) == "DayNight"@,
        sun_cycle_name(SunCycle::Nimbus) == "Nimbus"@,
        sun_cycle_name(SunCycle::DayNight) != sun_cycle_name(SunCycle::Nimbus),
{
    reveal_strlit("DayNight");
    reveal_strlit("Nimbus");
    assert(sun_cycle_name(SunCycle::DayNight)[1] != sun_cycle_name(SunCycle::Nimbus)[1]);
}

/// The registrations of this module's plugin, in order.
pub open spec fn plugin_steps() -> Seq<Registration> {
    seq![
        Registration::System { schedule: Schedule::Update, system: SystemId::SunCycle, condition: RunCondition::InScreen(Screen::Gameplay), set: None, after: None },
        Registration::System { schedule: Schedule::OnEnter(Screen::Title), system: SystemId::AddSkyboxToCamera, condition: RunCondition::Always, set: None, after: None },
    ]
}

/// Moves the sun and moon during gameplay, and adds the sky when the title shows.
pub fn plugin(app: &mut AppPlan)
    ensures
        final(app)@ == old(app)@ + plugin_steps(),
{
    let ghost start = app@;
    app.add(Registration::System { schedule: Schedule::Update, system: SystemId::SunCycle, condition: RunCondition::InScreen(Screen::Gameplay), set: None, after: None });
    app.add(Registration::System { schedule: Schedule::OnEnter(Screen::Title), system: SystemId::AddSkyboxToCamera, condition: RunCondition::Always, set: None, after: None });
    assert(app@ =~= start + plugin_steps());
}

} // verus!
