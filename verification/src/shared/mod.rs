//! Types shared by several plugins.
use crate::app_plan::{AppPlan, Registration};
use vstd::prelude::*;

pub mod states;

verus! {

/// High-level groupings of the systems of a frame, in the order in which
/// they run.
#[derive(Clone, Copy, Debug, PartialEq, Eq, Structural)]
pub enum AppSystems {
    /// User input.
    UserInput,
    /// Tick timers.
    TickTimers,
    /// Change UI.
    ChangeUi,
    /// Play sounds.
    PlaySounds,
    /// Play animations.
    PlayAnimations,
    /// Everything else.
    Update,
}

/// The frame order of the system sets: each set runs before the next.
pub open spec fn app_systems_order() -> Seq<Registration> {
    seq![
        Registration::OrderSets(AppSystems::UserInput, AppSystems::TickTimers),
        Registration::OrderSets(AppSystems::TickTimers, AppSystems::ChangeUi),
        Registration::OrderSets(AppSystems::ChangeUi, AppSystems::PlaySounds),
        Registration::OrderSets(AppSystems::PlaySounds, AppSystems::PlayAnimations),
        Registration::OrderSets(AppSystems::PlayAnimations, AppSystems::Update),
    ]
}

/// Position of a system set in the frame.
pub open spec fn app_systems_rank(set: AppSystems) -> nat {
    match set {
        AppSystems::UserInput => 0,
        AppSystems::TickTimers => 1,
        AppSystems::ChangeUi => 2,
        AppSystems::PlaySounds => 3,
        AppSystems::PlayAnimations => 4,
        AppSystems::Update => 5,
    }
}

/// Orders the system sets of a frame in a chain.
pub fn plugin(app: &mut AppPlan)
    ensures
        final(app)@ == old(app)@ + app_systems_order(),
{
    let ghost start = app@;
    app.add(Registration::OrderSets(AppSystems::UserInput, AppSystems::TickTimers));
    app.add(Registration::OrderSets(AppSystems::TickTimers, AppSystems::ChangeUi));
    app.add(Registration::OrderSets(AppSystems::ChangeUi, AppSystems::PlaySounds));
    app.add(Registration::OrderSets(AppSystems::PlaySounds, AppSystems::PlayAnimations));
    app.add(Registration::OrderSets(AppSystems::PlayAnimations, AppSystems::Update));
    assert(app@ =~= start + app_systems_order());
}

/// Each ordering step puts a set right before the next one, so the order of
/// the sets is their declared order.
pub proof fn lemma_app_systems_chain()
    ensures
        forall|i: int|
            0 <= i < app_systems_order().len() ==> (#[trigger] app_systems_order()[i] matches
                Registration::OrderSets(a, b) && app_systems_rank(b) == app_systems_rank(a) + 1
                && app_systems_rank(a) == i),
{
}

} // verus!
