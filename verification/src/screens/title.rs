//! The title screen's menu.
use crate::app_plan::{AppPlan, Registration, RunCondition, Schedule, SystemId};
use crate::screens::Screen;
use crate::asset_loading::{picked, track_count, AudioSources, Playlist};
use crate::shared::states::GameState;
use crate::ui::modal::Modals;
use crate::ui::modal::Modal;
use vstd::prelude::*;

verus! {

/// Entering the title screen starts over: the game is neither paused nor
/// muted, and no modal is open.
pub fn setup_menu(state: &mut GameState, modals: &mut Modals)
    ensures
        *final(state) == (GameState { paused: false, muted: false, ..*old(state) }),
        final(modals).0@ == Seq::<Modal>::empty(),
{
    state.reset();
    modals.clear();
    state.reset();
}

/// The title screen plays the next track of the menu playlist; returns it.
pub fn start_main_menu_music(sources: &mut AudioSources) -> (track: usize)
    requires
        old(sources).wf(),
    ensures
        final(sources).wf(),
        forall|p: Playlist| #[trigger] final(sources).tracks(p) == old(sources).tracks(p),
        track == old(sources).next_track(Playlist::Menu),
        track < track_count(Playlist::Menu),
        picked(*old(sources), *final(sources), Playlist::Menu, track),
{
    sources.pick(Playlist::Menu)
}

/// The registrations of this module's plugin, in order.
pub open spec fn plugin_steps() -> Seq<Registration> {
    seq![
        Registration::System { schedule: Schedule::OnEnter(Screen::Title), system: SystemId::SetupMenu, condition: RunCondition::Always, set: None, after: None },
        Registration::System { schedule: Schedule::OnEnter(Screen::Title), system: SystemId::StartMainMenuMusic, condition: RunCondition::Always, set: None, after: None },
    ]
}

/// Draws the title menu and starts its music when the title screen shows.
pub fn plugin(app: &mut AppPlan)
    ensures
        final(app)@ == old(app)@ + plugin_steps(),
{
    let ghost start = app@;
    app.add(Registration::System { schedule: Schedule::OnEnter(Screen::Title), system: SystemId::SetupMenu, condition: RunCondition::Always, set: None, after: None });
    app.add(Registration::System { schedule: Schedule::OnEnter(Screen::Title), system: SystemId::StartMainMenuMusic, condition: RunCondition::Always, set: None, after: None });
    assert(app@ =~= start + plugin_steps());
}

} // verus!
