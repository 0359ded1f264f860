//! Sounds of the player's movement.
use crate::app_plan::{AppPlan, Registration, SystemId};
use crate::asset_loading::{picked, track_count, AudioSources, Playlist};
use crate::shared::states::GameState;
use vstd::prelude::*;

verus! {

/// A jump plays the next footstep sound, unless the game is muted or paused;
/// returns the track to play.
pub fn jump_sound(state: &GameState, sources: &mut AudioSources) -> (track: Option<usize>)
    requires
        old(sources).wf(),
    ensures
        final(sources).wf(),
        forall|p: Playlist| #[trigger] final(sources).tracks(p) == old(sources).tracks(p),
        track is Some <==> (!state.muted && !state.paused),
        track is Some ==> track == Some(old(sources).next_track(Playlist::Steps)),
        track matches Some(t) ==> t < track_count(Playlist::Steps) && picked(
            *old(sources),
            *final(sources),
            Playlist::Steps,
            t,
        ),
        track is None ==> *final(sources) == *old(sources),
{
    if !state.sounds_enabled() {
        return None;
    }
    Some(sources.pick(Playlist::Steps))
}

/// A dash plays the next footstep sound, unless the game is muted or paused;
/// returns the track to play.
pub fn dash_sound(state: &GameState, sources: &mut AudioSources) -> (track: Option<usize>)
    requires
        old(sources).wf(),
    ensures
        final(sources).wf(),
        forall|p: Playlist| #[trigger] final(sources).tracks(p) == old(sources).tracks(p),
        track is Some <==> (!state.muted && !state.paused),
        track is Some ==> track == Some(old(sources).next_track(Playlist::Steps)),
        track matches Some(t) ==> t < track_count(Playlist::Steps) && picked(
            *old(sources),
            *final(sources),
            Playlist::Steps,
            t,
        ),
        track is None ==> *final(sources) == *old(sources),
{
    if !state.sounds_enabled() {
        return None;
    }
    Some(sources.pick(Playlist::Steps))
}

/// The registrations of this module's plugin, in order.
pub open spec fn plugin_steps() -> Seq<Registration> {
    seq![
        Registration::Observer(SystemId::MovementSound),
        Registration::Observer(SystemId::DashSound),
        Registration::Observer(SystemId::JumpSound),
    ]
}

/// Plays the sounds of the player's movement.
pub fn plugin(app: &mut AppPlan)
    ensures
        final(app)@ == old(app)@ + plugin_steps(),
{
    let ghost start = app@;
    app.add(Registration::Observer(SystemId::MovementSound));
    app.add(Registration::Observer(SystemId::DashSound));
    app.add(Registration::Observer(SystemId::JumpSound));
    assert(app@ =~= start + plugin_steps());
}

} // verus!
