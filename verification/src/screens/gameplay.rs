//! Pause and mute during gameplay.
use crate::shared::states::GameState;
use crate::app_plan::{AppPlan, Registration, RunCondition, Schedule, SystemId};
use crate::screens::Screen;
use vstd::prelude::*;

verus! {

/// The game state with its pause flag flipped.
pub open spec fn pause_toggled(state: GameState) -> GameState {
    GameState { paused: !state.paused, ..state }
}

/// Whether a toggle of the pause pauses (rather than resumes) the game: only
/// a game that neither the virtual time nor the state holds paused.
pub open spec fn pause_decision(time_paused: bool, paused: bool) -> bool {
    !(time_paused || paused)
}

/// The game state with its mute flag flipped.
pub open spec fn mute_toggled(state: GameState) -> GameState {
    GameState { muted: !state.muted, ..state }
}

/// Toggles the pause. When the pause icon exists, returns whether the game is
/// now to be paused (virtual time paused and icon shown) or resumed (time
/// unpaused and icon hidden); a game paused by either the time or the state
/// resumes.
pub fn toggle_pause(state: &mut GameState, time_paused: bool, has_icon: bool) -> (pause: Option<
    bool,
>)
    ensures
        *final(state) == pause_toggled(*old(state)),
        pause == if has_icon {
            Some(pause_decision(time_paused, old(state).paused))
        } else {
            None
        },
{
    let pause = if has_icon {
        Some(!(time_paused || state.paused))
    } else {
        None
    };
    state.paused = !state.paused;
    pause
}

/// Toggles the mute. When the mute icon exists, returns whether music and
/// sound effects are now to be silenced (icon shown) or restored to the
/// settings' volumes (icon hidden).
pub fn toggle_mute(state: &mut GameState, has_icon: bool) -> (silence: Option<bool>)
    ensures
        *final(state) == mute_toggled(*old(state)),
        silence == if has_icon {
            Some(!old(state).muted)
        } else {
            None
        },
{
    let silence = if has_icon {
        Some(!state.muted)
    } else {
        None
    };
    state.muted = !state.muted;
    silence
}

/// Pausing twice, or muting twice, gives back the game state.
pub proof fn lemma_toggles_undo_themselves(state: GameState)
    ensures
        pause_toggled(pause_toggled(state)) == state,
        mute_toggled(mute_toggled(state)) == state,
        pause_toggled(state).muted == state.muted,
        mute_toggled(state).paused == state.paused,
{
}

/// A toggle flips the pause flag and nothing else; it pauses the time exactly
/// when neither the time nor the state is paused already, and a mute toggle
/// flips the mute flag and nothing else.
pub proof fn lemma_toggle_effects(state: GameState, time_paused: bool)
    ensures
        pause_decision(time_paused, state.paused) <==> (!time_paused && !state.paused),
        pause_toggled(state) == (GameState {
            last_screen: state.last_screen,
            diagnostics: state.diagnostics,
            debug_ui: state.debug_ui,
            paused: !state.paused,
            muted: state.muted,
        }),
        mute_toggled(state) == (GameState {
            last_screen: state.last_screen,
            diagnostics: state.diagnostics,
            debug_ui: state.debug_ui,
            paused: state.paused,
            muted: !state.muted,
        }),
{
}

/// With the icon shown, pause and resume alternate: when a toggle pauses the
/// time, the next toggle resumes it, and the other way round.
pub proof fn lemma_pause_and_resume_alternate(state: GameState, time_paused: bool)
    ensures
        pause_decision(time_paused, state.paused) ==> !pause_decision(
            true,
            pause_toggled(state).paused,
        ),
        time_paused == state.paused && !pause_decision(time_paused, state.paused)
            ==> pause_decision(false, pause_toggled(state).paused),
{
}

/// The registrations of this module's plugin, in order.
pub open spec fn plugin_steps() -> Seq<Registration> {
    crate::ui::modal::plugin_steps()
    + seq![
        Registration::System { schedule: Schedule::OnEnter(Screen::Gameplay), system: SystemId::SpawnGameplayUi, condition: RunCondition::Always, set: None, after: None },
        Registration::Observer(SystemId::ToggleMute),
        Registration::Observer(SystemId::TogglePause),
        Registration::Observer(SystemId::TriggerMenuToggleOnEsc),
    ]
}

/// Sets up the gameplay screen: its modals, its icons, pause and mute.
pub fn plugin(app: &mut AppPlan)
    ensures
        final(app)@ == old(app)@ + plugin_steps(),
{
    let ghost start = app@;
    crate::ui::modal::plugin(app);
    app.add(Registration::System { schedule: Schedule::OnEnter(Screen::Gameplay), system: SystemId::SpawnGameplayUi, condition: RunCondition::Always, set: None, after: None });
    app.add(Registration::Observer(SystemId::ToggleMute));
    app.add(Registration::Observer(SystemId::TogglePause));
    app.add(Registration::Observer(SystemId::TriggerMenuToggleOnEsc));
    assert(app@ =~= start + plugin_steps());
}

} // verus!
