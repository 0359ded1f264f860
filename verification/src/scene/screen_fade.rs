//! A full-screen fade: out to black, hold, and back in.
use crate::app_plan::{AppPlan, Registration, RunCondition, Schedule, SystemId};
use crate::screens::Screen;
use vstd::prelude::*;

verus! {

/// The phases of a screen fade, in the order in which they follow each other.
#[derive(Clone, Copy, Debug, PartialEq, Eq, Structural)]
pub enum ScreenFadePhase {
    FadeOut,
    Hold,
    FadeIn,
    Finish,
}

/// Starts a screen fade at the given phase.
#[derive(Clone, Copy, Debug, PartialEq, Eq, Structural)]
pub struct FadeCam(pub ScreenFadePhase);

/// A running screen fade. Each phase lasts one run of the fade timer, which
/// the caller keeps.
#[derive(Clone, Copy, Debug, PartialEq, Eq, Structural)]
pub struct ScreenFader {
    pub phase: ScreenFadePhase,
}

/// How a frame sets the alpha of the fade overlay, from the fraction `t` of the
/// fade timer that has elapsed.
#[derive(Clone, Copy, Debug, PartialEq, Eq, Structural)]
pub enum FadeAlpha {
    /// Alpha is `t`: the screen darkens.
    Elapsed,
    /// Alpha is `1 - t`: the screen clears.
    Remaining,
    /// Alpha stays.
    Unchanged,
}

/// What one frame of the fade does.
#[derive(Clone, Copy, Debug, PartialEq, Eq, Structural)]
pub struct FadeStep {
    pub alpha: FadeAlpha,
    /// A new phase began and the fade timer starts over.
    pub restart_timer: bool,
}

/// Position of a phase in the fade.
pub open spec fn phase_rank(phase: ScreenFadePhase) -> nat {
    match phase {
        ScreenFadePhase::FadeOut => 0,
        ScreenFadePhase::Hold => 1,
        ScreenFadePhase::FadeIn => 2,
        ScreenFadePhase::Finish => 3,
    }
}

/// The phase after one frame, given whether the fade timer just finished.
pub open spec fn next_phase(phase: ScreenFadePhase, just_finished: bool) -> ScreenFadePhase {
    if !just_finished {
        phase
    } else {
        match phase {
            ScreenFadePhase::FadeOut => ScreenFadePhase::Hold,
            ScreenFadePhase::Hold => ScreenFadePhase::FadeIn,
            ScreenFadePhase::FadeIn => ScreenFadePhase::Finish,
            ScreenFadePhase::Finish => ScreenFadePhase::Finish,
        }
    }
}

pub open spec fn fade_step(phase: ScreenFadePhase, just_finished: bool) -> FadeStep {
    match phase {
        ScreenFadePhase::FadeOut => FadeStep { alpha: FadeAlpha::Elapsed, restart_timer: just_finished },
        ScreenFadePhase::Hold => FadeStep { alpha: FadeAlpha::Unchanged, restart_timer: just_finished },
        ScreenFadePhase::FadeIn => FadeStep { alpha: FadeAlpha::Remaining, restart_timer: false },
        ScreenFadePhase::Finish => FadeStep { alpha: FadeAlpha::Unchanged, restart_timer: false },
    }
}

impl ScreenFader {
    /// The fader started by a `FadeCam` event, with a fresh timer.
    pub fn on_fade_cam(event: &FadeCam) -> (fader: ScreenFader)
        ensures
            fader.phase == event.0,
    {
        ScreenFader { phase: event.0 }
    }

    /// One frame of the fade, after the fade timer ticked.
    pub fn screen_fade(&mut self, just_finished: bool) -> (step: FadeStep)
        ensures
            final(self).phase == next_phase(old(self).phase, just_finished),
            step == fade_step(old(self).phase, just_finished),
    {
        match self.phase {
            ScreenFadePhase::FadeOut => {
                if just_finished {
                    self.phase = ScreenFadePhase::Hold;
                }
                FadeStep { alpha: FadeAlpha::Elapsed, restart_timer: just_finished }
            },
            ScreenFadePhase::Hold => {
                if just_finished {
                    self.phase = ScreenFadePhase::FadeIn;
                }
                FadeStep { alpha: FadeAlpha::Unchanged, restart_timer: just_finished }
            },
            ScreenFadePhase::FadeIn => {
                if just_finished {
                    self.phase = ScreenFadePhase::Finish;
                }
                FadeStep { alpha: FadeAlpha::Remaining, restart_timer: false }
            },
            ScreenFadePhase::Finish => FadeStep { alpha: FadeAlpha::Unchanged, restart_timer: false },
        }
    }
}

/// A fade never goes back to an earlier phase.
pub proof fn lemma_fade_moves_forward(phase: ScreenFadePhase, just_finished: bool)
    ensures
        phase_rank(phase) <= phase_rank(next_phase(phase, just_finished)),
        just_finished && phase != ScreenFadePhase::Finish ==> phase_rank(
            next_phase(phase, just_finished),
        ) == phase_rank(phase) + 1,
{
}

/// Fading out darkens the screen with the elapsed time, holding keeps it dark,
/// fading in clears it with the remaining time, and a finished fade leaves it
/// alone; only the fade out and the hold restart the timer when it finishes.
pub proof fn lemma_fade_alpha(phase: ScreenFadePhase, just_finished: bool)
    ensures
        phase == ScreenFadePhase::FadeOut ==> fade_step(phase, just_finished).alpha == FadeAlpha::Elapsed,
        phase == ScreenFadePhase::Hold ==> fade_step(phase, just_finished).alpha == FadeAlpha::Unchanged,
        phase == ScreenFadePhase::FadeIn ==> fade_step(phase, just_finished).alpha == FadeAlpha::Remaining,
        phase == ScreenFadePhase::Finish ==> fade_step(phase, just_finished).alpha == FadeAlpha::Unchanged,
        fade_step(phase, just_finished).restart_timer <==> (just_finished && (phase
            == ScreenFadePhase::FadeOut || phase == ScreenFadePhase::Hold)),
        just_finished && phase == ScreenFadePhase::FadeOut ==> next_phase(phase, just_finished)
            == ScreenFadePhase::Hold,
        just_finished && phase == ScreenFadePhase::Hold ==> next_phase(phase, just_finished)
            == ScreenFadePhase::FadeIn,
        just_finished && phase == ScreenFadePhase::FadeIn ==> next_phase(phase, just_finished)
            == ScreenFadePhase::Finish,
        !just_finished ==> next_phase(phase, just_finished) == phase,
{
}

/// A finished fade stays finished and leaves the overlay alone.
pub proof fn lemma_finish_is_final(just_finished: bool)
    ensures
        next_phase(ScreenFadePhase::Finish, just_finished) == ScreenFadePhase::Finish,
        fade_step(ScreenFadePhase::Finish, just_finished) == (FadeStep {
            alpha: FadeAlpha::Unchanged,
            restart_timer: false,
        }),
{
}

/// A fade started by fading out reaches the end after its timer finished
/// three times, and does not end before.
pub proof fn lemma_fade_out_ends_after_three_timers()
    ensures
        next_phase(next_phase(next_phase(ScreenFadePhase::FadeOut, true), true), true)
            == ScreenFadePhase::Finish,
        next_phase(next_phase(ScreenFadePhase::FadeOut, true), true) != ScreenFadePhase::Finish,
{
}

/// The registrations of this module's plugin, in order.
pub open spec fn plugin_steps() -> Seq<Registration> {
    seq![
        Registration::System { schedule: Schedule::OnEnter(Screen::Gameplay), system: SystemId::SpawnFadeComponent, condition: RunCondition::Always, set: None, after: None },
        Registration::System { schedule: Schedule::Update, system: SystemId::ScreenFade, condition: RunCondition::Always, set: None, after: None },
        Registration::Observer(SystemId::OnFadeCam),
    ]
}

/// The fade plugin spawns the overlay on entering gameplay, runs the fade on
/// every frame with no run condition (so that a fade started in any screen
/// advances), and observes fade requests, in that order; the fade system is
/// registered nowhere else.
pub proof fn lemma_fade_runs_every_frame()
    ensures
        plugin_steps().len() == 3,
        plugin_steps()[0] == (Registration::System {
            schedule: Schedule::OnEnter(Screen::Gameplay),
            system: SystemId::SpawnFadeComponent,
            condition: RunCondition::Always,
            set: None,
            after: None,
        }),
        plugin_steps()[1] == (Registration::System {
            schedule: Schedule::Update,
            system: SystemId::ScreenFade,
            condition: RunCondition::Always,
            set: None,
            after: None,
        }),
        plugin_steps()[2] == Registration::Observer(SystemId::OnFadeCam),
        forall|i: int|
            0 <= i < plugin_steps().len() && (#[trigger] plugin_steps()[i] matches Registration::System {
                system: SystemId::ScreenFade,
                ..
            }) ==> plugin_steps()[i] == (Registration::System {
                schedule: Schedule::Update,
                system: SystemId::ScreenFade,
                condition: RunCondition::Always,
                set: None,
                after: None,
            }),
{
}

/// Spawns the fade overlay for gameplay and runs screen fades.
pub fn plugin(app: &mut AppPlan)
    ensures
        final(app)@ == old(app)@ + plugin_steps(),
        final(app)@.len() == old(app)@.len() + 3,
        final(app)@[old(app)@.len() + 1int] == (Registration::System {
            schedule: Schedule::Update,
            system: SystemId::ScreenFade,
            condition: RunCondition::Always,
            set: None,
            after: None,
        }),
{
    let ghost start = app@;
    app.add(Registration::System { schedule: Schedule::OnEnter(Screen::Gameplay), system: SystemId::SpawnFadeComponent, condition: RunCondition::Always, set: None, after: None });
    app.add(Registration::System { schedule: Schedule::Update, system: SystemId::ScreenFade, condition: RunCondition::Always, set: None, after: None });
    app.add(Registration::Observer(SystemId::OnFadeCam));
    assert(app@ =~= start + plugin_steps());
}

} // verus!
