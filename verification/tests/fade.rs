use third_person_core::game::dialogue::start_cutscene;
use third_person_core::scene::screen_fade::{
    FadeAlpha, FadeCam, FadeStep, ScreenFadePhase, ScreenFader,
};
use third_person_core::scene::skybox::SunCycle;

#[test]
fn fade_runs_out_hold_in_finish() {
    let mut f = ScreenFader::on_fade_cam(&FadeCam(ScreenFadePhase::FadeOut));
    assert_eq!(f.screen_fade(false), FadeStep { alpha: FadeAlpha::Elapsed, restart_timer: false });
    assert_eq!(f.phase, ScreenFadePhase::FadeOut);
    assert_eq!(f.screen_fade(true), FadeStep { alpha: FadeAlpha::Elapsed, restart_timer: true });
    assert_eq!(f.phase, ScreenFadePhase::Hold);
    assert_eq!(f.screen_fade(false), FadeStep { alpha: FadeAlpha::Unchanged, restart_timer: false });
    assert_eq!(f.screen_fade(true), FadeStep { alpha: FadeAlpha::Unchanged, restart_timer: true });
    assert_eq!(f.phase, ScreenFadePhase::FadeIn);
    assert_eq!(f.screen_fade(false), FadeStep { alpha: FadeAlpha::Remaining, restart_timer: false });
    assert_eq!(f.screen_fade(true), FadeStep { alpha: FadeAlpha::Remaining, restart_timer: false });
    assert_eq!(f.phase, ScreenFadePhase::Finish);
    assert_eq!(f.screen_fade(true), FadeStep { alpha: FadeAlpha::Unchanged, restart_timer: false });
    assert_eq!(f.phase, ScreenFadePhase::Finish);
}

#[test]
fn fade_can_start_in_any_phase() {
    let mut f = ScreenFader::on_fade_cam(&FadeCam(ScreenFadePhase::FadeIn));
    assert_eq!(f.phase, ScreenFadePhase::FadeIn);
    f.screen_fade(true);
    assert_eq!(f.phase, ScreenFadePhase::Finish);
}

#[test]
fn cutscene_fades_only_on_a_true_flag() {
    assert_eq!(start_cutscene(Some(Some(true))), Some(FadeCam(ScreenFadePhase::FadeOut)));
    assert_eq!(start_cutscene(Some(Some(false))), None);
    assert_eq!(start_cutscene(Some(None)), None);
    assert_eq!(start_cutscene(None), None);
}

#[test]
fn sun_cycle_names() {
    assert_eq!(SunCycle::DayNight.as_str(), "DayNight");
    assert_eq!(SunCycle::Nimbus.as_str(), "Nimbus");
}
