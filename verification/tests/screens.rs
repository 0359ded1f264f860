use third_person_core::camera::{on_toggle_cam_cursor, CursorGrabMode, CursorOptions};
use third_person_core::models::event_dispatch::back;
use third_person_core::models::events::{mute, pause, ToggleMute, TogglePause};
use third_person_core::player::input::{modal_ctx_active, player_ctx_active, InputContexts};
use third_person_core::screens::gameplay::{toggle_mute, toggle_pause};
use third_person_core::screens::title::setup_menu;
use third_person_core::screens::{
    click_go_to, on_back, on_esc, on_go_to, unpause_on_enter, Back, GoTo, Screen,
};
use third_person_core::shared::states::GameState;
use third_person_core::ui::modal::{Modal, Modals};

#[test]
fn game_state_defaults() {
    let s = GameState::default();
    assert_eq!(s.last_screen, Screen::Title);
    assert!(s.diagnostics && s.debug_ui && !s.paused && !s.muted);
    assert_eq!(Screen::default(), Screen::Loading);
    assert!(s.sounds_enabled());
}

#[test]
fn reset_clears_pause_and_mute_only() {
    let mut s = GameState {
        last_screen: Screen::Credits,
        diagnostics: false,
        debug_ui: true,
        paused: true,
        muted: true,
    };
    s.reset();
    assert_eq!(
        s,
        GameState {
            last_screen: Screen::Credits,
            diagnostics: false,
            debug_ui: true,
            paused: false,
            muted: false
        }
    );
}

#[test]
fn escape_goes_back_except_on_menus() {
    let mut s = GameState::default();
    s.track_last_screen(Some(Screen::Settings));
    assert_eq!(s.last_screen, Screen::Settings);
    for screen in [Screen::Splash, Screen::Title, Screen::Loading] {
        assert_eq!(on_esc(7, &screen, &s), None);
        assert_eq!(back(7, &screen, &s), None);
    }
    let b = on_esc(7, &Screen::Credits, &s).unwrap();
    assert_eq!(b, Back { entity: 7, screen: Screen::Settings });
    assert_eq!(back(7, &Screen::Credits, &s), Some(b));
    assert_eq!(on_back(&b, &Screen::Credits), Some(Screen::Settings));
    // during gameplay the back request is handled by the modals
    let g = on_esc(7, &Screen::Gameplay, &s).unwrap();
    assert_eq!(on_back(&g, &Screen::Gameplay), None);
}

#[test]
fn transitions_without_an_exited_screen_count_as_title() {
    let mut s = GameState::default();
    s.track_last_screen(Some(Screen::Gameplay));
    s.track_last_screen(None);
    assert_eq!(s.last_screen, Screen::Title);
}

#[test]
fn go_to_and_click_go_to() {
    assert_eq!(on_go_to(&GoTo(Screen::Credits)), Screen::Credits);
    assert_eq!(click_go_to(Some(Screen::Gameplay)), Some(GoTo(Screen::Gameplay)));
    assert_eq!(click_go_to(None), None);
    assert!(Screen::Gameplay.is_gameplay());
    assert!(!Screen::Title.is_gameplay());
}

#[test]
fn entering_gameplay_unpauses() {
    let mut s = GameState { paused: true, muted: true, ..GameState::default() };
    assert!(unpause_on_enter(&mut s, false));
    assert!(!s.paused && !s.muted);
    let mut s = GameState { muted: true, ..GameState::default() };
    assert!(unpause_on_enter(&mut s, true));
    assert!(!s.muted);
    let mut s = GameState { muted: true, ..GameState::default() };
    assert!(!unpause_on_enter(&mut s, false));
    assert!(s.muted);
}

#[test]
fn pause_and_resume_alternate() {
    let mut s = GameState::default();
    assert_eq!(toggle_pause(&mut s, false, true), Some(true));
    assert!(s.paused);
    assert_eq!(toggle_pause(&mut s, true, true), Some(false));
    assert!(!s.paused);
    // without the icon only the flag flips
    assert_eq!(toggle_pause(&mut s, false, false), None);
    assert!(s.paused);
    // time paused by someone else: the toggle resumes
    let mut s = GameState::default();
    assert_eq!(toggle_pause(&mut s, true, true), Some(false));
}

#[test]
fn mute_and_unmute_alternate() {
    let mut s = GameState::default();
    assert_eq!(toggle_mute(&mut s, true), Some(true));
    assert!(s.muted && !s.sounds_enabled());
    assert_eq!(toggle_mute(&mut s, true), Some(false));
    assert!(!s.muted);
    assert_eq!(toggle_mute(&mut s, false), None);
    assert!(s.muted);
}

#[test]
fn cursor_toggle_round_trip() {
    let mut c = CursorOptions { visible: true, grab_mode: CursorGrabMode::Free };
    on_toggle_cam_cursor(&mut c);
    assert_eq!(c, CursorOptions { visible: false, grab_mode: CursorGrabMode::Locked });
    on_toggle_cam_cursor(&mut c);
    assert_eq!(c, CursorOptions { visible: true, grab_mode: CursorGrabMode::Free });
    let mut c = CursorOptions { visible: false, grab_mode: CursorGrabMode::Confined };
    on_toggle_cam_cursor(&mut c);
    assert_eq!(c, CursorOptions { visible: true, grab_mode: CursorGrabMode::Free });
}

#[test]
fn input_contexts_are_exclusive() {
    assert_eq!(modal_ctx_active(), InputContexts { modal: true, player: false });
    assert_eq!(player_ctx_active(), InputContexts { modal: false, player: true });
}

#[test]
fn input_events_carry_the_entity() {
    assert_eq!(pause(3), TogglePause(3));
    assert_eq!(mute(4), ToggleMute(4));
}

#[test]
fn title_screen_starts_over() {
    let mut s = GameState { paused: true, muted: true, ..GameState::default() };
    let mut m = Modals(vec![Modal::Main, Modal::Settings]);
    setup_menu(&mut s, &mut m);
    assert!(!s.paused && !s.muted);
    assert!(m.is_empty());
}
