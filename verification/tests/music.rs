use third_person_core::asset_loading::{
    AudioSources, Playlist, COMBAT, EXPLORE, MENU, STEPS,
};
use third_person_core::game::mood::{
    keep_playlist_playing, on_change_mood, playlist_for, start_soundtrack, trigger_mood_change,
    ChangeMood, Mood, MusicPlaybacks, SoundtrackStart,
};
use third_person_core::player::sound::{dash_sound, jump_sound};
use third_person_core::screens::credits::start_credits_music;
use third_person_core::screens::title::start_main_menu_music;
use third_person_core::shared::states::GameState;

#[test]
fn picks_stay_within_their_playlists() {
    let mut sources = AudioSources::new();
    for _ in 0..50 {
        assert!(sources.pick(Playlist::Steps) < STEPS.len());
        assert!(sources.pick(Playlist::Menu) < MENU.len());
        assert!(sources.pick(Playlist::Explore) < EXPLORE.len());
        assert!(sources.pick(Playlist::Combat) < COMBAT.len());
    }
}

#[test]
fn footsteps_play_every_track_once_per_draft() {
    let mut sources = AudioSources::new();
    for _ in 0..4 {
        let mut seen = vec![false; STEPS.len()];
        for _ in 0..STEPS.len() {
            let t = sources.pick(Playlist::Steps);
            assert!(!seen[t]);
            seen[t] = true;
        }
        assert!(seen.iter().all(|s| *s));
    }
}

#[test]
fn playbacks_read_what_was_written() {
    let mut m = MusicPlaybacks::new();
    assert_eq!(m.get(Mood::Exploration), None);
    assert!(m.tracks().is_empty());
    m.insert(Mood::Combat, 9);
    m.insert(Mood::Exploration, 4);
    m.insert(Mood::Combat, 10);
    assert_eq!(m.get(Mood::Combat), Some(10));
    assert_eq!(m.get(Mood::Exploration), Some(4));
    assert_eq!(m.tracks(), vec![4, 10]);
    m.track_entity(None, 99);
    assert_eq!(m.tracks(), vec![4, 10]);
    m.track_entity(Some(Mood::Exploration), 5);
    assert_eq!(m.get(Mood::Exploration), Some(5));
    let p = MusicPlaybacks::from_pairs(&vec![(Mood::Exploration, 1), (Mood::Exploration, 2)]);
    assert_eq!(p.tracks(), vec![2]);
    assert_eq!(Mood::default(), Mood::Exploration);
    assert_eq!(playlist_for(Mood::Combat), Playlist::Combat);
}

#[test]
fn changing_mood_fades_out_the_others() {
    let mut sources = AudioSources::new();
    let mut m = MusicPlaybacks::new();
    m.insert(Mood::Exploration, 11);
    let c = on_change_mood(&m, &mut sources, Mood::Combat);
    assert_eq!(c.fade_out, vec![11]);
    assert_eq!(c.fade_in, None);
    assert_eq!(c.spawn, Some(0));
    m.insert(Mood::Combat, 12);
    let c = on_change_mood(&m, &mut sources, Mood::Exploration);
    assert_eq!(c.fade_out, vec![12]);
    assert_eq!(c.fade_in, Some(11));
    assert_eq!(c.spawn, None);
}

#[test]
fn soundtrack_starts_from_exploration_or_fades_in() {
    let mut sources = AudioSources::new();
    let mut m = MusicPlaybacks::new();
    assert_eq!(start_soundtrack(&m, &mut sources, Mood::Combat), SoundtrackStart::Spawn(0));
    m.insert(Mood::Combat, 3);
    assert_eq!(start_soundtrack(&m, &mut sources, Mood::Combat), SoundtrackStart::FadeIn(3));
}

#[test]
fn playlist_keeps_playing_only_for_the_current_track() {
    let mut sources = AudioSources::new();
    let mut m = MusicPlaybacks::new();
    assert_eq!(keep_playlist_playing(&m, &mut sources, Mood::Exploration, 5), None);
    m.insert(Mood::Exploration, 5);
    assert_eq!(keep_playlist_playing(&m, &mut sources, Mood::Exploration, 6), None);
    assert_eq!(keep_playlist_playing(&m, &mut sources, Mood::Exploration, 5), Some(0));
    assert_eq!(keep_playlist_playing(&m, &mut sources, Mood::Combat, 5), None);
}

#[test]
fn zones_of_other_moods_ask_for_a_change() {
    let zones = vec![Mood::Combat, Mood::Exploration, Mood::Combat];
    assert_eq!(
        trigger_mood_change(1, Mood::Exploration, &zones),
        vec![ChangeMood { entity: 1, mood: Mood::Combat }, ChangeMood { entity: 1, mood: Mood::Combat }]
    );
    assert!(trigger_mood_change(1, Mood::Combat, &vec![Mood::Combat]).is_empty());
    assert!(trigger_mood_change(1, Mood::Combat, &vec![]).is_empty());
}

#[test]
fn sounds_respect_mute_and_pause() {
    let mut sources = AudioSources::new();
    let running = GameState::default();
    assert!(jump_sound(&running, &mut sources).unwrap() < STEPS.len());
    assert!(dash_sound(&running, &mut sources).unwrap() < STEPS.len());
    let muted = GameState { muted: true, ..GameState::default() };
    assert_eq!(jump_sound(&muted, &mut sources), None);
    let paused = GameState { paused: true, ..GameState::default() };
    assert_eq!(dash_sound(&paused, &mut sources), None);
    assert_eq!(start_main_menu_music(&mut sources), 0);
    assert_eq!(start_credits_music(&mut sources), 0);
}

#[test]
fn footsteps_never_repeat_back_to_back() {
    let mut sources = AudioSources::new();
    let mut last = sources.pick(Playlist::Steps);
    for _ in 0..200 {
        let next = sources.pick(Playlist::Steps);
        assert_ne!(next, last);
        last = next;
    }
}
