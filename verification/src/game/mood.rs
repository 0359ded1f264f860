//! The music follows the mood of the place the player is in: each mood has its
//! own looping track, and changing the mood crossfades between them.
use crate::asset_loading::{picked, track_count, AudioSources, Playlist};
use crate::app_plan::{AppPlan, Registration, ResourceKind, RunCondition, Schedule, StateKind, SystemId};
use crate::screens::Screen;
use vstd::prelude::*;

verus! {

/// The mood of a zone, and of the music playing in it.
#[derive(Clone, Copy, Debug, PartialEq, Eq, Structural)]
pub enum Mood {
    Exploration,
    Combat,
}

impl Default for Mood {
    fn default() -> (m: Self)
        ensures
            m == Mood::Exploration,
    {
        Mood::Exploration
    }
}

/// The playlist whose music fits a mood.
pub open spec fn mood_playlist(mood: Mood) -> Playlist {
    match mood {
        Mood::Exploration => Playlist::Explore,
        Mood::Combat => Playlist::Combat,
    }
}

pub fn playlist_for(mood: Mood) -> (p: Playlist)
    ensures
        p == mood_playlist(mood),
        mood == Mood::Exploration ==> p == Playlist::Explore,
        mood == Mood::Combat ==> p == Playlist::Combat,
{
    match mood {
        Mood::Exploration => Playlist::Explore,
        Mood::Combat => Playlist::Combat,
    }
}

/// Asks to change the music to a mood.
#[derive(Clone, Copy, Debug, PartialEq, Eq, Structural)]
pub struct ChangeMood {
    pub entity: u64,
    pub mood: Mood,
}

/// The entities currently playing music, one per mood at most.
#[derive(Clone, Copy, Debug)]
pub struct MusicPlaybacks {
    exploration: Option<u64>,
    combat: Option<u64>,
}

/// The moods in their declared order.
pub open spec fn all_moods() -> Seq<Mood> {
    seq![Mood::Exploration, Mood::Combat]
}

/// The tracks of a playback map whose mood is not `except`, in the order of
/// the moods.
pub open spec fn tracks_except(m: Map<Mood, u64>, except: Option<Mood>) -> Seq<u64> {
    let e = if m.contains_key(Mood::Exploration) && except != Some(Mood::Exploration) {
        seq![m[Mood::Exploration]]
    } else {
        Seq::empty()
    };
    let c = if m.contains_key(Mood::Combat) && except != Some(Mood::Combat) {
        seq![m[Mood::Combat]]
    } else {
        Seq::empty()
    };
    e + c
}

pub open spec fn slot_map(exploration: Option<u64>, combat: Option<u64>) -> Map<Mood, u64> {
    let m = match exploration {
        Some(e) => Map::empty().insert(Mood::Exploration, e),
        None => Map::empty(),
    };
    match combat {
        Some(c) => m.insert(Mood::Combat, c),
        None => m,
    }
}

impl View for MusicPlaybacks {
    type V = Map<Mood, u64>;

    closed spec fn view(&self) -> Map<Mood, u64> {
        slot_map(self.exploration, self.combat)
    }
}

/// The map with the pairs inserted in order: a later pair wins.
pub open spec fn map_of_pairs(pairs: Seq<(Mood, u64)>) -> Map<Mood, u64>
    decreases pairs.len(),
{
    if pairs.len() == 0 {
        Map::empty()
    } else {
        map_of_pairs(pairs.drop_last()).insert(pairs.last().0, pairs.last().1)
    }
}

impl MusicPlaybacks {
    pub fn new() -> (music: Self)
        ensures
            music@ == Map::<Mood, u64>::empty(),
    {
        let music = MusicPlaybacks { exploration: None, combat: None };
        assert(music@ =~= Map::<Mood, u64>::empty());
        music
    }

    /// The entity playing a mood's music.
    pub fn get(&self, mood: Mood) -> (track: Option<u64>)
        ensures
            track == if self@.contains_key(mood) {
                Some(self@[mood])
            } else {
                None
            },
    {
        match mood {
            Mood::Exploration => self.exploration,
            Mood::Combat => self.combat,
        }
    }

    /// Records the entity playing a mood's music, in place of any earlier one.
    pub fn insert(&mut self, mood: Mood, entity: u64)
        ensures
            final(self)@ == old(self)@.insert(mood, entity),
    {
        match mood {
            Mood::Exploration => self.exploration = Some(entity),
            Mood::Combat => self.combat = Some(entity),
        }
        assert(self@ =~= old(self)@.insert(mood, entity));
    }

    /// The map of the pairs, a later pair for the same mood winning.
    pub fn from_pairs(pairs: &Vec<(Mood, u64)>) -> (music: Self)
        ensures
            music@ == map_of_pairs(pairs@),
    {
        let mut music = MusicPlaybacks::new();
        let mut i: usize = 0;
        while i < pairs.len()
            invariant
                i <= pairs@.len(),
                music@ == map_of_pairs(pairs@.subrange(0, i as int)),
            decreases pairs@.len() - i,
        {
            let (mood, entity) = pairs[i];
            music.insert(mood, entity);
            assert(pairs@.subrange(0, i + 1).drop_last() =~= pairs@.subrange(0, i as int));
            i = i + 1;
        }
        assert(pairs@.subrange(0, pairs@.len() as int) =~= pairs@);
        music
    }

    /// The entities playing music, in the order of their moods.
    pub fn tracks(&self) -> (tracks: Vec<u64>)
        ensures
            tracks@ == tracks_except(self@, None),
    {
        self.tracks_except(None)
    }

    /// The entities playing the music of moods other than `except`, in the
    /// order of their moods.
    pub fn tracks_except(&self, except: Option<Mood>) -> (tracks: Vec<u64>)
        ensures
            tracks@ == tracks_except(self@, except),
    {
        let mut tracks: Vec<u64> = Vec::new();
        match self.exploration {
            Some(e) => {
                if except != Some(Mood::Exploration) {
                    tracks.push(e);
                }
            },
            None => {},
        }
        match self.combat {
            Some(c) => {
                if except != Some(Mood::Combat) {
                    tracks.push(c);
                }
            },
            None => {},
        }
        assert(tracks@ =~= tracks_except(self@, except));
        tracks
    }

    /// A music entity was spawned: when it has a mood, it now plays that mood.
    pub fn track_entity(&mut self, mood: Option<Mood>, entity: u64)
        ensures
            final(self)@ == match mood {
                Some(m) => old(self)@.insert(m, entity),
                None => old(self)@,
            },
    {
        match mood {
            Some(m) => self.insert(m, entity),
            None => {},
        }
    }
}

/// What changing the mood of the music does.
#[derive(Debug)]
pub struct MoodChange {
    /// The tracks of the other moods, to fade out.
    pub fade_out: Vec<u64>,
    /// The new mood's track, to fade in, when there is one.
    pub fade_in: Option<u64>,
    /// Otherwise the track of the new mood's playlist to spawn, fading in.
    pub spawn: Option<usize>,
}

/// Changes the music to `mood`: fades out the other moods' tracks, then fades
/// in the mood's track, or spawns a new one from its playlist when there is
/// none.
pub fn on_change_mood(music: &MusicPlaybacks, sources: &mut AudioSources, mood: Mood) -> (change:
    MoodChange)
    requires
        old(sources).wf(),
    ensures
        final(sources).wf(),
        forall|p: Playlist| #[trigger] final(sources).tracks(p) == old(sources).tracks(p),
        change.fade_out@ == tracks_except(music@, Some(mood)),
        music@.contains_key(mood) ==> change.fade_in == Some(music@[mood]) && change.spawn is None,
        !music@.contains_key(mood) ==> change.fade_in is None && change.spawn == Some(
            old(sources).next_track(mood_playlist(mood)),
        ),
        change.spawn matches Some(t) ==> t < track_count(mood_playlist(mood)) && picked(
            *old(sources),
            *final(sources),
            mood_playlist(mood),
            t,
        ),
        music@.contains_key(mood) ==> *final(sources) == *old(sources),
{
    let fade_out = music.tracks_except(Some(mood));
    match music.get(mood) {
        Some(track) => MoodChange { fade_out, fade_in: Some(track), spawn: None },
        None => {
            let track = sources.pick(playlist_for(mood));
            MoodChange { fade_out, fade_in: None, spawn: Some(track) }
        },
    }
}

/// How the soundtrack starts when gameplay begins.
#[derive(Clone, Copy, Debug, PartialEq, Eq, Structural)]
pub enum SoundtrackStart {
    /// The current mood's track exists: fade it in.
    FadeIn(u64),
    /// Spawn this track of the exploration playlist, fading in; it becomes
    /// the only music playing, for the default mood.
    Spawn(usize),
}

/// Starts the soundtrack for the current mood.
pub fn start_soundtrack(music: &MusicPlaybacks, sources: &mut AudioSources, mood: Mood) -> (start:
    SoundtrackStart)
    requires
        old(sources).wf(),
    ensures
        final(sources).wf(),
        forall|p: Playlist| #[trigger] final(sources).tracks(p) == old(sources).tracks(p),
        music@.contains_key(mood) ==> start == SoundtrackStart::FadeIn(music@[mood])
            && *final(sources) == *old(sources),
        !music@.contains_key(mood) ==> start == SoundtrackStart::Spawn(
            old(sources).next_track(Playlist::Explore),
        ),
        start matches SoundtrackStart::Spawn(t) ==> t < track_count(Playlist::Explore) && picked(
            *old(sources),
            *final(sources),
            Playlist::Explore,
            t,
        ),
{
    match music.get(mood) {
        Some(track) => SoundtrackStart::FadeIn(track),
        None => SoundtrackStart::Spawn(sources.pick(Playlist::Explore)),
    }
}

/// A music entity was despawned: when it was the track of the current mood,
/// returns the next track of the mood's playlist, to spawn in its place.
pub fn keep_playlist_playing(
    music: &MusicPlaybacks,
    sources: &mut AudioSources,
    mood: Mood,
    despawned: u64,
) -> (next: Option<usize>)
    requires
        old(sources).wf(),
    ensures
        final(sources).wf(),
        forall|p: Playlist| #[trigger] final(sources).tracks(p) == old(sources).tracks(p),
        next is Some <==> (music@.contains_key(mood) && music@[mood] == despawned),
        next is Some ==> next == Some(old(sources).next_track(mood_playlist(mood))),
        next matches Some(t) ==> t < track_count(mood_playlist(mood)) && picked(
            *old(sources),
            *final(sources),
            mood_playlist(mood),
            t,
        ),
        next is None ==> *final(sources) == *old(sources),
{
    match music.get(mood) {
        Some(current) => {
            if current == despawned {
                Some(sources.pick(playlist_for(mood)))
            } else {
                None
            }
        },
        None => None,
    }
}

/// The mood changes asked for by the zones the player collides with, in the
/// order of the zones: one for each zone whose mood is not the current one.
pub open spec fn mood_changes(player: u64, current: Mood, zones: Seq<Mood>) -> Seq<ChangeMood>
    decreases zones.len(),
{
    if zones.len() == 0 {
        Seq::empty()
    } else {
        let rest = mood_changes(player, current, zones.drop_last());
        if zones.last() != current {
            rest.push(ChangeMood { entity: player, mood: zones.last() })
        } else {
            rest
        }
    }
}

/// The mood changes for the zones (by their moods) that the player collides with.
pub fn trigger_mood_change(player: u64, current: Mood, colliding: &Vec<Mood>) -> (changes: Vec<
    ChangeMood,
>)
    ensures
        changes@ == mood_changes(player, current, colliding@),
{
    let mut changes: Vec<ChangeMood> = Vec::new();
    let mut i: usize = 0;
    while i < colliding.len()
        invariant
            i <= colliding@.len(),
            changes@ == mood_changes(player, current, colliding@.subrange(0, i as int)),
        decreases colliding@.len() - i,
    {
        let mood = colliding[i];
        assert(colliding@.subrange(0, i + 1).drop_last() =~= colliding@.subrange(0, i as int));
        if mood != current {
            changes.push(ChangeMood { entity: player, mood });
        }
        i = i + 1;
    }
    assert(colliding@.subrange(0, colliding@.len() as int) =~= colliding@);
    changes
}

/// Exploration plays the exploration playlist and combat the combat playlist:
/// each mood has a playlist of its own.
pub proof fn lemma_each_mood_its_playlist(a: Mood, b: Mood)
    ensures
        mood_playlist(Mood::Exploration) == Playlist::Explore,
        mood_playlist(Mood::Combat) == Playlist::Combat,
        mood_playlist(a) == mood_playlist(b) ==> a == b,
{
}

/// Reading a mood's track after recording one gives the recorded entity, and
/// the other mood's track is untouched.
pub proof fn lemma_playbacks_read_after_write(m: Map<Mood, u64>, mood: Mood, entity: u64, other: Mood)
    requires
        other != mood,
    ensures
        m.insert(mood, entity).contains_key(mood),
        m.insert(mood, entity)[mood] == entity,
        m.insert(mood, entity).contains_key(other) == m.contains_key(other),
        m.contains_key(other) ==> m.insert(mood, entity)[other] == m[other],
{
}

/// A mood change fades out only tracks that play another mood.
pub proof fn lemma_change_fades_only_other_moods(m: Map<Mood, u64>, mood: Mood)
    ensures
        forall|k: int|
            0 <= k < tracks_except(m, Some(mood)).len() ==> exists|o: Mood|
                o != mood && m.contains_key(o) && m[o] == #[trigger] tracks_except(m, Some(mood))[k],
{
    assert forall|k: int| 0 <= k < tracks_except(m, Some(mood)).len() implies exists|o: Mood|
        o != mood && m.contains_key(o) && m[o] == #[trigger] tracks_except(m, Some(mood))[k] by {
        let t = tracks_except(m, Some(mood));
        if m.contains_key(Mood::Exploration) && mood != Mood::Exploration && k == 0 {
            assert(m[Mood::Exploration] == t[k]);
        } else {
            assert(m[Mood::Combat] == t[k]);
        }
    }
}

/// No zone asks for the mood that is already current, and every zone of
/// another mood asks once.
pub proof fn lemma_no_change_to_current_mood(player: u64, current: Mood, zones: Seq<Mood>)
    ensures
        forall|i: int| 0 <= i < mood_changes(player, current, zones).len()
            ==> #[trigger] mood_changes(player, current, zones)[i].mood != current
            && mood_changes(player, current, zones)[i].entity == player,
        mood_changes(player, current, zones).len() <= zones.len(),
    decreases zones.len(),
{
    if zones.len() > 0 {
        lemma_no_change_to_current_mood(player, current, zones.drop_last());
    }
}

/// The registrations of this module's plugin, in order.
pub open spec fn plugin_steps() -> Seq<Registration> {
    seq![
        Registration::InitState(StateKind::Mood),
        Registration::InitResource(ResourceKind::MusicPlaybacks),
        Registration::System { schedule: Schedule::OnExit(Screen::Gameplay), system: SystemId::StopSoundtrack, condition: RunCondition::Always, set: None, after: None },
        Registration::System { schedule: Schedule::OnEnter(Screen::Gameplay), system: SystemId::StartSoundtrack, condition: RunCondition::Always, set: None, after: None },
        Registration::System { schedule: Schedule::Update, system: SystemId::TriggerMoodChange, condition: RunCondition::InScreenThrottled(Screen::Gameplay, 200), set: None, after: None },
        Registration::Observer(SystemId::OnChangeMood),
        Registration::Observer(SystemId::TrackEntity),
        Registration::Observer(SystemId::KeepPlaylistPlaying),
    ]
}

/// Plays the music of the current mood during gameplay and follows mood changes.
pub fn plugin(app: &mut AppPlan)
    ensures
        final(app)@ == old(app)@ + plugin_steps(),
{
    let ghost start = app@;
    app.add(Registration::InitState(StateKind::Mood));
    app.add(Registration::InitResource(ResourceKind::MusicPlaybacks));
    app.add(Registration::System { schedule: Schedule::OnExit(Screen::Gameplay), system: SystemId::StopSoundtrack, condition: RunCondition::Always, set: None, after: None });
    app.add(Registration::System { schedule: Schedule::OnEnter(Screen::Gameplay), system: SystemId::StartSoundtrack, condition: RunCondition::Always, set: None, after: None });
    app.add(Registration::System { schedule: Schedule::Update, system: SystemId::TriggerMoodChange, condition: RunCondition::InScreenThrottled(Screen::Gameplay, 200), set: None, after: None });
    app.add(Registration::Observer(SystemId::OnChangeMood));
    app.add(Registration::Observer(SystemId::TrackEntity));
    app.add(Registration::Observer(SystemId::KeepPlaylistPlaying));
    assert(app@ =~= start + plugin_steps());
}

} // verus!
