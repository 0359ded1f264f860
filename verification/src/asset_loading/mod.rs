//! The game's audio playlists. Each playlist is a shuffle bag of track
//! indices into a table of asset paths, so that every track of a playlist
//! plays once, in a random order, before any plays again.
pub mod tracking;

use bevy_shuffle_bag::ShuffleBag;
use rand::rngs::ThreadRng;
use crate::app_plan::{AppPlan, ConfigFile, Registration, ResourceKind};
use vstd::prelude::*;

verus! {

#[verifier::external_type_specification]
#[verifier::external_body]
#[verifier::reject_recursive_types(T)]
pub struct ExShuffleBag<T>(ShuffleBag<T>);

#[verifier::external_type_specification]
#[verifier::external_body]
pub struct ExThreadRng(ThreadRng);

/// The full collection of a shuffle bag (its field `full_collection`).
pub uninterp spec fn bag_items(bag: ShuffleBag<usize>) -> Seq<usize>;

/// The current draft of a shuffle bag (its field `current_draft`): indices
/// into the full collection still to be picked, the next pick last.
pub uninterp spec fn bag_draft(bag: ShuffleBag<usize>) -> Seq<usize>;

/// `d` holds every index below `n` exactly once.
pub open spec fn is_index_permutation(d: Seq<usize>, n: nat) -> bool {
    &&& d.len() == n
    &&& forall|i: int| 0 <= i < d.len() ==> #[trigger] d[i] < n
    &&& forall|i: int, j: int| 0 <= i < j < d.len() ==> d[i] != d[j]
}

/// `rand::rng()`: a handle to the thread-local random generator. Nothing is
/// stated of it; the generator reseeds itself from the system and panics only
/// when the system gives it no randomness.
#[verifier::external_body]
fn thread_rng() -> ThreadRng {
    rand::rng()
}

/// `ShuffleBag::try_new`: no bag for an empty collection; otherwise a bag whose
/// full collection is `items`, with a freshly shuffled draft of all of its
/// indices. Which order the draft has is left open: it is random.
#[verifier::external_body]
fn bag_try_new(items: Vec<usize>, rng: &mut ThreadRng) -> (bag: Option<ShuffleBag<usize>>)
    ensures
        bag is None <==> items@.len() == 0,
        bag matches Some(b) ==> bag_items(b) == items@ && is_index_permutation(
            bag_draft(b),
            items@.len(),
        ),
{
    ShuffleBag::try_new(items, rng)
}

/// `ShuffleBag::pick`: takes the last index off the draft and returns the
/// item at that index; an emptied draft is refilled with a fresh shuffle of
/// all indices. The full collection does not change. When the collection has
/// more than one item, a refilled draft never ends with (so never next picks)
/// the index just picked. The source panics on an empty draft or an index
/// outside the collection, which `requires` leaves out.
#[verifier::external_body]
fn bag_pick(bag: &mut ShuffleBag<usize>, rng: &mut ThreadRng) -> (item: usize)
    requires
        bag_draft(*old(bag)).len() > 0,
        bag_draft(*old(bag)).last() < bag_items(*old(bag)).len(),
    ensures
        bag_items(*final(bag)) == bag_items(*old(bag)),
        item == bag_items(*old(bag))[bag_draft(*old(bag)).last() as int],
        bag_draft(*old(bag)).len() > 1 ==> bag_draft(*final(bag)) == bag_draft(
            *old(bag),
        ).drop_last(),
        bag_draft(*old(bag)).len() == 1 ==> is_index_permutation(
            bag_draft(*final(bag)),
            bag_items(*old(bag)).len(),
        ),
        bag_draft(*old(bag)).len() == 1 && bag_items(*old(bag)).len() > 1 ==> bag_draft(
            *final(bag),
        ).last() != bag_draft(*old(bag)).last(),
{
    *bag.pick(rng)
}

/// Sound effect of a hovered button.
pub const BTN_HOVER: &'static str = "audio/sfx/btn-hover.ogg";

/// Sound effect of a pressed button.
pub const BTN_PRESS: &'static str = "audio/sfx/btn-press.ogg";

/// Footstep sound effects.
pub const STEPS: [&'static str; 5] = [
    "audio/sfx/step.ogg",
    "audio/sfx/step1.ogg",
    "audio/sfx/step2.ogg",
    "audio/sfx/step3.ogg",
    "audio/sfx/step4.ogg",
];

/// Music of the title screen.
pub const MENU: [&'static str; 1] = ["audio/music/smnbl-green-embrace.ogg"];

/// Music while exploring.
pub const EXPLORE: [&'static str; 1] = ["audio/music/smnbl-rush-through-the-field.ogg"];

/// Music during combat.
pub const COMBAT: [&'static str; 1] = ["audio/music/smnbl-trouble.ogg"];

/// The playlists of the game.
#[derive(Clone, Copy, Debug, PartialEq, Eq, Structural)]
pub enum Playlist {
    Steps,
    Menu,
    Explore,
    Combat,
}

/// Number of tracks of a playlist: the length of its path table.
pub open spec fn track_count(playlist: Playlist) -> nat {
    match playlist {
        Playlist::Steps => 5,
        Playlist::Menu => 1,
        Playlist::Explore => 1,
        Playlist::Combat => 1,
    }
}

/// The indices `0..n`, in order.
pub open spec fn all_indices(n: nat) -> Seq<usize> {
    Seq::new(n, |i: int| i as usize)
}

/// A bag over the tracks `0..n` that can be picked from; its draft holds
/// each track at most once.
pub open spec fn bag_ready(bag: ShuffleBag<usize>, n: nat) -> bool {
    &&& bag_items(bag) == all_indices(n)
    &&& bag_draft(bag).len() > 0
    &&& forall|i: int| 0 <= i < bag_draft(bag).len() ==> #[trigger] bag_draft(bag)[i] < n
    &&& forall|i: int, j: int|
        0 <= i < j < bag_draft(bag).len() ==> bag_draft(bag)[i] != bag_draft(bag)[j]
}

/// The playlists' shuffle bags.
pub struct AudioSources {
    steps: ShuffleBag<usize>,
    menu: ShuffleBag<usize>,
    explore: ShuffleBag<usize>,
    combat: ShuffleBag<usize>,
}

impl AudioSources {
    /// The bag of a playlist.
    pub closed spec fn bag(&self, playlist: Playlist) -> ShuffleBag<usize> {
        match playlist {
            Playlist::Steps => self.steps,
            Playlist::Menu => self.menu,
            Playlist::Explore => self.explore,
            Playlist::Combat => self.combat,
        }
    }

    /// Every bag holds exactly the tracks of its playlist and can be picked
    /// from.
    pub closed spec fn wf(&self) -> bool {
        &&& bag_ready(self.steps, track_count(Playlist::Steps))
        &&& bag_ready(self.menu, track_count(Playlist::Menu))
        &&& bag_ready(self.explore, track_count(Playlist::Explore))
        &&& bag_ready(self.combat, track_count(Playlist::Combat))
    }

    /// The tracks of a playlist as the bag holds them: the indices of its
    /// path table.
    pub closed spec fn tracks(&self, playlist: Playlist) -> Seq<usize> {
        bag_items(self.bag(playlist))
    }

    /// Fills every playlist's bag with all of its tracks.
    pub fn new() -> (sources: AudioSources)
        ensures
            sources.wf(),
            forall|p: Playlist| #[trigger] sources.tracks(p) == all_indices(track_count(p)),
            forall|p: Playlist| #[trigger] sources.draft_left(p) == track_count(p),
    {
        let mut rng = thread_rng();
        let steps = bag_try_new(indices(STEPS.len()), &mut rng).unwrap();
        let menu = bag_try_new(indices(MENU.len()), &mut rng).unwrap();
        let explore = bag_try_new(indices(EXPLORE.len()), &mut rng).unwrap();
        let combat = bag_try_new(indices(COMBAT.len()), &mut rng).unwrap();
        AudioSources { steps, menu, explore, combat }
    }

    /// The track that the next pick from a playlist returns: the last index
    /// of the draft of its bag.
    pub closed spec fn next_track(&self, playlist: Playlist) -> usize {
        bag_draft(self.bag(playlist)).last()
    }

    /// How many tracks of the playlist's current draft are left to pick.
    pub closed spec fn draft_left(&self, playlist: Playlist) -> nat {
        bag_draft(self.bag(playlist)).len()
    }

    /// Picks the next track of a playlist; see `picked`.
    pub fn pick(&mut self, playlist: Playlist) -> (track: usize)
        requires
            old(self).wf(),
        ensures
            picked(*old(self), *final(self), playlist, track),
    {
        let mut rng = thread_rng();
        match playlist {
            Playlist::Steps => bag_pick(&mut self.steps, &mut rng),
            Playlist::Menu => bag_pick(&mut self.menu, &mut rng),
            Playlist::Explore => bag_pick(&mut self.explore, &mut rng),
            Playlist::Combat => bag_pick(&mut self.combat, &mut rng),
        }
    }
}

/// `new` is `old` after picking `track` from `playlist`: the track is the
/// playlist's next one; the playlists keep their tracks and stay ready; the
/// bags of the other playlists do not change; the draft moves on by one, or
/// is refilled with every track when it had one left; and the next pick is
/// never the track just picked, unless the playlist has a single track.
pub open spec fn picked(old: AudioSources, new: AudioSources, playlist: Playlist, track: usize) -> bool {
    &&& new.wf()
    &&& track == old.next_track(playlist)
    &&& track < track_count(playlist)
    &&& forall|p: Playlist| #[trigger] new.tracks(p) == old.tracks(p)
    &&& forall|p: Playlist| p != playlist ==> #[trigger] new.bag(p) == old.bag(p)
    &&& old.draft_left(playlist) > 1 ==> new.draft_left(playlist) == old.draft_left(playlist) - 1
    &&& old.draft_left(playlist) == 1 ==> new.draft_left(playlist) == track_count(playlist)
    &&& track_count(playlist) > 1 ==> new.next_track(playlist) != track
}

/// Texture of the source code link.
pub const TEXTURE_GITHUB: &'static str = "textures/github.png";

/// Texture of the pause icon.
pub const TEXTURE_PAUSE: &'static str = "textures/pause.png";

/// Texture of the mute icon.
pub const TEXTURE_MUTE: &'static str = "textures/mute.png";

/// Model of the player.
pub const MODEL_PLAYER: &'static str = "models/player.glb";

/// Model of the first level.
pub const MODEL_ENTRY_SCENE: &'static str = "models/scene.glb";

/// The UI textures, by handle.
#[derive(Clone, Debug)]
pub struct Textures<H> {
    pub github: H,
    pub pause: H,
    pub mute: H,
}

impl<H> Textures<H> {
    /// Starts loading every texture from its path with `load`.
    pub fn from_world<F: Fn(&'static str) -> H>(load: &F) -> (textures: Self)
        requires
            forall|path: &'static str| load.requires((path,)),
        ensures
            load.ensures((TEXTURE_GITHUB,), textures.github),
            load.ensures((TEXTURE_PAUSE,), textures.pause),
            load.ensures((TEXTURE_MUTE,), textures.mute),
    {
        Textures { github: load(TEXTURE_GITHUB), pause: load(TEXTURE_PAUSE), mute: load(TEXTURE_MUTE) }
    }
}

/// The 3D models, by handle.
#[derive(Clone, Debug)]
pub struct Models<H> {
    pub player: H,
    pub entry_scene: H,
}

impl<H> Models<H> {
    /// Starts loading every model from its path with `load`.
    pub fn from_world<F: Fn(&'static str) -> H>(load: &F) -> (models: Self)
        requires
            forall|path: &'static str| load.requires((path,)),
        ensures
            load.ensures((MODEL_PLAYER,), models.player),
            load.ensures((MODEL_ENTRY_SCENE,), models.entry_scene),
    {
        Models { player: load(MODEL_PLAYER), entry_scene: load(MODEL_ENTRY_SCENE) }
    }
}

/// The vector of the indices `0..n`.
fn indices(n: usize) -> (v: Vec<usize>)
    ensures
        v@ == all_indices(n as nat),
{
    let mut v: Vec<usize> = Vec::new();
    let mut i: usize = 0;
    while i < n
        invariant
            i <= n,
            v@ == all_indices(i as nat),
        decreases n - i,
    {
        v.push(i);
        i = i + 1;
        assert(v@ =~= all_indices(i as nat));
    }
    v
}

/// The registrations of this module's plugin, in order.
pub open spec fn plugin_steps() -> Seq<Registration> {
    self::tracking::plugin_steps()
    + seq![
        Registration::RonAssets(ConfigFile::Config),
        Registration::RonAssets(ConfigFile::Credits),
        Registration::LoadFromPath(ConfigFile::Config),
        Registration::LoadFromPath(ConfigFile::Credits),
        Registration::LoadResource(ResourceKind::AudioSources),
        Registration::LoadResource(ResourceKind::Textures),
        Registration::LoadResource(ResourceKind::Models),
    ]
}

/// Starts loading the game's settings, audio, textures and models.
pub fn plugin(app: &mut AppPlan)
    ensures
        final(app)@ == old(app)@ + plugin_steps(),
{
    let ghost start = app@;
    self::tracking::plugin(app);
    app.add(Registration::RonAssets(ConfigFile::Config));
    app.add(Registration::RonAssets(ConfigFile::Credits));
    app.add(Registration::LoadFromPath(ConfigFile::Config));
    app.add(Registration::LoadFromPath(ConfigFile::Credits));
    app.add(Registration::LoadResource(ResourceKind::AudioSources));
    app.add(Registration::LoadResource(ResourceKind::Textures));
    app.add(Registration::LoadResource(ResourceKind::Models));
    assert(app@ =~= start + plugin_steps());
}

} // verus!
