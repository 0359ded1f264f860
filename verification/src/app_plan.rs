//! What the plugins register with the game engine, as plain data: each
//! plugin appends its registrations to an `AppPlan`, which the engine-side
//! code then carries out in order.
use crate::screens::Screen;
use crate::shared::AppSystems;
use vstd::prelude::*;

verus! {

/// When a system runs.
#[derive(Clone, Copy, Debug, PartialEq, Eq, Structural)]
pub enum Schedule {
    Startup,
    PreUpdate,
    Update,
    FixedUpdate,
    PostUpdate,
    OnEnter(Screen),
    OnExit(Screen),
}

/// The condition under which a scheduled system runs.
#[derive(Clone, Copy, Debug, PartialEq, Eq, Structural)]
pub enum RunCondition {
    Always,
    /// Only while the game shows this screen.
    InScreen(Screen),
    /// Only while the game shows this screen, at most once per this many
    /// milliseconds.
    InScreenThrottled(Screen, u64),
    /// Only in frames where the screen changed.
    ScreenChanged,
}

/// The systems and observers of the game.
#[derive(Clone, Copy, Debug, PartialEq, Eq, Structural)]
pub enum SystemId {
    // asset loading
    LoadResourceAssets,
    // camera
    SpawnCamera,
    OnToggleCamCursor,
    // input events
    Pause,
    Mute,
    Back,
    // player
    CalcucateAnimations,
    Animate,
    Movement,
    HandleSprintIn,
    HandleSprintOut,
    HandleDash,
    CrouchIn,
    CrouchOut,
    OnModalAdd,
    MovementSound,
    DashSound,
    JumpSound,
    // scene
    SpawnFadeComponent,
    ScreenFade,
    OnFadeCam,
    SunCycle,
    AddSkyboxToCamera,
    // screens
    SetupMenu,
    StartMainMenuMusic,
    UnpauseOnEnter,
    TrackLastScreen,
    OnEsc,
    OnBack,
    OnGoTo,
    SpawnGameplayUi,
    ToggleMute,
    TogglePause,
    TriggerMenuToggleOnEsc,
    StartCreditsMusic,
    SpawnCreditsScreen,
    RollTheCredits,
    // modals
    SpawnModalContext,
    OnClearModals,
    OnPopModal,
    OnNewModal,
    // music
    StopSoundtrack,
    StartSoundtrack,
    TriggerMoodChange,
    OnChangeMood,
    TrackEntity,
    KeepPlaylistPlaying,
    // ui interaction
    ApplyPaletteOnOver,
    ApplyPaletteOnClick,
    ApplyPaletteOnOut,
    ApplyPaletteOnRelease,
    PlaySoundEffectOnClick,
    PlaySoundEffectOnOver,
}

/// Resources of the game.
#[derive(Clone, Copy, Debug, PartialEq, Eq, Structural)]
pub enum ResourceKind {
    GameState,
    Modals,
    MusicPlaybacks,
    ResourceHandles,
    AudioSources,
    Textures,
    Models,
}

/// States of the game.
#[derive(Clone, Copy, Debug, PartialEq, Eq, Structural)]
pub enum StateKind {
    Screen,
    Modal,
    Mood,
}

/// Input contexts, each with its action bindings.
#[derive(Clone, Copy, Debug, PartialEq, Eq, Structural)]
pub enum InputContextKind {
    Player,
    Modal,
    Credits,
}

/// Files of settings loaded as assets.
#[derive(Clone, Copy, Debug, PartialEq, Eq, Structural)]
pub enum ConfigFile {
    /// "config.ron": the game's configuration.
    Config,
    /// "credits.ron": the credits.
    Credits,
}

/// Plugins added by other plugins.
#[derive(Clone, Copy, Debug, PartialEq, Eq, Structural)]
pub enum PluginKind {
    Hdr,
    /// The camera rig of the build: third person or top down.
    CameraRig,
    Splash,
    Loading,
    SettingsScreen,
    Settings,
    Dialogue,
    DevTools,
    Prefabs,
    Perf,
}

/// One registration with the engine.
#[derive(Clone, Copy, Debug)]
pub enum Registration {
    /// A system on a schedule, under a condition, possibly in a system set and
    /// after another system.
    System {
        schedule: Schedule,
        system: SystemId,
        condition: RunCondition,
        set: Option<AppSystems>,
        after: Option<SystemId>,
    },
    /// An observer of an event.
    Observer(SystemId),
    InitResource(ResourceKind),
    InitState(StateKind),
    InputContext(InputContextKind),
    Plugin(PluginKind),
    /// A loader for settings files of this kind.
    RonAssets(ConfigFile),
    /// Loads the file as an asset that becomes a resource when ready.
    LoadFromPath(ConfigFile),
    /// Loads the resource's asset dependencies; it becomes a resource when
    /// they are ready.
    LoadResource(ResourceKind),
    /// The first system set runs before the second.
    OrderSets(AppSystems, AppSystems),
}

/// A plain system: always runs, in no set, after nothing.
pub open spec fn system(schedule: Schedule, system: SystemId) -> Registration {
    Registration::System {
        schedule,
        system,
        condition: RunCondition::Always,
        set: None,
        after: None,
    }
}

/// The path of a settings file.
pub open spec fn spec_config_path(file: ConfigFile) -> Seq<char> {
    match file {
        ConfigFile::Config => "config.ron"@,
        ConfigFile::Credits => "credits.ron"@,
    }
}

pub fn config_path(file: ConfigFile) -> (path: &'static str)
    ensures
        path@ == spec_config_path(file),
{
    match file {
        ConfigFile::Config => "config.ron",
        ConfigFile::Credits => "credits.ron",
    }
}

/// The registrations of the game's plugins, in order.
pub struct AppPlan {
    steps: Vec<Registration>,
}

impl View for AppPlan {
    type V = Seq<Registration>;

    closed spec fn view(&self) -> Seq<Registration> {
        self.steps@
    }
}

impl AppPlan {
    pub fn new() -> (plan: Self)
        ensures
            plan@ == Seq::<Registration>::empty(),
    {
        AppPlan { steps: Vec::new() }
    }

    pub fn steps(&self) -> (steps: &Vec<Registration>)
        ensures
            steps@ == self@,
    {
        &self.steps
    }

    pub fn add(&mut self, step: Registration)
        ensures
            final(self)@ == old(self)@.push(step),
    {
        self.steps.push(step);
    }

    /// Adds the steps in order.
    pub fn add_all(&mut self, steps: Vec<Registration>)
        ensures
            final(self)@ == old(self)@ + steps@,
    {
        let mut i: usize = 0;
        let ghost start = self@;
        while i < steps.len()
            invariant
                i <= steps@.len(),
                self@ == start + steps@.subrange(0, i as int),
            decreases steps@.len() - i,
        {
            self.add(steps[i]);
            i = i + 1;
            assert(self@ =~= start + steps@.subrange(0, i as int));
        }
        assert(steps@.subrange(0, steps@.len() as int) =~= steps@);
    }

    /// Adds a system that always runs, in no set, after nothing.
    pub fn add_system(&mut self, schedule: Schedule, id: SystemId)
        ensures
            final(self)@ == old(self)@.push(system(schedule, id)),
    {
        self.add(
            Registration::System {
                schedule,
                system: id,
                condition: RunCondition::Always,
                set: None,
                after: None,
            },
        );
    }
}

} // verus!
