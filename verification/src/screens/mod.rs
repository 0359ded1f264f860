//! The game's main screens and the transitions between them.
use crate::shared::states::GameState;
use crate::app_plan::{AppPlan, PluginKind, Registration, RunCondition, Schedule, StateKind, SystemId};
use vstd::prelude::*;

pub mod credits;
pub mod gameplay;
pub mod loading;
pub mod title;

verus! {

/// The game's main screens.
#[derive(Clone, Copy, Debug, PartialEq, Eq, Structural)]
pub enum Screen {
    Splash,
    Loading,
    Tutorial,
    Credits,
    Settings,
    Title,
    Gameplay,
}

impl Default for Screen {
    fn default() -> (s: Self)
        ensures
            s == Screen::Loading,
    {
        Screen::Loading
    }
}

impl Screen {
    pub fn is_gameplay(&self) -> (gameplay: bool)
        ensures
            gameplay == (*self == Screen::Gameplay),
    {
        match self {
            Screen::Gameplay => true,
            _ => false,
        }
    }
}

/// Asks to switch to a screen.
#[derive(Clone, Copy, Debug, PartialEq, Eq, Structural)]
pub struct GoTo(pub Screen);

/// Asks to go back, towards `screen`; `entity` is the one whose input asked.
#[derive(Clone, Copy, Debug, PartialEq, Eq, Structural)]
pub struct Back {
    pub entity: u64,
    pub screen: Screen,
}

/// Screens on which escape does nothing.
pub open spec fn escape_ignored(screen: Screen) -> bool {
    screen == Screen::Splash || screen == Screen::Title || screen == Screen::Loading
}

pub open spec fn spec_on_esc(entity: u64, screen: Screen, state: GameState) -> Option<Back> {
    if escape_ignored(screen) {
        None
    } else {
        Some(Back { entity, screen: state.last_screen })
    }
}

pub open spec fn spec_on_back(back: Back, screen: Screen) -> Option<Screen> {
    if screen == Screen::Gameplay {
        None
    } else {
        Some(back.screen)
    }
}

/// Escape pressed by `entity` on `screen`: asks to go back to the screen left
/// last, except on the splash, title and loading screens.
pub fn on_esc(entity: u64, screen: &Screen, state: &GameState) -> (back: Option<Back>)
    ensures
        back == spec_on_esc(entity, *screen, *state),
        back is None <==> (*screen == Screen::Splash || *screen == Screen::Title || *screen
            == Screen::Loading),
        back is Some ==> back == Some(Back { entity, screen: state.last_screen }),
{
    match screen {
        Screen::Splash | Screen::Title | Screen::Loading => None,
        _ => Some(Back { entity, screen: state.last_screen }),
    }
}

/// The screen to switch to on a back request; none during gameplay, where the
/// modal stack handles going back.
pub fn on_back(back: &Back, screen: &Screen) -> (next: Option<Screen>)
    ensures
        next == spec_on_back(*back, *screen),
{
    if screen.is_gameplay() {
        None
    } else {
        Some(back.screen)
    }
}

/// The screen to switch to on a go-to request.
pub fn on_go_to(goto: &GoTo) -> (next: Screen)
    ensures
        next == goto.0,
{
    goto.0
}

/// On entering gameplay: when the virtual time or the game is paused, the
/// time is to be unpaused and the game state reset; returns whether.
pub fn unpause_on_enter(state: &mut GameState, time_paused: bool) -> (unpause: bool)
    ensures
        unpause == (time_paused || old(state).paused),
        *final(state) == if unpause {
            GameState { paused: false, muted: false, ..*old(state) }
        } else {
            *old(state)
        },
{
    if time_paused || state.paused {
        state.reset();
        true
    } else {
        false
    }
}

/// Escape outside gameplay and the menus takes the game back to the screen
/// it left last; on the splash, title and loading screens it does nothing;
/// during gameplay the back request does not change the screen.
pub proof fn lemma_escape_goes_back(screen: Screen, state: GameState, entity: u64)
    ensures
        !escape_ignored(screen) && screen != Screen::Gameplay ==> (spec_on_esc(entity, screen, state)
            matches Some(back) && spec_on_back(back, screen) == Some(state.last_screen)),
        escape_ignored(screen) ==> spec_on_esc(entity, screen, state) is None,
        screen == Screen::Gameplay ==> (spec_on_esc(entity, screen, state) matches Some(back)
            && spec_on_back(back, screen) is None),
{
}

/// Escape is ignored exactly on the splash, title and loading screens; on
/// every other screen (tutorial, credits, settings, gameplay) it asks to go
/// back to the screen left last, for the entity that pressed it.
pub proof fn lemma_escape_ignored_only_on_entry_screens(screen: Screen, state: GameState, entity: u64)
    ensures
        spec_on_esc(entity, screen, state) is None <==> (screen == Screen::Splash || screen
            == Screen::Title || screen == Screen::Loading),
        (screen == Screen::Tutorial || screen == Screen::Credits || screen == Screen::Settings
            || screen == Screen::Gameplay) ==> spec_on_esc(entity, screen, state) == Some(
            Back { entity, screen: state.last_screen },
        ),
        forall|back: Back| #[trigger] spec_on_back(back, screen) is None <==> screen == Screen::Gameplay,
        forall|back: Back| screen != Screen::Gameplay ==> #[trigger] spec_on_back(back, screen) == Some(
            back.screen,
        ),
{
}

/// A button under a node that carries a screen goes to that screen.
pub fn click_go_to(parent_screen: Option<Screen>) -> (goto: Option<GoTo>)
    ensures
        goto == match parent_screen {
            Some(s) => Some(GoTo(s)),
            None => None,
        },
{
    match parent_screen {
        Some(s) => Some(GoTo(s)),
        None => None,
    }
}

/// The registrations of this module's plugin, in order.
pub open spec fn plugin_steps() -> Seq<Registration> {
    seq![
        Registration::InitState(StateKind::Screen),
        Registration::Plugin(PluginKind::Splash),
        Registration::Plugin(PluginKind::Loading),
    ]
    + self::title::plugin_steps()
    + seq![
        Registration::Plugin(PluginKind::SettingsScreen),
    ]
    + self::credits::plugin_steps()
    + self::gameplay::plugin_steps()
    + seq![
        Registration::System { schedule: Schedule::OnEnter(Screen::Gameplay), system: SystemId::UnpauseOnEnter, condition: RunCondition::Always, set: None, after: None },
        Registration::System { schedule: Schedule::Update, system: SystemId::TrackLastScreen, condition: RunCondition::ScreenChanged, set: None, after: None },
        Registration::Observer(SystemId::OnEsc),
        Registration::Observer(SystemId::OnBack),
        Registration::Observer(SystemId::OnGoTo),
    ]
}

/// Sets up the screens and the transitions between them.
pub fn plugin(app: &mut AppPlan)
    ensures
        final(app)@ == old(app)@ + plugin_steps(),
{
    let ghost start = app@;
    app.add(Registration::InitState(StateKind::Screen));
    app.add(Registration::Plugin(PluginKind::Splash));
    app.add(Registration::Plugin(PluginKind::Loading));
    self::title::plugin(app);
    app.add(Registration::Plugin(PluginKind::SettingsScreen));
    self::credits::plugin(app);
    self::gameplay::plugin(app);
    app.add(Registration::System { schedule: Schedule::OnEnter(Screen::Gameplay), system: SystemId::UnpauseOnEnter, condition: RunCondition::Always, set: None, after: None });
    app.add(Registration::System { schedule: Schedule::Update, system: SystemId::TrackLastScreen, condition: RunCondition::ScreenChanged, set: None, after: None });
    app.add(Registration::Observer(SystemId::OnEsc));
    app.add(Registration::Observer(SystemId::OnBack));
    app.add(Registration::Observer(SystemId::OnGoTo));
    assert(app@ =~= start + plugin_steps());
}

} // verus!
