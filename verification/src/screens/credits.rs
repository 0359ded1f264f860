//! The credits screen: who made the game and whose assets it uses.
use crate::app_plan::{AppPlan, ConfigFile, InputContextKind, Registration, RunCondition, Schedule, SystemId};
use crate::screens::Screen;
use crate::asset_loading::{picked, track_count, AudioSources, Playlist};
use vstd::prelude::*;

verus! {

/// The credits, as pairs of a name and what they did.
#[derive(Clone, Debug)]
pub struct CreditsPreset {
    pub assets: Vec<(String, String)>,
    pub devs: Vec<(String, String)>,
}

/// Which side of its grid column a cell's text sits on.
#[derive(Clone, Copy, Debug, PartialEq, Eq, Structural)]
pub enum JustifySelf {
    Start,
    End,
}

/// A cell of the two-column credits grid.
#[derive(Clone, Debug)]
pub struct GridCell {
    pub text: String,
    pub justify: JustifySelf,
}

/// The grid cells of the credit pairs, row by row: each name in the left
/// column, set against the middle, and what it is credited for in the right
/// column, set against the middle too.
pub open spec fn is_credits_grid(pairs: Seq<(String, String)>, cells: Seq<GridCell>) -> bool {
    &&& cells.len() == 2 * pairs.len()
    &&& forall|i: int|
        0 <= i < pairs.len() ==> {
            &&& (#[trigger] cells[2 * i]).text@ == pairs[i].0@
            &&& cells[2 * i].justify == JustifySelf::End
            &&& cells[2 * i + 1].text@ == pairs[i].1@
            &&& cells[2 * i + 1].justify == JustifySelf::Start
        }
}

/// Lays out credit pairs as the cells of a two-column grid.
pub fn flatten(pairs: &Vec<(String, String)>) -> (cells: Vec<GridCell>)
    ensures
        is_credits_grid(pairs@, cells@),
{
    let mut cells: Vec<GridCell> = Vec::new();
    let mut i: usize = 0;
    while i < pairs.len()
        invariant
            i <= pairs@.len(),
            is_credits_grid(pairs@.subrange(0, i as int), cells@),
        decreases pairs@.len() - i,
    {
        let name = pairs[i].0.clone();
        let credit = pairs[i].1.clone();
        cells.push(GridCell { text: name, justify: JustifySelf::End });
        cells.push(GridCell { text: credit, justify: JustifySelf::Start });
        i = i + 1;
        assert forall|k: int| 0 <= k < i implies {
            &&& (#[trigger] cells@[2 * k]).text@ == pairs@.subrange(0, i as int)[k].0@
            &&& cells@[2 * k].justify == JustifySelf::End
            &&& cells@[2 * k + 1].text@ == pairs@.subrange(0, i as int)[k].1@
            &&& cells@[2 * k + 1].justify == JustifySelf::Start
        } by {
            if k < i - 1 {
                assert(pairs@.subrange(0, i as int)[k] == pairs@.subrange(0, i - 1)[k]);
            }
        }
    }
    assert(pairs@.subrange(0, pairs@.len() as int) =~= pairs@);
    cells
}

/// The credits screen plays the next track of the exploration playlist;
/// returns it.
pub fn start_credits_music(sources: &mut AudioSources) -> (track: usize)
    requires
        old(sources).wf(),
    ensures
        final(sources).wf(),
        forall|p: Playlist| #[trigger] final(sources).tracks(p) == old(sources).tracks(p),
        track == old(sources).next_track(Playlist::Explore),
        track < track_count(Playlist::Explore),
        picked(*old(sources), *final(sources), Playlist::Explore, track),
{
    sources.pick(Playlist::Explore)
}

/// The registrations of this module's plugin, in order.
pub open spec fn plugin_steps() -> Seq<Registration> {
    seq![
        Registration::RonAssets(ConfigFile::Credits),
        Registration::LoadFromPath(ConfigFile::Credits),
        Registration::InputContext(InputContextKind::Credits),
        Registration::System { schedule: Schedule::OnEnter(Screen::Credits), system: SystemId::StartCreditsMusic, condition: RunCondition::Always, set: None, after: None },
        Registration::System { schedule: Schedule::OnEnter(Screen::Credits), system: SystemId::SpawnCreditsScreen, condition: RunCondition::Always, set: None, after: None },
        Registration::System { schedule: Schedule::Update, system: SystemId::RollTheCredits, condition: RunCondition::InScreen(Screen::Credits), set: None, after: None },
    ]
}

/// Loads the credits and rolls them on the credits screen.
pub fn plugin(app: &mut AppPlan)
    ensures
        final(app)@ == old(app)@ + plugin_steps(),
{
    let ghost start = app@;
    app.add(Registration::RonAssets(ConfigFile::Credits));
    app.add(Registration::LoadFromPath(ConfigFile::Credits));
    app.add(Registration::InputContext(InputContextKind::Credits));
    app.add(Registration::System { schedule: Schedule::OnEnter(Screen::Credits), system: SystemId::StartCreditsMusic, condition: RunCondition::Always, set: None, after: None });
    app.add(Registration::System { schedule: Schedule::OnEnter(Screen::Credits), system: SystemId::SpawnCreditsScreen, condition: RunCondition::Always, set: None, after: None });
    app.add(Registration::System { schedule: Schedule::Update, system: SystemId::RollTheCredits, condition: RunCondition::InScreen(Screen::Credits), set: None, after: None });
    assert(app@ =~= start + plugin_steps());
}

} // verus!
