//! The stack of modals shown during gameplay.
use crate::screens::Screen;
use crate::app_plan::{AppPlan, InputContextKind, Registration, ResourceKind, RunCondition, Schedule, StateKind, SystemId};
use vstd::prelude::*;

verus! {

/// A modal window.
#[derive(Clone, Copy, Debug, PartialEq, Eq, Structural)]
pub enum Modal {
    Main,
    Settings,
}

impl Default for Modal {
    fn default() -> (m: Self)
        ensures
            m == Modal::Main,
    {
        Modal::Main
    }
}

impl Modal {
    pub fn is_main(&self) -> (main: bool)
        ensures
            main == (*self == Modal::Main),
    {
        match self {
            Modal::Main => true,
            Modal::Settings => false,
        }
    }
}

/// The modal stack; the last modal is the one shown.
#[derive(Clone, Debug)]
pub struct Modals(pub Vec<Modal>);

impl Modals {
    pub fn new() -> (m: Self)
        ensures
            m.0@ == Seq::<Modal>::empty(),
    {
        Modals(Vec::new())
    }

    pub fn is_empty(&self) -> (empty: bool)
        ensures
            empty == (self.0@.len() == 0),
    {
        self.0.len() == 0
    }

    /// Empties the stack.
    pub fn clear(&mut self)
        ensures
            final(self).0@ == Seq::<Modal>::empty(),
    {
        self.0.clear();
    }
}

/// Opens a modal over `entity`'s game.
#[derive(Clone, Copy, Debug, PartialEq, Eq, Structural)]
pub struct NewModal {
    pub entity: u64,
    pub modal: Modal,
}

/// Closes the top modal.
#[derive(Clone, Copy, Debug, PartialEq, Eq, Structural)]
pub struct PopModal(pub u64);

/// Removes every modal window.
#[derive(Clone, Copy, Debug, PartialEq, Eq, Structural)]
pub struct ClearModals(pub u64);

/// What opening a modal asks for; the windows of earlier modals are always
/// removed and the window of `shown` spawned.
#[derive(Clone, Copy, Debug, PartialEq, Eq, Structural)]
pub struct NewModalPlan {
    /// Toggle the pause (the first main modal pauses a running game).
    pub toggle_pause: bool,
    /// Toggle the camera cursor (it must become visible).
    pub toggle_cursor: bool,
    /// Switch the input to the modal context.
    pub modal_context: bool,
    pub shown: Modal,
}

/// What closing the top modal asks for.
#[derive(Clone, Copy, Debug, PartialEq, Eq, Structural)]
pub struct PopModalPlan {
    /// The modal whose windows are removed.
    pub closed: Modal,
    /// The modal below it, whose window is spawned again.
    pub reopened: Option<Modal>,
    /// The stack is empty: back to the player context, toggle the pause and
    /// the camera cursor.
    pub resume: bool,
}

pub open spec fn new_modal_plan(
    stack: Seq<Modal>,
    paused: bool,
    cursor_visible: Option<bool>,
    modal: Modal,
) -> NewModalPlan {
    NewModalPlan {
        toggle_pause: stack.len() == 0 && modal == Modal::Main && !paused,
        toggle_cursor: stack.len() == 0 && cursor_visible == Some(false),
        modal_context: stack.len() == 0,
        shown: modal,
    }
}

pub open spec fn pop_modal_plan(stack: Seq<Modal>) -> PopModalPlan {
    let rest = stack.drop_last();
    PopModalPlan {
        closed: stack.last(),
        reopened: if rest.len() > 0 {
            Some(rest.last())
        } else {
            None
        },
        resume: rest.len() == 0,
    }
}

/// Opens `modal` during gameplay: pushes it on the stack and says what else
/// to do. Outside gameplay nothing happens. `cursor_visible` is the primary
/// window's cursor visibility, if there is such a window.
pub fn on_new_modal(
    modals: &mut Modals,
    screen: &Screen,
    paused: bool,
    cursor_visible: Option<bool>,
    modal: Modal,
) -> (plan: Option<NewModalPlan>)
    ensures
        *screen != Screen::Gameplay ==> plan is None && final(modals).0@ == old(modals).0@,
        *screen == Screen::Gameplay ==> plan == Some(
            new_modal_plan(old(modals).0@, paused, cursor_visible, modal),
        ) && final(modals).0@ == old(modals).0@.push(modal),
{
    if !screen.is_gameplay() {
        return None;
    }
    let first = modals.is_empty();
    let toggle_cursor = match cursor_visible {
        Some(visible) => first && !visible,
        None => false,
    };
    let plan = NewModalPlan {
        toggle_pause: first && modal.is_main() && !paused,
        toggle_cursor,
        modal_context: first,
        shown: modal,
    };
    modals.0.push(modal);
    Some(plan)
}

/// Closes the top modal during gameplay. Outside gameplay nothing happens.
pub fn on_pop_modal(modals: &mut Modals, screen: &Screen) -> (plan: Option<PopModalPlan>)
    requires
        *screen == Screen::Gameplay ==> old(modals).0@.len() > 0,
    ensures
        *screen != Screen::Gameplay ==> plan is None && final(modals).0@ == old(modals).0@,
        *screen == Screen::Gameplay ==> plan == Some(pop_modal_plan(old(modals).0@))
            && final(modals).0@ == old(modals).0@.drop_last(),
{
    if !screen.is_gameplay() {
        return None;
    }
    let closed = modals.0.pop().unwrap();
    let n = modals.0.len();
    let reopened = if n > 0 {
        Some(modals.0[n - 1])
    } else {
        None
    };
    Some(PopModalPlan { closed, reopened, resume: n == 0 })
}

/// What going back during gameplay does.
#[derive(Clone, Copy, Debug, PartialEq, Eq, Structural)]
pub enum GameplayBack {
    /// No modal is open: open the main menu.
    OpenMainMenu,
    /// Close the top modal.
    PopModal,
}

/// Going back during gameplay opens the main menu, or closes the top modal.
pub fn trigger_menu_toggle_on_esc(screen: &Screen, modals: &Modals) -> (action: Option<
    GameplayBack,
>)
    ensures
        action == if *screen != Screen::Gameplay {
            None
        } else if modals.0@.len() == 0 {
            Some(GameplayBack::OpenMainMenu)
        } else {
            Some(GameplayBack::PopModal)
        },
{
    if !screen.is_gameplay() {
        None
    } else if modals.is_empty() {
        Some(GameplayBack::OpenMainMenu)
    } else {
        Some(GameplayBack::PopModal)
    }
}

/// Opening a modal and closing it again during gameplay gives back the
/// stack; the closed modal is the opened one, the modal below it shows again,
/// and play resumes exactly when no modal was open before.
pub proof fn lemma_open_then_close(stack: Seq<Modal>, modal: Modal)
    ensures
        stack.push(modal).drop_last() == stack,
        pop_modal_plan(stack.push(modal)).closed == modal,
        pop_modal_plan(stack.push(modal)).reopened == if stack.len() > 0 {
            Some(stack.last())
        } else {
            None
        },
        pop_modal_plan(stack.push(modal)).resume <==> stack.len() == 0,
{
    assert(stack.push(modal).drop_last() =~= stack);
}

/// Only the first modal changes the game: it switches the input to the modal
/// context, and pauses a running game when it is the main menu; the same
/// modal, closed as the last one, resumes play, so the pause is toggled back.
pub proof fn lemma_menu_pauses_and_resumes(paused: bool, cursor_visible: Option<bool>)
    ensures
        new_modal_plan(Seq::empty(), paused, cursor_visible, Modal::Main).toggle_pause == !paused,
        new_modal_plan(Seq::empty(), paused, cursor_visible, Modal::Main).modal_context,
        pop_modal_plan(Seq::<Modal>::empty().push(Modal::Main)).resume,
        forall|stack: Seq<Modal>, m: Modal|
            stack.len() > 0 ==> !(#[trigger] new_modal_plan(stack, paused, cursor_visible, m)).toggle_pause
                && !new_modal_plan(stack, paused, cursor_visible, m).modal_context
                && !new_modal_plan(stack, paused, cursor_visible, m).toggle_cursor,
{
    assert(Seq::<Modal>::empty().push(Modal::Main).drop_last() =~= Seq::<Modal>::empty());
}

/// The first modal pauses the game exactly when it is the main menu and the
/// game runs, and takes the cursor over exactly when the window hides it; it
/// always switches the input to the modals, and it is the modal shown.
pub proof fn lemma_first_modal_plan(paused: bool, cursor_visible: Option<bool>, modal: Modal)
    ensures
        new_modal_plan(Seq::empty(), paused, cursor_visible, modal).toggle_pause <==> (modal
            == Modal::Main && !paused),
        new_modal_plan(Seq::empty(), paused, cursor_visible, modal).toggle_cursor <==> cursor_visible
            == Some(false),
        new_modal_plan(Seq::empty(), paused, cursor_visible, modal).modal_context,
        new_modal_plan(Seq::empty(), paused, cursor_visible, modal).shown == modal,
{
}

/// The registrations of this module's plugin, in order.
pub open spec fn plugin_steps() -> Seq<Registration> {
    seq![
        Registration::InitState(StateKind::Modal),
        Registration::InitResource(ResourceKind::Modals),
        Registration::InputContext(InputContextKind::Modal),
        Registration::System { schedule: Schedule::Startup, system: SystemId::SpawnModalContext, condition: RunCondition::Always, set: None, after: None },
        Registration::Observer(SystemId::OnClearModals),
        Registration::Observer(SystemId::OnPopModal),
        Registration::Observer(SystemId::OnNewModal),
    ]
}

/// Sets up the modal stack and its input context.
pub fn plugin(app: &mut AppPlan)
    ensures
        final(app)@ == old(app)@ + plugin_steps(),
{
    let ghost start = app@;
    app.add(Registration::InitState(StateKind::Modal));
    app.add(Registration::InitResource(ResourceKind::Modals));
    app.add(Registration::InputContext(InputContextKind::Modal));
    app.add(Registration::System { schedule: Schedule::Startup, system: SystemId::SpawnModalContext, condition: RunCondition::Always, set: None, after: None });
    app.add(Registration::Observer(SystemId::OnClearModals));
    app.add(Registration::Observer(SystemId::OnPopModal));
    app.add(Registration::Observer(SystemId::OnNewModal));
    assert(app@ =~= start + plugin_steps());
}

} // verus!
