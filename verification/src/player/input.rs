//! Which input context, gameplay or modal, receives the player's input.
use crate::app_plan::{AppPlan, InputContextKind, Registration, SystemId};
use vstd::prelude::*;

verus! {

/// Activity of the two input contexts of a player.
#[derive(Clone, Copy, Debug, PartialEq, Eq, Structural)]
pub struct InputContexts {
    /// Menu navigation, selection and escape.
    pub modal: bool,
    /// Movement, camera, jump, crouch and sprint.
    pub player: bool,
}

/// Input goes to the modal context only.
pub open spec fn modal_contexts() -> InputContexts {
    InputContexts { modal: true, player: false }
}

/// Input goes to the player context only.
pub open spec fn player_contexts() -> InputContexts {
    InputContexts { modal: false, player: true }
}

/// Input goes to the modal context only.
pub fn modal_ctx_active() -> (ctx: InputContexts)
    ensures
        ctx == modal_contexts(),
{
    InputContexts { modal: true, player: false }
}

/// Input goes to the player context only.
pub fn player_ctx_active() -> (ctx: InputContexts)
    ensures
        ctx == player_contexts(),
{
    InputContexts { modal: false, player: true }
}

/// Exactly one input context is active at a time, and the two helpers
/// activate opposite ones.
pub proof fn lemma_contexts_exclusive()
    ensures
        modal_contexts().modal != modal_contexts().player,
        player_contexts().modal != player_contexts().player,
        modal_contexts().modal == player_contexts().player,
        modal_contexts().player == player_contexts().modal,
{
}

/// The registrations of this module's plugin, in order.
pub open spec fn plugin_steps() -> Seq<Registration> {
    seq![
        Registration::InputContext(InputContextKind::Player),
        Registration::Observer(SystemId::OnModalAdd),
    ]
}

/// Registers the player's input context, and gives modals the input when one opens.
pub fn plugin(app: &mut AppPlan)
    ensures
        final(app)@ == old(app)@ + plugin_steps(),
{
    let ghost start = app@;
    app.add(Registration::InputContext(InputContextKind::Player));
    app.add(Registration::Observer(SystemId::OnModalAdd));
    assert(app@ =~= start + plugin_steps());
}

} // verus!
