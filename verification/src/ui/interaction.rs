//! Interaction palettes of buttons, driven by pointer events.
use crate::app_plan::{AppPlan, Registration, SystemId};
use vstd::prelude::*;

verus! {

/// A pointer event on a UI node.
#[derive(Clone, Copy, Debug, PartialEq, Eq, Structural)]
pub enum PointerEvent {
    Over,
    Out,
    Click,
    Release,
}

/// Which colours of a node's palette set apply.
#[derive(Clone, Copy, Debug, PartialEq, Eq, Structural)]
pub enum PaletteSlot {
    /// Neither hovered nor pressed.
    Idle,
    Hovered,
    Pressed,
}

pub open spec fn spec_palette_slot(event: PointerEvent) -> PaletteSlot {
    match event {
        PointerEvent::Click => PaletteSlot::Pressed,
        PointerEvent::Release => PaletteSlot::Hovered,
        PointerEvent::Over => PaletteSlot::Hovered,
        PointerEvent::Out => PaletteSlot::Idle,
    }
}

/// The palette colours (background, border and text) that a pointer event
/// applies: pressed on click, hovered on release and when the pointer comes
/// over the node, idle when it leaves.
pub fn palette_slot(event: PointerEvent) -> (slot: PaletteSlot)
    ensures
        slot == spec_palette_slot(event),
{
    match event {
        PointerEvent::Click => PaletteSlot::Pressed,
        PointerEvent::Release => PaletteSlot::Hovered,
        PointerEvent::Over => PaletteSlot::Hovered,
        PointerEvent::Out => PaletteSlot::Idle,
    }
}

/// A click or hover on a node plays the button sound only for a button, and
/// only while the cursor is shown.
pub fn plays_button_sound(is_button: bool, cursor_visible: Option<bool>) -> (play: bool)
    ensures
        play == (is_button && cursor_visible == Some(true)),
{
    match cursor_visible {
        Some(visible) => is_button && visible,
        None => false,
    }
}

/// The registrations of this module's plugin, in order.
pub open spec fn plugin_steps() -> Seq<Registration> {
    seq![
        Registration::Observer(SystemId::ApplyPaletteOnOver),
        Registration::Observer(SystemId::ApplyPaletteOnClick),
        Registration::Observer(SystemId::ApplyPaletteOnOut),
        Registration::Observer(SystemId::ApplyPaletteOnRelease),
        Registration::Observer(SystemId::PlaySoundEffectOnClick),
        Registration::Observer(SystemId::PlaySoundEffectOnOver),
    ]
}

/// Applies interaction palettes and plays button sounds.
pub fn plugin(app: &mut AppPlan)
    ensures
        final(app)@ == old(app)@ + plugin_steps(),
{
    let ghost start = app@;
    app.add(Registration::Observer(SystemId::ApplyPaletteOnOver));
    app.add(Registration::Observer(SystemId::ApplyPaletteOnClick));
    app.add(Registration::Observer(SystemId::ApplyPaletteOnOut));
    app.add(Registration::Observer(SystemId::ApplyPaletteOnRelease));
    app.add(Registration::Observer(SystemId::PlaySoundEffectOnClick));
    app.add(Registration::Observer(SystemId::PlaySoundEffectOnOver));
    assert(app@ =~= start + plugin_steps());
}

} // verus!
