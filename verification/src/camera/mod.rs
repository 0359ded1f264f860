//! The camera's cursor.
use crate::app_plan::{AppPlan, PluginKind, Registration, RunCondition, Schedule, SystemId};
use vstd::prelude::*;

verus! {

/// How the cursor is held by the window.
#[derive(Clone, Copy, Debug, PartialEq, Eq, Structural)]
pub enum CursorGrabMode {
    Free,
    Confined,
    Locked,
}

/// The primary window's cursor.
#[derive(Clone, Copy, Debug, PartialEq, Eq, Structural)]
pub struct CursorOptions {
    pub visible: bool,
    pub grab_mode: CursorGrabMode,
}

/// The cursor after a toggle: a visible cursor is free (not grabbed), a
/// hidden one is locked.
pub open spec fn cursor_toggled(cursor: CursorOptions) -> CursorOptions {
    CursorOptions {
        visible: !cursor.visible,
        grab_mode: if !cursor.visible {
            CursorGrabMode::Free
        } else {
            CursorGrabMode::Locked
        },
    }
}

/// A cursor whose grab mode matches its visibility, as toggling leaves it.
pub open spec fn cursor_settled(cursor: CursorOptions) -> bool {
    cursor.grab_mode == if cursor.visible {
        CursorGrabMode::Free
    } else {
        CursorGrabMode::Locked
    }
}

/// Toggles the cursor; see `cursor_toggled`.
pub fn on_toggle_cam_cursor(cursor: &mut CursorOptions)
    ensures
        *final(cursor) == cursor_toggled(*old(cursor)),
{
    cursor.visible = !cursor.visible;
    if cursor.visible {
        cursor.grab_mode = CursorGrabMode::Free;
    } else {
        cursor.grab_mode = CursorGrabMode::Locked;
    }
}

/// A toggle flips the cursor's visibility; the cursor it shows is free and the
/// cursor it hides is locked.
pub proof fn lemma_cursor_toggle_shows_free_hides_locked(cursor: CursorOptions)
    ensures
        cursor_toggled(cursor).visible == !cursor.visible,
        !cursor.visible ==> cursor_toggled(cursor).grab_mode == CursorGrabMode::Free,
        cursor.visible ==> cursor_toggled(cursor).grab_mode == CursorGrabMode::Locked,
{
}

/// Toggling leaves the cursor settled, and toggling a settled cursor twice
/// gives it back.
pub proof fn lemma_cursor_toggle_round_trip(cursor: CursorOptions)
    ensures
        cursor_settled(cursor_toggled(cursor)),
        cursor_settled(cursor) ==> cursor_toggled(cursor_toggled(cursor)) == cursor,
{
}

/// The registrations of this module's plugin, in order.
pub open spec fn plugin_steps() -> Seq<Registration> {
    seq![
        Registration::Plugin(PluginKind::Hdr),
        Registration::System { schedule: Schedule::Startup, system: SystemId::SpawnCamera, condition: RunCondition::Always, set: None, after: None },
        Registration::Observer(SystemId::OnToggleCamCursor),
        Registration::Plugin(PluginKind::CameraRig),
    ]
}

/// Spawns the camera and lets the cursor be toggled.
pub fn plugin(app: &mut AppPlan)
    ensures
        final(app)@ == old(app)@ + plugin_steps(),
{
    let ghost start = app@;
    app.add(Registration::Plugin(PluginKind::Hdr));
    app.add(Registration::System { schedule: Schedule::Startup, system: SystemId::SpawnCamera, condition: RunCondition::Always, set: None, after: None });
    app.add(Registration::Observer(SystemId::OnToggleCamCursor));
    app.add(Registration::Plugin(PluginKind::CameraRig));
    assert(app@ =~= start + plugin_steps());
}

} // verus!
