//! The input actions of the game. Their bindings live with the input
//! contexts that the engine-side code sets up.
use vstd::prelude::*;

verus! {

/// Zoom the view.
#[derive(Clone, Copy, Debug, PartialEq, Eq, Structural)]
pub struct ZoomView;

/// Sprint while held.
#[derive(Clone, Copy, Debug, PartialEq, Eq, Structural)]
pub struct Sprint;

/// Dash.
#[derive(Clone, Copy, Debug, PartialEq, Eq, Structural)]
pub struct Dash;

/// Pause or resume.
#[derive(Clone, Copy, Debug, PartialEq, Eq, Structural)]
pub struct Pause;

/// Mute or unmute.
#[derive(Clone, Copy, Debug, PartialEq, Eq, Structural)]
pub struct Mute;

/// Go back.
#[derive(Clone, Copy, Debug, PartialEq, Eq, Structural)]
pub struct Escape;

/// Move through a modal (a two-axis action).
#[derive(Clone, Copy, Debug, PartialEq, Eq, Structural)]
pub struct NavigateModal;

/// Controller element select, e.g. an inventory cell.
#[derive(Clone, Copy, Debug, PartialEq, Eq, Structural)]
pub struct Select;

/// Controller tab switch right.
#[derive(Clone, Copy, Debug, PartialEq, Eq, Structural)]
pub struct CycleTab;

/// Controller tab switch left.
#[derive(Clone, Copy, Debug, PartialEq, Eq, Structural)]
pub struct CycleTabBack;

} // verus!
