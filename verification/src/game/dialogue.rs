//! Cutscenes driven by the dialogue's variables.
use crate::scene::screen_fade::{FadeCam, ScreenFadePhase};
use vstd::prelude::*;

verus! {

/// The dialogue asks for a fade when its `$fade` variable is the boolean
/// `true`. `fade` is the variable: `None` when it is not set, `Some(None)`
/// when it is not a boolean. When a fade is asked for, the screen fades out
/// and the variable is to be set back to `false`.
pub fn start_cutscene(fade: Option<Option<bool>>) -> (event: Option<FadeCam>)
    ensures
        event == if fade == Some(Some(true)) {
            Some(FadeCam(ScreenFadePhase::FadeOut))
        } else {
            None
        },
{
    let requested = match fade {
        Some(Some(b)) => b,
        _ => false,
    };
    if requested {
        Some(FadeCam(ScreenFadePhase::FadeOut))
    } else {
        None
    }
}

} // verus!
