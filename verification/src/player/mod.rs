//! The player: animation, control, input and sounds.
pub mod animation;
pub mod control;
pub mod input;
pub mod sound;
