//! Verified game logic for a third person game: screen navigation, modal stack,
//! animation state machine, screen fades, music moods and asset tracking.
pub mod app_plan;
pub mod asset_loading;
pub mod camera;
pub mod game;
pub mod models;
pub mod player;
pub mod scene;
pub mod screens;
pub mod shared;
pub mod ui;
