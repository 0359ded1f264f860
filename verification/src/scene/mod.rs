pub mod screen_fade;
pub mod skybox;
