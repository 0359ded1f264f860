use third_person_core::asset_loading::tracking::ResourceHandles;
use third_person_core::asset_loading::{
    Models, Textures, MODEL_ENTRY_SCENE, MODEL_PLAYER, TEXTURE_GITHUB, TEXTURE_MUTE, TEXTURE_PAUSE,
};
use third_person_core::screens::loading::shader_compilation::{
    total_pipelines, update_loading_shaders_label, LoadedPipelineCount, Platform,
};

#[test]
fn loading_pass_moves_loaded_handles_in_order() {
    let mut h: ResourceHandles<&str> = ResourceHandles::new();
    for name in ["config", "credits", "audio", "textures", "models"] {
        h.push_handle(name);
    }
    assert_eq!(h.total_count(), 5);
    assert!(!h.is_all_done());
    let moved = h.load_resource_assets(&vec![false, true, false, true, false]);
    assert_eq!(moved, 2);
    assert_eq!(h.finished(), &vec!["credits", "textures"]);
    assert_eq!(h.waiting().iter().cloned().collect::<Vec<_>>(), vec!["config", "audio", "models"]);
    assert_eq!(h.total_count(), 5);
    assert_eq!(h.finished_count(), 2);
    let moved = h.load_resource_assets(&vec![true, true, true]);
    assert_eq!(moved, 3);
    assert!(h.is_all_done());
    assert_eq!(h.finished(), &vec!["credits", "textures", "config", "audio", "models"]);
}

#[test]
fn loading_pass_on_an_empty_queue() {
    let mut h: ResourceHandles<u32> = ResourceHandles::new();
    assert!(h.is_all_done());
    assert_eq!(h.load_resource_assets(&vec![]), 0);
    assert_eq!(h.total_count(), 0);
}

#[test]
fn shader_label_counts() {
    assert_eq!(update_loading_shaders_label(0, 7), "Compiling shaders: 0 / 7");
    assert_eq!(update_loading_shaders_label(12, 6), "Compiling shaders: 12 / 6");
    assert_eq!(update_loading_shaders_label(1005, 10), "Compiling shaders: 1005 / 10");
    assert_eq!(
        update_loading_shaders_label(usize::MAX, 0),
        format!("Compiling shaders: {} / 0", usize::MAX)
    );
}

#[test]
fn pipelines_to_wait_for() {
    assert_eq!(total_pipelines(Platform::Native, true), 7);
    assert_eq!(total_pipelines(Platform::Native, false), 6);
    assert_eq!(total_pipelines(Platform::Web, true), 5);
    assert_eq!(total_pipelines(Platform::Web, false), 4);
    let mut c = LoadedPipelineCount(3);
    assert!(!c.is_done(7));
    assert!(!c.update_loaded_pipeline_count(3));
    assert!(c.update_loaded_pipeline_count(7));
    assert!(c.is_done(7));
}

#[test]
fn textures_and_models_load_their_paths() {
    let t = Textures::from_world(&|p: &'static str| p.to_string());
    assert_eq!(t.github, TEXTURE_GITHUB);
    assert_eq!(t.pause, "textures/pause.png");
    assert_eq!(t.mute, TEXTURE_MUTE);
    assert_eq!(TEXTURE_PAUSE, "textures/pause.png");
    let m = Models::from_world(&|p: &'static str| p.len());
    assert_eq!(m.player, MODEL_PLAYER.len());
    assert_eq!(m.entry_scene, MODEL_ENTRY_SCENE.len());
    assert_eq!(MODEL_ENTRY_SCENE, "models/scene.glb");
}
