use third_person_core::app_plan::{
    config_path, AppPlan, ConfigFile, Registration, RunCondition, Schedule, SystemId,
};
use third_person_core::screens::Screen;

fn steps_of(build: fn(&mut AppPlan)) -> Vec<Registration> {
    let mut plan = AppPlan::new();
    build(&mut plan);
    plan.steps().clone()
}

#[test]
fn animation_plugin_chains_its_systems() {
    let steps = steps_of(third_person_core::player::animation::plugin);
    assert_eq!(steps.len(), 2);
    assert!(matches!(
        steps[1],
        Registration::System {
            schedule: Schedule::Update,
            system: SystemId::Animate,
            condition: RunCondition::InScreen(Screen::Gameplay),
            set: None,
            after: Some(SystemId::CalcucateAnimations)
        }
    ));
}

#[test]
fn plugins_append_in_order() {
    let mut plan = AppPlan::new();
    third_person_core::shared::states::plugin(&mut plan);
    third_person_core::scene::screen_fade::plugin(&mut plan);
    let steps = plan.steps();
    assert_eq!(steps.len(), 4);
    assert!(matches!(steps[0], Registration::InitResource(_)));
    assert!(matches!(steps[3], Registration::Observer(SystemId::OnFadeCam)));
}

#[test]
fn every_plugin_registers_something() {
    let builders: [fn(&mut AppPlan); 22] = [
        third_person_core::asset_loading::plugin,
        third_person_core::asset_loading::tracking::plugin,
        third_person_core::camera::plugin,
        third_person_core::game::plugin,
        third_person_core::game::mood::plugin,
        third_person_core::models::event_dispatch::plugin,
        third_person_core::models::events::plugin,
        third_person_core::player::animation::plugin,
        third_person_core::player::control::plugin,
        third_person_core::player::input::plugin,
        third_person_core::player::sound::plugin,
        third_person_core::scene::screen_fade::plugin,
        third_person_core::scene::skybox::plugin,
        third_person_core::screens::plugin,
        third_person_core::screens::credits::plugin,
        third_person_core::screens::gameplay::plugin,
        third_person_core::screens::title::plugin,
        third_person_core::shared::plugin,
        third_person_core::shared::states::plugin,
        third_person_core::ui::plugin,
        third_person_core::ui::interaction::plugin,
        third_person_core::ui::modal::plugin,
    ];
    for b in builders {
        assert!(!steps_of(b).is_empty());
    }
    // the screens plugin contains the title, credits and gameplay plugins
    let screens = steps_of(third_person_core::screens::plugin);
    assert_eq!(
        screens.len(),
        3 + steps_of(third_person_core::screens::title::plugin).len()
            + 1
            + steps_of(third_person_core::screens::credits::plugin).len()
            + steps_of(third_person_core::screens::gameplay::plugin).len()
            + 5
    );
}

#[test]
fn settings_files_have_their_paths() {
    assert_eq!(config_path(ConfigFile::Config), "config.ron");
    assert_eq!(config_path(ConfigFile::Credits), "credits.ron");
    let steps = steps_of(third_person_core::asset_loading::plugin);
    assert!(matches!(steps[2], Registration::RonAssets(ConfigFile::Config)));
}
