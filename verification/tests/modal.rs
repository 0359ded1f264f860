use third_person_core::screens::Screen;
use third_person_core::ui::modal::{
    on_new_modal, on_pop_modal, trigger_menu_toggle_on_esc, GameplayBack, Modal, Modals,
    NewModalPlan, PopModalPlan,
};

#[test]
fn first_main_menu_pauses_and_takes_the_input() {
    let mut modals = Modals::new();
    let plan = on_new_modal(&mut modals, &Screen::Gameplay, false, Some(false), Modal::Main);
    assert_eq!(
        plan,
        Some(NewModalPlan {
            toggle_pause: true,
            toggle_cursor: true,
            modal_context: true,
            shown: Modal::Main
        })
    );
    assert_eq!(modals.0, vec![Modal::Main]);
}

#[test]
fn already_paused_or_visible_cursor_is_left_alone() {
    let mut modals = Modals::new();
    let plan = on_new_modal(&mut modals, &Screen::Gameplay, true, Some(true), Modal::Main);
    assert_eq!(
        plan,
        Some(NewModalPlan {
            toggle_pause: false,
            toggle_cursor: false,
            modal_context: true,
            shown: Modal::Main
        })
    );
    let mut modals = Modals::new();
    let plan = on_new_modal(&mut modals, &Screen::Gameplay, false, None, Modal::Settings);
    assert_eq!(
        plan,
        Some(NewModalPlan {
            toggle_pause: false,
            toggle_cursor: false,
            modal_context: true,
            shown: Modal::Settings
        })
    );
}

#[test]
fn modals_outside_gameplay_do_nothing() {
    let mut modals = Modals::new();
    assert_eq!(on_new_modal(&mut modals, &Screen::Title, false, Some(false), Modal::Main), None);
    assert!(modals.is_empty());
    assert_eq!(on_pop_modal(&mut modals, &Screen::Title), None);
    assert_eq!(trigger_menu_toggle_on_esc(&Screen::Credits, &modals), None);
}

#[test]
fn stacked_modals_close_in_reverse_order() {
    let mut modals = Modals::new();
    on_new_modal(&mut modals, &Screen::Gameplay, false, Some(false), Modal::Main);
    let second = on_new_modal(&mut modals, &Screen::Gameplay, true, Some(true), Modal::Settings);
    assert_eq!(
        second,
        Some(NewModalPlan {
            toggle_pause: false,
            toggle_cursor: false,
            modal_context: false,
            shown: Modal::Settings
        })
    );
    assert_eq!(
        trigger_menu_toggle_on_esc(&Screen::Gameplay, &modals),
        Some(GameplayBack::PopModal)
    );
    assert_eq!(
        on_pop_modal(&mut modals, &Screen::Gameplay),
        Some(PopModalPlan { closed: Modal::Settings, reopened: Some(Modal::Main), resume: false })
    );
    assert_eq!(
        on_pop_modal(&mut modals, &Screen::Gameplay),
        Some(PopModalPlan { closed: Modal::Main, reopened: None, resume: true })
    );
    assert!(modals.is_empty());
    assert_eq!(
        trigger_menu_toggle_on_esc(&Screen::Gameplay, &modals),
        Some(GameplayBack::OpenMainMenu)
    );
}

#[test]
fn main_is_the_default_modal() {
    assert_eq!(Modal::default(), Modal::Main);
    assert!(Modal::Main.is_main());
    assert!(!Modal::Settings.is_main());
    let mut modals = Modals(vec![Modal::Main, Modal::Settings]);
    modals.clear();
    assert!(modals.is_empty());
}
