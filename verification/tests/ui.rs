use third_person_core::screens::credits::{flatten, JustifySelf};
use third_person_core::ui::interaction::{palette_slot, plays_button_sound, PaletteSlot, PointerEvent};
use third_person_core::ui::widget::label_name;

#[test]
fn label_names_cut_long_texts() {
    assert_eq!(label_name("Play"), "Label Play");
    assert_eq!(label_name("0123456789"), "Label 0123456789");
    assert_eq!(label_name("Compiling shaders..."), "Label Compilin");
    assert_eq!(label_name(""), "Label ");
    // eight bytes of two-byte characters
    assert_eq!(label_name("ééééééé"), "Label éééé");
}

#[test]
fn palettes_follow_pointer_events() {
    assert_eq!(palette_slot(PointerEvent::Click), PaletteSlot::Pressed);
    assert_eq!(palette_slot(PointerEvent::Release), PaletteSlot::Hovered);
    assert_eq!(palette_slot(PointerEvent::Over), PaletteSlot::Hovered);
    assert_eq!(palette_slot(PointerEvent::Out), PaletteSlot::Idle);
    assert!(plays_button_sound(true, Some(true)));
    assert!(!plays_button_sound(true, Some(false)));
    assert!(!plays_button_sound(true, None));
    assert!(!plays_button_sound(false, Some(true)));
}

#[test]
fn credits_grid_alternates_columns() {
    let pairs = vec![
        ("Alice".to_string(), "code".to_string()),
        ("Bob".to_string(), "music".to_string()),
    ];
    let cells = flatten(&pairs);
    let texts: Vec<&str> = cells.iter().map(|c| c.text.as_str()).collect();
    assert_eq!(texts, vec!["Alice", "code", "Bob", "music"]);
    assert_eq!(cells[0].justify, JustifySelf::End);
    assert_eq!(cells[1].justify, JustifySelf::Start);
    assert_eq!(cells[2].justify, JustifySelf::End);
    assert_eq!(cells[3].justify, JustifySelf::Start);
    assert!(flatten(&vec![]).is_empty());
}
