use reactive_effects::ui::{button_hover, set_button_style, ButtonLook, GameState, UiPlugin, UiSystem};

#[test]
fn game_starts_in_the_main_menu() {
    assert_eq!(GameState::default(), GameState::MainMenu);
}

#[test]
fn main_menu_is_built_on_entering_it() {
    assert!(UiPlugin.runs(UiSystem::SpawnMainMenu, Some(GameState::MainMenu)));
    assert!(!UiPlugin.runs(UiSystem::SpawnMainMenu, Some(GameState::InGame)));
    assert!(!UiPlugin.runs(UiSystem::SpawnMainMenu, None));
}

#[test]
fn buttons_are_looked_after_in_every_frame() {
    assert!(UiPlugin.runs(UiSystem::ButtonHover, None));
    assert!(UiPlugin.runs(UiSystem::ButtonHover, Some(GameState::MainMenu)));
    assert!(UiPlugin.runs(UiSystem::ButtonHover, Some(GameState::InGame)));
}

#[test]
fn button_looks() {
    assert_eq!(set_button_style(true, false, false), ButtonLook::Disabled);
    assert_eq!(set_button_style(true, true, true), ButtonLook::Disabled);
    assert_eq!(set_button_style(false, true, true), ButtonLook::Pressed);
    assert_eq!(set_button_style(false, true, false), ButtonLook::Hovered);
    assert_eq!(set_button_style(false, false, true), ButtonLook::Idle);
    assert_eq!(set_button_style(false, false, false), ButtonLook::Idle);
}

#[test]
fn unchanged_button_is_left_alone() {
    assert_eq!(button_hover(Some(false), Some(false), true, false, false, false), None);
}

#[test]
fn changed_button_is_restyled() {
    assert_eq!(
        button_hover(Some(true), Some(false), true, false, false, false),
        Some(ButtonLook::Disabled)
    );
    assert_eq!(
        button_hover(Some(false), None, true, false, false, false),
        Some(ButtonLook::Pressed)
    );
    assert_eq!(button_hover(None, None, true, true, false, false), Some(ButtonLook::Hovered));
    assert_eq!(button_hover(None, None, false, false, false, false), Some(ButtonLook::Idle));
    assert_eq!(
        button_hover(Some(false), Some(false), false, false, true, false),
        Some(ButtonLook::Disabled)
    );
    assert_eq!(
        button_hover(Some(false), Some(false), false, false, false, true),
        Some(ButtonLook::Disabled)
    );
}
