//! The rules of the interface: when its systems run, and how a button looks.

use vstd::prelude::*;

verus! {

/// Where the game is: in the menu it starts with, or in play.
#[derive(Clone, Copy, Debug, PartialEq, Eq, Hash, Structural)]
pub enum GameState {
    MainMenu,
    InGame,
}

impl Default for GameState {
    fn default() -> (state: GameState)
        ensures
            state == GameState::MainMenu,
    {
        GameState::MainMenu
    }
}

/// The systems of the interface.
#[derive(Clone, Copy, Debug, PartialEq, Eq, Structural)]
pub enum UiSystem {
    /// Builds the main menu.
    SpawnMainMenu,
    /// Restyles the buttons whose state has changed.
    ButtonHover,
}

/// How a button is drawn.
#[derive(Clone, Copy, Debug, PartialEq, Eq, Structural)]
pub enum ButtonLook {
    /// Greyed out.
    Disabled,
    /// Pushed in: thin paper, shifted down.
    Pressed,
    /// Lit up: thick paper, in its place.
    Hovered,
    /// Plain.
    Idle,
}

/// The interface: it builds the main menu when the game enters it, and keeps
/// the buttons' looks up to date in every frame.
#[derive(Clone, Copy, Debug)]
pub struct UiPlugin;

/// The look of a button: a disabled one is greyed out whatever else holds;
/// one that the pointer is on is pressed or hovered; any other is idle.
pub open spec fn look_of(disabled: bool, hovered: bool, pressed: bool) -> ButtonLook {
    if disabled {
        ButtonLook::Disabled
    } else if !hovered {
        ButtonLook::Idle
    } else if pressed {
        ButtonLook::Pressed
    } else {
        ButtonLook::Hovered
    }
}

/// Whether a button has to be restyled in this frame. `pressed` and
/// `disabled` say whether the button has that mark and, if so, whether the
/// mark has changed; a mark that is missing, or was taken off in this frame,
/// counts as a change.
pub open spec fn stale(
    pressed: Option<bool>,
    disabled: Option<bool>,
    hovered_changed: bool,
    pressed_removed: bool,
    disabled_removed: bool,
) -> bool {
    ||| pressed != Some(false)
    ||| disabled != Some(false)
    ||| hovered_changed
    ||| pressed_removed
    ||| disabled_removed
}

impl UiPlugin {
    /// Whether `system` runs in a frame in which the game has entered
    /// `entered`, if it has entered any state.
    pub open spec fn due(system: UiSystem, entered: Option<GameState>) -> bool {
        match system {
            UiSystem::SpawnMainMenu => entered == Some(GameState::MainMenu),
            UiSystem::ButtonHover => true,
        }
    }

    pub fn runs(&self, system: UiSystem, entered: Option<GameState>) -> (due: bool)
        ensures
            due == Self::due(system, entered),
    {
        match system {
            UiSystem::SpawnMainMenu => match entered {
                Some(GameState::MainMenu) => true,
                _ => false,
            },
            UiSystem::ButtonHover => true,
        }
    }
}

/// The look to give a button from what holds of it.
pub fn set_button_style(disabled: bool, hovered: bool, pressed: bool) -> (look: ButtonLook)
    ensures
        look == look_of(disabled, hovered, pressed),
{
    match (disabled, hovered, pressed) {
        (true, _, _) => ButtonLook::Disabled,
        (false, true, true) => ButtonLook::Pressed,
        (false, true, false) => ButtonLook::Hovered,
        (false, false, _) => ButtonLook::Idle,
    }
}

/// The look to give a button in this frame, or `None` where nothing about it
/// has changed and it is left as it is drawn.
pub fn button_hover(
    pressed: Option<bool>,
    disabled: Option<bool>,
    hovered: bool,
    hovered_changed: bool,
    pressed_removed: bool,
    disabled_removed: bool,
) -> (look: Option<ButtonLook>)
    ensures
        look == if stale(pressed, disabled, hovered_changed, pressed_removed, disabled_removed) {
            Some(look_of(disabled.is_some(), hovered, pressed.is_some()))
        } else {
            None
        },
{
    let pressed_same = match pressed {
        Some(changed) => !changed,
        None => false,
    };
    let disabled_same = match disabled {
        Some(changed) => !changed,
        None => false,
    };
    if pressed_same && disabled_same && !hovered_changed && !pressed_removed && !disabled_removed {
        None
    } else {
        Some(set_button_style(disabled.is_some(), hovered, pressed.is_some()))
    }
}

} // verus!
