//! What the player's input amounts to in a frame: the pointer's lock, the
//! wish to move, and what a click does to the world.

use crate::delay_component::Entity;
use vstd::prelude::*;

verus! {

/// The player. It marks the one entity that the input moves.
#[derive(Clone, Copy, Debug)]
pub struct Player;

/// How the window holds the pointer.
#[derive(Clone, Copy, Debug, PartialEq, Eq, Structural)]
pub enum CursorGrabMode {
    Free,
    Confined,
    Locked,
}

/// The pointer as a window has it.
#[derive(Clone, Copy, Debug, PartialEq, Eq, Structural)]
pub struct CursorOptions {
    pub grab_mode: CursorGrabMode,
    pub visible: bool,
}

/// What the keys ask of the player's body in a frame.
#[derive(Clone, Copy, Debug, PartialEq, Eq, Structural)]
pub struct MoveInput {
    /// Right is 1, left is -1.
    pub horizontal: i8,
    /// Forward is 1, back is -1.
    pub vertical: i8,
    pub start_jump: bool,
    pub stop_jump: bool,
    /// 2 while running, else 1.
    pub speed_multiplier: u8,
}

/// The player asks the thing under the crosshair to do its part.
#[derive(Clone, Copy, Debug, PartialEq, Eq, Structural)]
pub struct PlayerInteraction {
    pub entity: Entity,
}

/// The player strikes the thing under the crosshair.
#[derive(Clone, Copy, Debug, PartialEq, Eq, Structural)]
pub struct PlayerHit {
    pub entity: Entity,
}

/// What a click does.
#[derive(Clone, Copy, Debug, PartialEq, Eq, Structural)]
pub enum WorldEvent {
    Interaction(PlayerInteraction),
    Hit(PlayerHit),
}

/// 1, -1 or 0 for two keys that pull in opposite directions.
pub open spec fn axis(forth: bool, back: bool) -> int {
    (if forth {
        1int
    } else {
        0int
    }) - (if back {
        1int
    } else {
        0int
    })
}

/// The pointer after the key that toggles its lock: a pointer that is not
/// locked gets locked and hidden, a locked one is let go and shown.
pub open spec fn toggled(cursor: CursorOptions) -> CursorOptions {
    if cursor.grab_mode != CursorGrabMode::Locked {
        CursorOptions { grab_mode: CursorGrabMode::Locked, visible: false }
    } else {
        CursorOptions { grab_mode: CursorGrabMode::Free, visible: true }
    }
}

/// The pointer after a frame in which the toggling key was or was not
/// pressed.
pub fn mouse_lock(escape_pressed: bool, cursor: CursorOptions) -> (next: CursorOptions)
    ensures
        next == if escape_pressed {
            toggled(cursor)
        } else {
            cursor
        },
{
    if !escape_pressed {
        return cursor;
    }
    match cursor.grab_mode {
        CursorGrabMode::Locked => CursorOptions { grab_mode: CursorGrabMode::Free, visible: true },
        _ => CursorOptions { grab_mode: CursorGrabMode::Locked, visible: false },
    }
}

/// What the keys that are down ask for. Keys that pull in opposite directions
/// cancel each other.
pub fn player_move(
    up: bool,
    down: bool,
    left: bool,
    right: bool,
    jump_pressed: bool,
    jump_released: bool,
    run: bool,
) -> (input: MoveInput)
    ensures
        input.horizontal == axis(right, left),
        input.vertical == axis(up, down),
        input.start_jump == jump_pressed,
        input.stop_jump == jump_released,
        input.speed_multiplier == if run {
            2int
        } else {
            1int
        },
{
    let rightwards: i8 = if right {
        1
    } else {
        0
    };
    let leftwards: i8 = if left {
        1
    } else {
        0
    };
    let forwards: i8 = if up {
        1
    } else {
        0
    };
    let backwards: i8 = if down {
        1
    } else {
        0
    };
    MoveInput {
        horizontal: rightwards - leftwards,
        vertical: forwards - backwards,
        start_jump: jump_pressed,
        stop_jump: jump_released,
        speed_multiplier: if run {
            2
        } else {
            1
        },
    }
}

/// What a click does to the first thing that the player's ray meets: the
/// right button interacts with it, the left one alone hits it. Without a
/// click, or with nothing in reach, nothing happens.
pub fn world_interaction(left_pressed: bool, right_pressed: bool, first_hit: Option<Entity>) -> (event:
    Option<WorldEvent>)
    ensures
        event == if !(left_pressed || right_pressed) || first_hit.is_none() {
            None
        } else if right_pressed {
            Some(WorldEvent::Interaction(PlayerInteraction { entity: first_hit.unwrap() }))
        } else {
            Some(WorldEvent::Hit(PlayerHit { entity: first_hit.unwrap() }))
        },
{
    if !(left_pressed || right_pressed) {
        return None;
    }
    match first_hit {
        Some(entity) => if right_pressed {
            Some(WorldEvent::Interaction(PlayerInteraction { entity }))
        } else {
            Some(WorldEvent::Hit(PlayerHit { entity }))
        },
        None => None,
    }
}

} // verus!
