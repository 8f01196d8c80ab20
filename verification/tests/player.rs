use reactive_effects::delay_component::Entity;
use reactive_effects::game_resources::GameResources;
use reactive_effects::player::{
    mouse_lock, player_move, world_interaction, CursorGrabMode, CursorOptions, MoveInput,
    PlayerHit, PlayerInteraction, WorldEvent,
};

#[test]
fn pointer_is_left_alone_without_the_key() {
    for grab_mode in [CursorGrabMode::Free, CursorGrabMode::Confined, CursorGrabMode::Locked] {
        for visible in [false, true] {
            let cursor = CursorOptions { grab_mode, visible };
            assert_eq!(mouse_lock(false, cursor), cursor);
        }
    }
}

#[test]
fn the_key_locks_a_free_pointer() {
    let locked = CursorOptions { grab_mode: CursorGrabMode::Locked, visible: false };
    assert_eq!(
        mouse_lock(true, CursorOptions { grab_mode: CursorGrabMode::Free, visible: true }),
        locked
    );
    assert_eq!(
        mouse_lock(true, CursorOptions { grab_mode: CursorGrabMode::Confined, visible: true }),
        locked
    );
}

#[test]
fn the_key_frees_a_locked_pointer() {
    assert_eq!(
        mouse_lock(true, CursorOptions { grab_mode: CursorGrabMode::Locked, visible: false }),
        CursorOptions { grab_mode: CursorGrabMode::Free, visible: true }
    );
}

#[test]
fn keys_become_axes() {
    let still = MoveInput {
        horizontal: 0,
        vertical: 0,
        start_jump: false,
        stop_jump: false,
        speed_multiplier: 1,
    };
    assert_eq!(player_move(false, false, false, false, false, false, false), still);
    assert_eq!(
        player_move(true, false, false, true, false, false, false),
        MoveInput { horizontal: 1, vertical: 1, ..still }
    );
    assert_eq!(
        player_move(false, true, true, false, false, false, false),
        MoveInput { horizontal: -1, vertical: -1, ..still }
    );
    assert_eq!(player_move(true, true, true, true, false, false, false), still);
}

#[test]
fn running_and_jumping() {
    let input = player_move(false, false, false, false, true, false, true);
    assert_eq!(input.speed_multiplier, 2);
    assert!(input.start_jump);
    assert!(!input.stop_jump);
    let input = player_move(false, false, false, false, true, true, false);
    assert_eq!(input.speed_multiplier, 1);
    assert!(input.start_jump && input.stop_jump);
}

#[test]
fn clicks_reach_the_first_thing_in_the_way() {
    let tree = Entity(5);
    assert_eq!(world_interaction(false, false, Some(tree)), None);
    assert_eq!(world_interaction(true, false, None), None);
    assert_eq!(world_interaction(false, true, None), None);
    assert_eq!(
        world_interaction(true, false, Some(tree)),
        Some(WorldEvent::Hit(PlayerHit { entity: tree }))
    );
    assert_eq!(
        world_interaction(false, true, Some(tree)),
        Some(WorldEvent::Interaction(PlayerInteraction { entity: tree }))
    );
    assert_eq!(
        world_interaction(true, true, Some(tree)),
        Some(WorldEvent::Interaction(PlayerInteraction { entity: tree }))
    );
}

#[test]
fn a_hit_tree_gives_wood() {
    let mut stock = GameResources::default();
    assert_eq!(stock, GameResources { wood: 0, stone: 0, gold: 0 });
    stock.gain_wood();
    stock.gain_wood();
    assert_eq!(stock, GameResources { wood: 2, stone: 0, gold: 0 });
    let mut full = GameResources { wood: u32::MAX - 1, stone: 3, gold: 4 };
    full.gain_wood();
    assert_eq!(full, GameResources { wood: u32::MAX, stone: 3, gold: 4 });
}
