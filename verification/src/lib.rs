//! The rules of a small first-person game, apart from the engine that runs
//! it.
//!
//! At its heart are the effects that end by themselves: entity-scoped
//! one-shot timers (`timer`, `delay_component`), wrappers that attach or
//! detach data when a timer finishes, and an override of an entity's material
//! that puts back what it replaced (`mesh_material_override`). `record` holds
//! the transitions of one entity, `registry` the entities and the system that
//! ticks them, `guarantees` what is proved of whole runs of ticks. Around
//! them stand the rules of the interface (`ui`), of the player's input
//! (`player`), of what is gathered (`game_resources`) and of the scenery
//! (`world`).
//!
//! Durations are whole nanoseconds held in a `u128`.

pub mod delay_component;
pub mod game_resources;
pub mod guarantees;
pub mod mesh_material_override;
pub mod player;
pub mod record;
pub mod registry;
pub mod timer;
pub mod ui;
pub mod world;
