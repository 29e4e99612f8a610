// A per-frame simulation core: an entity registry, countdown timers, collision
// batches that score and remove entities, input-driven movement and spawning,
// and the frame update that runs them in a fixed order.

pub mod collision;
pub mod frame;
pub mod frog;
pub mod registry;
pub mod spawn;
pub mod timer;
