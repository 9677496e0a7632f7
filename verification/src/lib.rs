//! Bookkeeping core of a small two-dimensional n-body sandbox engine.
//!
//! The physics itself (positions, velocities, gravity, distances) is
//! floating-point arithmetic and lives with the front end.  This crate holds
//! the parts of the engine that decide: how events are prioritised and
//! queued, how bodies are registered and addressed by id, which pairs of
//! bodies and which walls are reported as collisions, and how mouse input is
//! classified.
pub mod body;
pub mod collision;
pub mod engine;
pub mod events;
pub mod input;
pub mod queue;
pub mod space;
pub mod world;

pub use events::apply_force_event_creation;
pub use events::object_creation;
