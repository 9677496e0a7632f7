# engine_core

The verified core of a small two-dimensional n-body sandbox.

- `src/` (Verus): event priorities and the event queue (`events`, `queue`),
  the registry of bodies addressed by id and their snapshots (`body`,
  `world`), collision bookkeeping (`collision`, `World::handle_*`), the
  handling of one engine event (`engine`) and the classification of mouse
  input (`input`).  Vector and scalar types are type parameters: the library
  never computes with them.
- `app/` (plain Rust): the `f32` physics (gravity, motion, wall
  reflection, distance tests), the engine thread with its channels, and the
  ggez window, mouse handling and drawing.
- `tests/`: tests of the library, instantiated with `glam::Vec2` and `f32`
  or with integers.
