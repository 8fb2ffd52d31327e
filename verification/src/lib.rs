//! Gravity worm: a scrolling-cave arcade game core.
//!
//! The simulation owns the cave walls, the worm trail, the prizes and the
//! score, and advances by fixed 1/16-second ticks.  Randomness for prize
//! spawning is injected by the caller, so every step is deterministic and
//! fully specified.  Rendering and event plumbing live outside this crate;
//! they only read the public fields and call the update and input methods.

pub mod game;
pub mod laws;
