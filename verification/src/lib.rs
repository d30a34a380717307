//! A verified core for a windowed GPU renderer.
//!
//! The library models the lifecycle of a window-bound graphics context and
//! the per-frame rendering protocol: surface-format negotiation, resize and
//! reconfiguration, the acquire/encode/submit/present frame algorithm, and
//! an ordered composition of drawable layers (currently a text overlay).
//! The GPU driver and the windowing event loop are external collaborators;
//! the functions here decide what to do and in what order, and their
//! contracts pin those decisions down.

pub mod events;
pub mod render;
pub mod state;
pub mod surface;
pub mod text;
pub mod window;

