//! Decision logic of a single-camera cube viewer: shader build outcomes,
//! window-event handling, movement-key plans and per-frame draw plans.
//! The floating-point camera math and every backend call live with the caller.
pub mod frame;
pub mod input;
pub mod shader;
