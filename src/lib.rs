//! An on-screen keyboard overlay: hit-testing, sticky modifiers, pixel
//! post-processing, keymap framing, surface sizing and the discovery phase,
//! each stated and proved over a small mathematical model.
pub mod keymap;
pub mod modifier;
pub mod pangoui;
pub mod registry;
pub mod render;
pub mod session;
pub mod surface;
