//! Window and input-event layer for a game loop: graphics API versions,
//! shader version selection, normalized input events, and the state machine
//! that turns native window events into those input events.

pub mod graphics_api_version;
pub mod input;
pub mod keymap;
pub mod shader_version;
pub mod session;
pub mod pump;
pub mod scheduler;
