//! Coordination logic of a desktop media client's native shell: the media
//! session bridge, native control translation, window geometry persistence,
//! the server probe and the settings key layout.

pub mod debounce;
pub mod text;
pub mod probe;
pub mod controls;
pub mod geometry;
pub mod session;
pub mod settings;
pub mod cli;
pub mod taskbar;
pub mod power;
pub mod addresses;
