//! Verified core of the DarkSaber trainer: the shared trainer state, the
//! overlay menu state machine, the per-frame hook decisions, the metadata dump
//! renderer and the loader's argument handling.

pub mod text;
pub mod state;
pub mod menu;
pub mod labels;
pub mod hooks;
pub mod install;
pub mod dump;
pub mod loader;
pub mod menu_laws;
