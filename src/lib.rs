//! Plugin lifecycle contract of a game engine, with a verified host-side
//! lifecycle tracker, and the physics menu's click dispatch of the editor.
pub mod context;
pub mod handle;
pub mod host;
pub mod lifecycle;
pub mod menu;
pub mod plugin;
pub mod plugins;
pub mod uuid;

