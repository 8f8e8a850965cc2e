//! Decision logic for a small menu built on bevy: which of two application
//! states is active, when the menu root is spawned again, and how a button
//! looks.
//!
//! The engine owns the world, the keyboard, the assets and the screen. This
//! library owns the rules: each function takes what the engine reported in a
//! frame and returns what the engine is to do, and its contract says exactly
//! which.

pub mod button;
pub mod camera;
pub mod keyboard;
pub mod root;
pub mod state;

pub use button::{
    button_style, button_system, ButtonColor, ButtonFrame, ButtonLabel, ButtonStyle, Interaction,
    HOVERED_BUTTON, NORMAL_BUTTON, PRESSED_BUTTON,
};
pub use camera::MainCamera;
pub use keyboard::Key;
pub use root::{
    despawn_on_modified, record_spawn, spawn, IsMenuRootSpawned, MenuRoot, PrototypeEvent,
    SpawnStep, PROTO_ID, PROTO_PATH,
};
pub use state::{transition_app_state, transition_on_keys, AppState, KeyOutcome};
