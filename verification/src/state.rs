//! The two application states and the keys that move between them.

use crate::keyboard::{just_pressed, just_pressed_keys, Key};
use bevy::input::keyboard::KeyCode;
use bevy::input::Input;
use vstd::prelude::*;

verus! {

/// The state the application is in.
#[derive(Debug, Clone, Copy, PartialEq, Eq, Structural, Hash)]
pub enum AppState {
    MainMenu,
    Game,
}

impl Default for AppState {
    /// The application starts in the main menu.
    fn default() -> (state: AppState)
        ensures
            state == AppState::MainMenu,
    {
        AppState::MainMenu
    }
}

impl AppState {
    /// The other of the two states.
    pub open spec fn spec_toggled(self) -> AppState {
        match self {
            AppState::MainMenu => AppState::Game,
            AppState::Game => AppState::MainMenu,
        }
    }

    /// The other of the two states.
    #[verifier::when_used_as_spec(spec_toggled)]
    pub fn toggled(self) -> (other: AppState)
        ensures
            other == self.spec_toggled(),
    {
        match self {
            AppState::MainMenu => AppState::Game,
            AppState::Game => AppState::MainMenu,
        }
    }
}

/// What the keyboard asked of the application state in one frame.
#[derive(Debug, Clone, Copy, PartialEq, Eq, Structural, Hash)]
pub enum KeyOutcome {
    /// A key asked for a state other than the current one: that state is to
    /// be entered.
    Entered(AppState),
    /// A key asked for the state the application is in already.
    AlreadyIn(AppState),
    /// Neither key went down.
    NoKey,
}

impl KeyOutcome {
    /// The state to request from the engine, if any.
    pub open spec fn spec_next_state(self) -> Option<AppState> {
        match self {
            KeyOutcome::Entered(state) => Some(state),
            _ => None,
        }
    }

    /// The state to request from the engine, if any.
    #[verifier::when_used_as_spec(spec_next_state)]
    pub fn next_state(self) -> (next: Option<AppState>)
        ensures
            next == self.spec_next_state(),
    {
        match self {
            KeyOutcome::Entered(state) => Some(state),
            _ => None,
        }
    }
}

/// The state a frame's key presses ask for: `G` asks for the game, `M` for
/// the main menu, and `G` wins when both went down.
pub open spec fn key_target(g_pressed: bool, m_pressed: bool) -> Option<AppState> {
    if g_pressed {
        Some(AppState::Game)
    } else if m_pressed {
        Some(AppState::MainMenu)
    } else {
        None
    }
}

/// The outcome of a frame's key presses in state `current`.
pub open spec fn key_outcome(g_pressed: bool, m_pressed: bool, current: AppState) -> KeyOutcome {
    match key_target(g_pressed, m_pressed) {
        Some(target) => if target == current {
            KeyOutcome::AlreadyIn(target)
        } else {
            KeyOutcome::Entered(target)
        },
        None => KeyOutcome::NoKey,
    }
}

/// Decides the outcome of a frame from whether `G` and `M` went down in it.
pub fn transition_on_keys(
    g_pressed: bool,
    m_pressed: bool,
    current: AppState,
) -> (outcome: KeyOutcome)
    ensures
        outcome == key_outcome(g_pressed, m_pressed, current),
{
    let target = if g_pressed {
        AppState::Game
    } else if m_pressed {
        AppState::MainMenu
    } else {
        return KeyOutcome::NoKey;
    };
    if target == current {
        KeyOutcome::AlreadyIn(target)
    } else {
        KeyOutcome::Entered(target)
    }
}

/// Reads the two keys from the keyboard and decides the frame's outcome.
pub fn transition_app_state(
    keyboard_input: &Input<KeyCode>,
    current: AppState,
) -> (outcome: KeyOutcome)
    ensures
        outcome == key_outcome(
            just_pressed_keys(*keyboard_input).contains(Key::G),
            just_pressed_keys(*keyboard_input).contains(Key::M),
            current,
        ),
{
    let g_pressed = just_pressed(keyboard_input, Key::G);
    let m_pressed = just_pressed(keyboard_input, Key::M);
    transition_on_keys(g_pressed, m_pressed, current)
}

} // verus!
