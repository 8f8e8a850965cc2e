//! The keyboard as bevy reports it.
//!
//! Nothing in this file is proved: it states what is believed of bevy's
//! `Input`, so that the rest of the library can be proved against it.

use bevy::input::keyboard::KeyCode;
use bevy::input::Input;
use std::hash::Hash;
use vstd::prelude::*;

verus! {

/// bevy's `Input`: the buttons that are down, and those that went down or
/// came up in the current frame. Its contents are not visible to proofs;
/// [`just_pressed_keys`] names the part of it that the library reads.
#[verifier::external_type_specification]
#[verifier::external_body]
#[verifier::reject_recursive_types(T)]
pub struct ExInput<T: Copy + Eq + Hash + Send + Sync + 'static>(Input<T>);

/// bevy's `KeyCode`: the symbolic name of a key.
#[verifier::external_type_specification]
#[verifier::external_body]
pub struct ExKeyCode(KeyCode);

/// A key that the menu listens to.
#[derive(Debug, Clone, Copy, PartialEq, Eq, Structural, Hash)]
pub enum Key {
    /// The key bevy calls `KeyCode::G`.
    G,
    /// The key bevy calls `KeyCode::M`.
    M,
}

/// The keys, among those of [`Key`], that are in the `just_pressed` set of
/// `input`: those for which a press was registered since the set was last
/// cleared.
pub uninterp spec fn just_pressed_keys(input: Input<KeyCode>) -> Set<Key>;

/// Calls bevy's `Input::just_pressed` with the `KeyCode` that `key` stands
/// for. That method answers whether the key code is in the `just_pressed`
/// set, which is what the contract says in terms of [`just_pressed_keys`].
#[verifier::external_body]
pub(crate) fn just_pressed(input: &Input<KeyCode>, key: Key) -> (hit: bool)
    ensures
        hit == just_pressed_keys(*input).contains(key),
{
    input.just_pressed(match key {
        Key::G => KeyCode::G,
        Key::M => KeyCode::M,
    })
}

} // verus!
