//! Reading the key edges of a tick out of bevy's keyboard state.
//!
//! The keyboard state is bevy's `ButtonInput<KeyCode>`. It is opaque here:
//! what is known of it is what the two calls below are taken to return.
use vstd::prelude::*;
use bevy::input::keyboard::KeyCode;
use bevy::input::ButtonInput;
use crate::lane::{KeyEdge, KeyEdges, KeyId};

verus! {

/// `bevy::input::ButtonInput`: bevy's record of which buttons are down, which
/// went down and which went up since it was last cleared. Nothing inside it
/// is visible here.
#[verifier::external_type_specification]
#[verifier::external_body]
#[verifier::reject_recursive_types(T)]
pub struct ExButtonInput<T: Copy + Eq + std::hash::Hash + Send + Sync + 'static>(ButtonInput<T>);

/// `bevy::input::keyboard::KeyCode`: bevy's name for a physical key.
#[verifier::external_type_specification]
#[verifier::external_body]
pub struct ExKeyCode(KeyCode);

/// The bound keys that a keyboard state holds in its set of just pressed
/// buttons. Unproved: it is tied to the keyboard state by `key_just_pressed`
/// alone.
pub uninterp spec fn just_pressed_keys(input: ButtonInput<KeyCode>) -> Set<KeyId>;

/// The bound keys that a keyboard state holds in its set of just released
/// buttons. Unproved: it is tied to the keyboard state by `key_just_released`
/// alone.
pub uninterp spec fn just_released_keys(input: ButtonInput<KeyCode>) -> Set<KeyId>;

/// Calls `ButtonInput::just_pressed` with the key code of `key` (`KeyD`,
/// `KeyF`, `KeyJ` or `KeyK`). That method looks the code up in the set of just
/// pressed buttons and changes nothing. Unproved: the contract takes the
/// answer to be membership of `key` in `just_pressed_keys`, and so to depend
/// on the keyboard state and the key alone.
#[verifier::external_body]
fn key_just_pressed(input: &ButtonInput<KeyCode>, key: KeyId) -> (r: bool)
    ensures
        r == just_pressed_keys(*input).contains(key),
{
    let code = match key {
        KeyId::D => KeyCode::KeyD,
        KeyId::F => KeyCode::KeyF,
        KeyId::J => KeyCode::KeyJ,
        KeyId::K => KeyCode::KeyK,
    };
    input.just_pressed(code)
}

/// Calls `ButtonInput::just_released` with the key code of `key` (`KeyD`,
/// `KeyF`, `KeyJ` or `KeyK`). That method looks the code up in the set of just
/// released buttons and changes nothing. Unproved: the contract takes the
/// answer to be membership of `key` in `just_released_keys`, and so to depend
/// on the keyboard state and the key alone.
#[verifier::external_body]
fn key_just_released(input: &ButtonInput<KeyCode>, key: KeyId) -> (r: bool)
    ensures
        r == just_released_keys(*input).contains(key),
{
    let code = match key {
        KeyId::D => KeyCode::KeyD,
        KeyId::F => KeyCode::KeyF,
        KeyId::J => KeyCode::KeyJ,
        KeyId::K => KeyCode::KeyK,
    };
    input.just_released(code)
}

/// The edge of one bound key in a keyboard state.
pub open spec fn edge_in(input: ButtonInput<KeyCode>, key: KeyId) -> KeyEdge {
    KeyEdge {
        just_pressed: just_pressed_keys(input).contains(key),
        just_released: just_released_keys(input).contains(key),
    }
}

/// The edges of the four bound keys in a keyboard state.
pub open spec fn edges_in(input: ButtonInput<KeyCode>) -> KeyEdges {
    KeyEdges {
        d: edge_in(input, KeyId::D),
        f: edge_in(input, KeyId::F),
        j: edge_in(input, KeyId::J),
        k: edge_in(input, KeyId::K),
    }
}

/// The edge of one bound key, as the keyboard state holds it.
pub fn read_edge(input: &ButtonInput<KeyCode>, key: KeyId) -> (edge: KeyEdge)
    ensures
        edge == edge_in(*input, key),
{
    KeyEdge {
        just_pressed: key_just_pressed(input, key),
        just_released: key_just_released(input, key),
    }
}

/// The edges of the four bound keys, as the keyboard state holds them.
pub fn read_edges(input: &ButtonInput<KeyCode>) -> (edges: KeyEdges)
    ensures
        edges == edges_in(*input),
        forall|key: KeyId| edges.edge(key) == edge_in(*input, key),
{
    KeyEdges {
        d: read_edge(input, KeyId::D),
        f: read_edge(input, KeyId::F),
        j: read_edge(input, KeyId::J),
        k: read_edge(input, KeyId::K),
    }
}

} // verus!
