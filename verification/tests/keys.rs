use bevy::input::keyboard::KeyCode;
use bevy::input::ButtonInput;
use rhythm_core::input::{read_edge, read_edges};
use rhythm_core::lane::{bound_key, illuminate_lane, is_lane, KeyEdge, KeyEdges, KeyId, LaneLight};

const QUIET: KeyEdge = KeyEdge { just_pressed: false, just_released: false };
const DOWN: KeyEdge = KeyEdge { just_pressed: true, just_released: false };
const UP: KeyEdge = KeyEdge { just_pressed: false, just_released: true };

#[test]
fn lanes_and_their_keys() {
    assert_eq!(bound_key(0), KeyId::D);
    assert_eq!(bound_key(1), KeyId::F);
    assert_eq!(bound_key(2), KeyId::J);
    assert_eq!(bound_key(3), KeyId::K);
    assert!(is_lane(0) && is_lane(3));
    assert!(!is_lane(4) && !is_lane(255));
}

#[test]
fn edge_constructors() {
    assert_eq!(KeyEdge::none(), QUIET);
    assert_eq!(KeyEdges::none(), KeyEdges { d: QUIET, f: QUIET, j: QUIET, k: QUIET });
    assert_eq!(KeyEdges::press(KeyId::F), KeyEdges { d: QUIET, f: DOWN, j: QUIET, k: QUIET });
    assert_eq!(KeyEdges::release(KeyId::K), KeyEdges { d: QUIET, f: QUIET, j: QUIET, k: UP });
    let edges = KeyEdges { d: DOWN, f: UP, j: QUIET, k: DOWN };
    assert_eq!(edges.of(KeyId::D), DOWN);
    assert_eq!(edges.of(KeyId::F), UP);
    assert_eq!(edges.of(KeyId::J), QUIET);
    assert_eq!(edges.of(KeyId::K), DOWN);
}

#[test]
fn lane_lights_on_press_and_goes_out_on_release() {
    let press = KeyEdges::press(KeyId::J);
    let release = KeyEdges::release(KeyId::J);
    let none = KeyEdges::none();
    assert_eq!(illuminate_lane(2, LaneLight::Idle, &press), LaneLight::Active);
    assert_eq!(illuminate_lane(2, LaneLight::Active, &press), LaneLight::Active);
    assert_eq!(illuminate_lane(2, LaneLight::Active, &none), LaneLight::Active);
    assert_eq!(illuminate_lane(2, LaneLight::Active, &release), LaneLight::Idle);
    assert_eq!(illuminate_lane(2, LaneLight::Idle, &release), LaneLight::Idle);
    assert_eq!(illuminate_lane(2, LaneLight::Idle, &none), LaneLight::Idle);
}

#[test]
fn lane_ignores_other_keys() {
    for lane in [0u8, 1, 3] {
        assert_eq!(illuminate_lane(lane, LaneLight::Idle, &KeyEdges::press(KeyId::J)), LaneLight::Idle);
        assert_eq!(illuminate_lane(lane, LaneLight::Active, &KeyEdges::release(KeyId::J)), LaneLight::Active);
    }
}

#[test]
fn press_wins_over_release_in_one_tick() {
    let both = KeyEdge { just_pressed: true, just_released: true };
    let edges = KeyEdges { d: both, f: QUIET, j: QUIET, k: QUIET };
    assert_eq!(illuminate_lane(0, LaneLight::Idle, &edges), LaneLight::Active);
}

#[test]
fn edges_read_from_an_untouched_keyboard() {
    let input: ButtonInput<KeyCode> = ButtonInput::default();
    assert_eq!(read_edges(&input), KeyEdges::none());
}

#[test]
fn edges_read_after_a_press() {
    let mut input: ButtonInput<KeyCode> = ButtonInput::default();
    input.press(KeyCode::KeyJ);
    input.press(KeyCode::KeyA);
    assert_eq!(read_edges(&input), KeyEdges::press(KeyId::J));
    assert_eq!(read_edge(&input, KeyId::J), DOWN);
    assert_eq!(read_edge(&input, KeyId::K), QUIET);
}

#[test]
fn edges_read_after_a_release() {
    let mut input: ButtonInput<KeyCode> = ButtonInput::default();
    input.press(KeyCode::KeyD);
    input.press(KeyCode::KeyK);
    input.clear();
    assert_eq!(read_edges(&input), KeyEdges::none());
    input.release(KeyCode::KeyD);
    assert_eq!(read_edges(&input), KeyEdges::release(KeyId::D));
    input.clear();
    input.release(KeyCode::KeyK);
    input.press(KeyCode::KeyF);
    assert_eq!(read_edges(&input), KeyEdges { d: QUIET, f: DOWN, j: QUIET, k: UP });
}

#[test]
fn each_bound_key_is_read_from_its_own_code() {
    let codes = [KeyCode::KeyD, KeyCode::KeyF, KeyCode::KeyJ, KeyCode::KeyK];
    let keys = [KeyId::D, KeyId::F, KeyId::J, KeyId::K];
    for (code, key) in codes.iter().zip(keys.iter()) {
        let mut input: ButtonInput<KeyCode> = ButtonInput::default();
        input.press(*code);
        assert_eq!(read_edges(&input), KeyEdges::press(*key));
        input.clear();
        input.release(*code);
        assert_eq!(read_edges(&input), KeyEdges::release(*key));
    }
}
