use elevator_state_machine::machine::{step, Direction, Elevator, State};

fn mk_closed(direction: Option<Direction>, current_floor: Option<i8>, dest_floor: Option<i8>) -> State {
    State::Closed { moving: false, direction, current_floor, dest_floor, door_open: false }
}

fn mk_open(direction: Option<Direction>, current_floor: Option<i8>, dest_floor: Option<i8>) -> State {
    State::Open { moving: false, direction, current_floor, dest_floor, door_open: true }
}

fn mk_moving(direction: Option<Direction>, current_floor: Option<i8>, dest_floor: Option<i8>) -> State {
    State::Moving { moving: true, direction, current_floor, dest_floor, door_open: false }
}

#[test]
fn new_starts_closed_at_ground() {
    let e = Elevator::new();
    assert_eq!(e.state, mk_closed(None, Some(0), None));
}

#[test]
fn closed_call_with_destination_departs() {
    let s = mk_closed(None, Some(1), None);
    let next = step(s, Some(3), Some(Direction::Up));
    assert_eq!(next, mk_moving(Some(Direction::Up), Some(1), Some(3)));
}

#[test]
fn closed_call_alone_opens_for_boarding() {
    let s = mk_closed(None, Some(2), None);
    let next = step(s, None, Some(Direction::Down));
    assert_eq!(next, mk_open(Some(Direction::Down), Some(2), None));
}

#[test]
fn closed_empty_request_is_noop() {
    let s = mk_closed(None, Some(1), Some(3));
    assert_eq!(step(s, None, None), s);
}

#[test]
fn closed_destination_without_call_is_noop() {
    let s = mk_closed(None, Some(1), None);
    assert_eq!(step(s, Some(2), None), s);
}

#[test]
fn open_destination_choice_shuts_door() {
    let s = mk_open(Some(Direction::Up), Some(1), None);
    let next = step(s, Some(3), Some(Direction::Up));
    assert_eq!(next, mk_closed(Some(Direction::Up), Some(1), Some(3)));
}

#[test]
fn open_destination_carries_direction_from_request() {
    let s = mk_open(Some(Direction::Up), Some(1), None);
    let next = step(s, Some(0), None);
    assert_eq!(next, mk_closed(None, Some(1), Some(0)));
}

#[test]
fn open_without_destination_stays_open() {
    let s = mk_open(Some(Direction::Up), Some(0), None);
    assert_eq!(step(s, None, Some(Direction::Up)), s);
    assert_eq!(step(s, None, None), s);
}

#[test]
fn moving_up_advances_one_floor() {
    let s = mk_moving(Some(Direction::Up), Some(1), Some(3));
    let next = step(s, Some(3), Some(Direction::Up));
    assert_eq!(next, mk_moving(Some(Direction::Up), Some(2), Some(3)));
}

#[test]
fn moving_down_advances_one_floor() {
    let s = mk_moving(Some(Direction::Down), Some(3), Some(0));
    let next = step(s, Some(0), Some(Direction::Down));
    assert_eq!(next, mk_moving(Some(Direction::Down), Some(2), Some(0)));
}

#[test]
fn moving_direction_stays_latched() {
    let s = mk_moving(Some(Direction::Up), Some(0), Some(2));
    let next = step(s, Some(2), Some(Direction::Down));
    assert_eq!(next, mk_moving(Some(Direction::Up), Some(1), Some(2)));
}

#[test]
fn moving_at_destination_opens() {
    let s = mk_moving(Some(Direction::Up), Some(2), Some(2));
    let next = step(s, Some(2), Some(Direction::Up));
    assert_eq!(next, mk_open(Some(Direction::Up), Some(2), Some(2)));
}

#[test]
fn arrived_holds_only_at_destination_with_door_open() {
    let mut e = Elevator::new();
    assert!(!e.arrived());
    e.state = mk_open(Some(Direction::Up), Some(1), Some(3));
    assert!(!e.arrived());
    e.state = mk_moving(Some(Direction::Up), Some(3), Some(3));
    assert!(!e.arrived());
    e.state = mk_open(Some(Direction::Up), Some(3), Some(3));
    assert!(e.arrived());
}

#[test]
fn transition_applies_one_step() {
    let mut e = Elevator::new();
    e.transition(Some(3), Some(Direction::Up));
    assert_eq!(e.state, mk_moving(Some(Direction::Up), Some(0), Some(3)));
}
