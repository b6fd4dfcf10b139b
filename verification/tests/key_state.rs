use kanata_capture::event::{KeyCode, KeyEvent, KeyValue};
use kanata_capture::key_set::KeySet;
use kanata_capture::tracker::resolve;

const A: KeyCode = KeyCode(4);
const B: KeyCode = KeyCode(5);

fn press(code: KeyCode) -> KeyEvent {
    KeyEvent::new(code, KeyValue::Press)
}

fn release(code: KeyCode) -> KeyEvent {
    KeyEvent::new(code, KeyValue::Release)
}

fn repeat(code: KeyCode) -> KeyEvent {
    KeyEvent::new(code, KeyValue::Repeat)
}

#[test]
fn key_set_starts_empty() {
    let set = KeySet::new();
    assert!(!set.contains(A));
    assert!(!set.contains(KeyCode(0)));
    assert!(!set.contains(KeyCode(u16::MAX)));
}

#[test]
fn key_set_insert_reports_whether_the_code_was_new() {
    let mut set = KeySet::new();
    assert!(set.insert(A));
    assert!(set.contains(A));
    assert!(!set.insert(A));
    assert!(set.contains(A));
    assert!(!set.contains(B));
}

#[test]
fn key_set_remove_reports_whether_the_code_was_there() {
    let mut set = KeySet::new();
    set.insert(A);
    set.insert(B);
    assert!(set.remove(A));
    assert!(!set.contains(A));
    assert!(set.contains(B));
    assert!(!set.remove(A));
    assert!(set.contains(B));
}

#[test]
fn key_event_new_keeps_code_and_value() {
    let event = KeyEvent::new(A, KeyValue::Repeat);
    assert_eq!(event.code, A);
    assert_eq!(event.value, KeyValue::Repeat);
    assert_eq!(event, KeyEvent { code: KeyCode(4), value: KeyValue::Repeat });
}

#[test]
fn first_press_stays_a_press_and_holds_the_key() {
    let mut pressed = KeySet::new();
    assert_eq!(resolve(&mut pressed, press(A)), press(A));
    assert!(pressed.contains(A));
    assert!(!pressed.contains(B));
}

#[test]
fn second_press_without_release_becomes_a_repeat() {
    let mut pressed = KeySet::new();
    assert_eq!(resolve(&mut pressed, press(A)), press(A));
    assert_eq!(resolve(&mut pressed, press(A)), repeat(A));
    assert_eq!(resolve(&mut pressed, press(A)), repeat(A));
    assert!(pressed.contains(A));
}

#[test]
fn events_of_other_keys_do_not_end_the_hold() {
    let mut pressed = KeySet::new();
    assert_eq!(resolve(&mut pressed, press(A)), press(A));
    assert_eq!(resolve(&mut pressed, press(B)), press(B));
    assert_eq!(resolve(&mut pressed, release(B)), release(B));
    assert_eq!(resolve(&mut pressed, repeat(A)), repeat(A));
    assert_eq!(resolve(&mut pressed, press(A)), repeat(A));
}

#[test]
fn press_after_release_is_a_press_again() {
    let mut pressed = KeySet::new();
    resolve(&mut pressed, press(A));
    assert_eq!(resolve(&mut pressed, release(A)), release(A));
    assert!(!pressed.contains(A));
    assert_eq!(resolve(&mut pressed, press(A)), press(A));
    assert!(pressed.contains(A));
}

#[test]
fn release_clears_the_code_whatever_was_held() {
    let mut held = KeySet::new();
    held.insert(A);
    held.insert(B);
    assert_eq!(resolve(&mut held, release(A)), release(A));
    assert!(!held.contains(A));
    assert!(held.contains(B));

    let mut empty = KeySet::new();
    assert_eq!(resolve(&mut empty, release(A)), release(A));
    assert!(!empty.contains(A));
}

#[test]
fn release_twice_is_release_once() {
    let mut pressed = KeySet::new();
    pressed.insert(A);
    pressed.insert(B);
    resolve(&mut pressed, release(A));
    assert_eq!(resolve(&mut pressed, release(A)), release(A));
    assert!(!pressed.contains(A));
    assert!(pressed.contains(B));
}

#[test]
fn repeat_passes_and_changes_nothing() {
    let mut pressed = KeySet::new();
    assert_eq!(resolve(&mut pressed, repeat(A)), repeat(A));
    assert!(!pressed.contains(A));
    pressed.insert(A);
    assert_eq!(resolve(&mut pressed, repeat(A)), repeat(A));
    assert!(pressed.contains(A));
}
