use kanata_capture::capture::{
    classify_read_failure, classify_send_failure, classify_write_failure, route, FailureKind,
    Route, SendFailure, Signal,
};
use kanata_capture::error::LoopError;
use kanata_capture::event::{KeyCode, KeyEvent, KeyValue, RawEvent};
use kanata_capture::key_set::KeySet;

const A: KeyCode = KeyCode(4);
const F13: KeyCode = KeyCode(104);

fn raw_of(code: u32, value: u64) -> RawEvent {
    RawEvent { device: 0xfeed, page: 7, code, value }
}

fn mapped_a() -> KeySet {
    let mut mapped = KeySet::new();
    mapped.insert(A);
    mapped
}

#[test]
fn mapped_press_goes_downstream_and_is_held() {
    let mapped = mapped_a();
    let mut pressed = KeySet::new();
    let key = KeyEvent::new(A, KeyValue::Press);
    assert_eq!(route(false, &mapped, &mut pressed, raw_of(4, 1), key), Route::Downstream(key));
    assert!(pressed.contains(A));
}

#[test]
fn mapped_press_of_a_held_key_goes_downstream_as_repeat() {
    let mapped = mapped_a();
    let mut pressed = KeySet::new();
    pressed.insert(A);
    let key = KeyEvent::new(A, KeyValue::Press);
    assert_eq!(
        route(false, &mapped, &mut pressed, raw_of(4, 1), key),
        Route::Downstream(KeyEvent::new(A, KeyValue::Repeat))
    );
    assert!(pressed.contains(A));
}

#[test]
fn mapped_release_goes_downstream_and_ends_the_hold() {
    let mapped = mapped_a();
    let mut pressed = KeySet::new();
    pressed.insert(A);
    let key = KeyEvent::new(A, KeyValue::Release);
    assert_eq!(route(false, &mapped, &mut pressed, raw_of(4, 0), key), Route::Downstream(key));
    assert!(!pressed.contains(A));
}

#[test]
fn unmapped_key_passes_through_as_the_raw_event() {
    let mapped = mapped_a();
    let mut pressed = KeySet::new();
    let raw = RawEvent { device: 0xdead_beef_0000_0001, page: 7, code: 104, value: 1 };
    let key = KeyEvent::new(F13, KeyValue::Press);
    assert_eq!(route(false, &mapped, &mut pressed, raw, key), Route::Passthrough(raw));
    assert!(!pressed.contains(F13));
    let key = KeyEvent::new(F13, KeyValue::Release);
    let raw = RawEvent { device: 0xdead_beef_0000_0001, page: 7, code: 104, value: 0 };
    assert_eq!(route(true, &mapped, &mut pressed, raw, key), Route::Passthrough(raw));
}

#[test]
fn unmapped_release_leaves_a_held_code_alone() {
    let mapped = KeySet::new();
    let mut pressed = KeySet::new();
    pressed.insert(A);
    let key = KeyEvent::new(A, KeyValue::Release);
    let raw = raw_of(4, 0);
    assert_eq!(route(false, &mapped, &mut pressed, raw, key), Route::Passthrough(raw));
    assert!(pressed.contains(A));
}

#[test]
fn repeat_is_dropped_while_repeats_are_not_forwarded() {
    let mapped = mapped_a();
    let mut pressed = KeySet::new();
    let raw = raw_of(4, 2);
    assert_eq!(
        route(false, &mapped, &mut pressed, raw, KeyEvent::new(A, KeyValue::Repeat)),
        Route::Dropped
    );
    assert_eq!(
        route(false, &mapped, &mut pressed, raw_of(104, 2), KeyEvent::new(F13, KeyValue::Repeat)),
        Route::Dropped
    );
    assert!(!pressed.contains(A));
    assert!(!pressed.contains(F13));
}

#[test]
fn repeat_is_routed_like_any_event_while_repeats_are_forwarded() {
    let mapped = mapped_a();
    let mut pressed = KeySet::new();
    let key = KeyEvent::new(A, KeyValue::Repeat);
    assert_eq!(route(true, &mapped, &mut pressed, raw_of(4, 2), key), Route::Downstream(key));
    assert!(!pressed.contains(A));
    let raw = raw_of(104, 2);
    assert_eq!(
        route(true, &mapped, &mut pressed, raw, KeyEvent::new(F13, KeyValue::Repeat)),
        Route::Passthrough(raw)
    );
}

#[test]
fn only_end_of_stream_makes_a_failed_read_recoverable() {
    assert_eq!(classify_read_failure(FailureKind::UnexpectedEof), Signal::Recover);
    assert_eq!(
        classify_read_failure(FailureKind::NotConnected),
        Signal::Fatal(LoopError::ReadFailed)
    );
    assert_eq!(classify_read_failure(FailureKind::Other), Signal::Fatal(LoopError::ReadFailed));
}

#[test]
fn only_a_lost_connection_makes_a_failed_write_recoverable() {
    assert_eq!(classify_write_failure(FailureKind::NotConnected), Signal::Recover);
    assert_eq!(
        classify_write_failure(FailureKind::UnexpectedEof),
        Signal::Fatal(LoopError::WriteFailed)
    );
    assert_eq!(classify_write_failure(FailureKind::Other), Signal::Fatal(LoopError::WriteFailed));
}

#[test]
fn a_refused_send_is_named_by_its_cause() {
    assert_eq!(classify_send_failure(SendFailure::Full), LoopError::ChannelFull);
    assert_eq!(classify_send_failure(SendFailure::Closed), LoopError::ChannelClosed);
}

#[test]
fn every_error_has_its_own_description() {
    assert_eq!(LoopError::OpenFailed.describe(), "failed to open keyboard device(s)");
    assert_eq!(LoopError::ReadFailed.describe(), "failed read");
    assert_eq!(LoopError::WriteFailed.describe(), "failed write");
    assert_eq!(LoopError::ChannelFull.describe(), "sending on a full channel");
    assert_eq!(LoopError::ChannelClosed.describe(), "sending on a closed channel");
    assert_eq!(
        LoopError::RegrabFailed.describe(),
        "failed to re-grab keyboard devices after DriverKit recovery"
    );
}
