//! The key-state tracker: press, release and repeat over the set of held keys.
//!
//! Hardware may report a press for a key that is already down. The tracker
//! turns such a press into a repeat, so that the remapping stage sees one press
//! per physical press.

use crate::event::{KeyCode, KeyEvent, KeyValue};
use crate::key_set::PressedKeys;
use vstd::prelude::*;

verus! {

/// The event that leaves the tracker when `event` enters it while `pressed`
/// are the keys held: a press of a held key becomes a repeat, everything else
/// passes unchanged.
pub open spec fn resolved(pressed: Set<KeyCode>, event: KeyEvent) -> KeyEvent {
    if event.value is Press && pressed.contains(event.code) {
        KeyEvent { code: event.code, value: KeyValue::Repeat }
    } else {
        event
    }
}

/// The keys held once `event` has passed the tracker: a release takes its code
/// out, a press puts it in, a repeat changes nothing.
pub open spec fn pressed_after(pressed: Set<KeyCode>, event: KeyEvent) -> Set<KeyCode> {
    match event.value {
        KeyValue::Release => pressed.remove(event.code),
        KeyValue::Press => pressed.insert(event.code),
        KeyValue::Repeat => pressed,
    }
}

/// The keys held once every event of `events` has passed the tracker in order.
pub open spec fn pressed_after_all(pressed: Set<KeyCode>, events: Seq<KeyEvent>) -> Set<KeyCode>
    decreases events.len(),
{
    if events.len() == 0 {
        pressed
    } else {
        pressed_after(pressed_after_all(pressed, events.drop_last()), events.last())
    }
}

/// The event that leaves the tracker for `events[at]` when the events before it
/// have passed in order, starting from `pressed`.
pub open spec fn resolved_at(pressed: Set<KeyCode>, events: Seq<KeyEvent>, at: int) -> KeyEvent {
    resolved(pressed_after_all(pressed, events.take(at)), events[at])
}

/// No event of `events` releases `code`.
pub open spec fn never_released(events: Seq<KeyEvent>, code: KeyCode) -> bool {
    forall|k: int|
        0 <= k < events.len() ==> !(events[k].code == code && events[k].value is Release)
}

/// `events[at]` presses `code`, and no later event releases it.
pub open spec fn pressed_at_and_kept(events: Seq<KeyEvent>, code: KeyCode, at: int) -> bool {
    &&& 0 <= at < events.len()
    &&& events[at].code == code
    &&& events[at].value is Press
    &&& forall|k: int|
        at < k < events.len() ==> !(events[k].code == code && events[k].value is Release)
}

/// Some event of `events` presses `code`, and no later one releases it.
pub open spec fn pressed_since(events: Seq<KeyEvent>, code: KeyCode) -> bool {
    exists|at: int| pressed_at_and_kept(events, code, at)
}

/// Passes one event through the tracker, updating the held keys.
///
/// Checking and changing the held keys is one step: the exclusive borrow keeps
/// every other user of the set out for its duration.
pub fn resolve(pressed: &mut PressedKeys, event: KeyEvent) -> (out: KeyEvent)
    ensures
        out == resolved(old(pressed)@, event),
        final(pressed)@ == pressed_after(old(pressed)@, event),
        event.value is Release ==> !final(pressed)@.contains(event.code),
{
    match event.value {
        KeyValue::Release => {
            pressed.remove(event.code);
            event
        },
        KeyValue::Press => {
            if pressed.contains(event.code) {
                assert(pressed@ =~= pressed@.insert(event.code));
                KeyEvent { code: event.code, value: KeyValue::Repeat }
            } else {
                pressed.insert(event.code);
                event
            }
        },
        KeyValue::Repeat => event,
    }
}

/// A release leaves its code out of the held keys whatever was held before,
/// passes the tracker unchanged, and a second release of the same code changes
/// nothing more.
pub proof fn law_release_clears(pressed: Set<KeyCode>, event: KeyEvent)
    requires
        event.value is Release,
    ensures
        !pressed_after(pressed, event).contains(event.code),
        resolved(pressed, event) == event,
        pressed_after(pressed_after(pressed, event), event) == pressed_after(pressed, event),
{
    assert(pressed.remove(event.code).remove(event.code) =~= pressed.remove(event.code));
}

/// A release touches no key but its own.
pub proof fn law_release_keeps_others(pressed: Set<KeyCode>, event: KeyEvent, other: KeyCode)
    requires
        event.value is Release,
        other != event.code,
    ensures
        pressed_after(pressed, event).contains(other) == pressed.contains(other),
{
}

/// A key stays held for as long as no release of it passes the tracker.
pub proof fn law_held_until_release(pressed: Set<KeyCode>, events: Seq<KeyEvent>, code: KeyCode)
    requires
        pressed.contains(code),
        forall|k: int|
            0 <= k < events.len() ==> !(events[k].code == code && events[k].value is Release),
    ensures
        pressed_after_all(pressed, events).contains(code),
    decreases events.len(),
{
    if events.len() > 0 {
        let before = events.drop_last();
        assert forall|k: int| 0 <= k < before.len() implies !(before[k].code == code
            && before[k].value is Release) by {
            assert(before[k] == events[k]);
        }
        law_held_until_release(pressed, before, code);
        assert(events.last() == events[events.len() - 1]);
    }
}

/// Of two presses of one key with no release of it between them, the second
/// leaves the tracker as a repeat.
pub proof fn law_second_press_repeats(
    pressed: Set<KeyCode>,
    events: Seq<KeyEvent>,
    first: int,
    second: int,
)
    requires
        0 <= first < second < events.len(),
        events[first].value is Press,
        events[second].value is Press,
        events[second].code == events[first].code,
        forall|k: int|
            first < k < second ==> !(events[k].code == events[first].code
                && events[k].value is Release),
    ensures
        resolved_at(pressed, events, second) == (KeyEvent {
            code: events[first].code,
            value: KeyValue::Repeat,
        }),
{
    let code = events[first].code;
    let upto = events.take(second);
    let head = upto.take(first + 1);
    let tail = upto.skip(first + 1);
    lemma_pressed_after_all_split(pressed, upto, first + 1);
    let held = pressed_after_all(pressed, head);
    assert(head.drop_last() =~= events.take(first));
    assert(head.last() == events[first]);
    assert(held.contains(code));
    assert forall|k: int| 0 <= k < tail.len() implies !(tail[k].code == code
        && tail[k].value is Release) by {
        assert(tail[k] == events[first + 1 + k]);
    }
    law_held_until_release(held, tail, code);
}

/// A key is held after a run of events exactly if it was pressed in the run
/// and not released later, or was held before and never released in the run.
pub proof fn law_pressed_means_unreleased(
    pressed: Set<KeyCode>,
    events: Seq<KeyEvent>,
    code: KeyCode,
)
    ensures
        pressed_after_all(pressed, events).contains(code) <==> (pressed_since(events, code) || (
        pressed.contains(code) && never_released(events, code))),
    decreases events.len(),
{
    if events.len() == 0 {
        assert(never_released(events, code));
        assert(!pressed_since(events, code));
    } else {
        let before = events.drop_last();
        let last = events.last();
        let n = before.len() as int;
        law_pressed_means_unreleased(pressed, before, code);
        assert(events[n] == last);
        assert forall|k: int| 0 <= k < n implies before[k] == events[k] by {}
        if last.code == code && last.value is Release {
            assert(!never_released(events, code));
            assert(!pressed_since(events, code)) by {
                if pressed_since(events, code) {
                    let i = choose|i: int| pressed_at_and_kept(events, code, i);
                    assert(!(events[n].code == code && events[n].value is Release));
                }
            }
        } else if last.code == code && last.value is Press {
            assert(pressed_at_and_kept(events, code, n));
        } else {
            assert(never_released(events, code) == never_released(before, code)) by {
                if never_released(before, code) {
                    assert forall|k: int| 0 <= k < events.len() implies !(events[k].code == code
                        && events[k].value is Release) by {
                        if k < n {
                            assert(before[k] == events[k]);
                        }
                    }
                }
                if never_released(events, code) {
                    assert forall|k: int| 0 <= k < before.len() implies !(before[k].code == code
                        && before[k].value is Release) by {
                        assert(before[k] == events[k]);
                    }
                }
            }
            assert(pressed_since(events, code) == pressed_since(before, code)) by {
                if pressed_since(before, code) {
                    let i = choose|i: int| pressed_at_and_kept(before, code, i);
                    assert(events[i] == before[i]);
                    assert forall|k: int| i < k < events.len() implies !(events[k].code == code
                        && events[k].value is Release) by {
                        if k < n {
                            assert(before[k] == events[k]);
                        }
                    }
                    assert(pressed_at_and_kept(events, code, i));
                }
                if pressed_since(events, code) {
                    let i = choose|i: int| pressed_at_and_kept(events, code, i);
                    assert(i < n);
                    assert(events[i] == before[i]);
                    assert forall|k: int| i < k < before.len() implies !(before[k].code == code
                        && before[k].value is Release) by {
                        assert(before[k] == events[k]);
                    }
                    assert(pressed_at_and_kept(before, code, i));
                }
            }
        }
    }
}

/// Passing a run of events is passing its first `mid` events, then the rest.
proof fn lemma_pressed_after_all_split(pressed: Set<KeyCode>, events: Seq<KeyEvent>, mid: int)
    requires
        0 <= mid <= events.len(),
    ensures
        pressed_after_all(pressed, events) == pressed_after_all(
            pressed_after_all(pressed, events.take(mid)),
            events.skip(mid),
        ),
    decreases events.len() - mid,
{
    let tail = events.skip(mid);
    if mid == events.len() {
        assert(events.take(mid) =~= events);
    } else {
        let before = events.drop_last();
        lemma_pressed_after_all_split(pressed, before, mid);
        assert(before.take(mid) =~= events.take(mid));
        assert(before.skip(mid) =~= tail.drop_last());
        assert(tail.last() == events.last());
    }
}

} // verus!
