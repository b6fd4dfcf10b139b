//! What holds of whole runs of the capture loop.
//!
//! A run is a sequence of turns. In each turn the caller reports one outcome
//! and the loop takes one step; the mapped keys are whatever the configuration
//! says at that moment. The statements here hold of every run, from every
//! standing, whatever the caller reports.

use crate::capture::suppressed;
use crate::error::LoopError;
use crate::event::{KeyCode, KeyEvent, KeyValue};
use crate::event_loop::{Captured, EventLoop, LoopState, Outcome, RecoveryPhase, Request};
use vstd::prelude::*;

verus! {

/// One turn: the outcome the caller reports, and the keys that are mapped when
/// it does.
pub struct Turn {
    pub outcome: Outcome,
    pub mapped: Set<KeyCode>,
}

/// The loop and the held keys between two turns.
pub struct Standing {
    pub event_loop: EventLoop,
    pub pressed: Set<KeyCode>,
}

/// The standing after one turn.
pub open spec fn turn(from: Standing, turn: Turn) -> Standing {
    Standing {
        event_loop: from.event_loop.next(turn.outcome, turn.mapped, from.pressed),
        pressed: from.event_loop.next_pressed(turn.outcome, turn.mapped, from.pressed),
    }
}

/// The standing after all of `turns`, in order.
pub open spec fn run(start: Standing, turns: Seq<Turn>) -> Standing
    decreases turns.len(),
{
    if turns.len() == 0 {
        start
    } else {
        turn(run(start, turns.drop_last()), turns.last())
    }
}

/// The standing in which turn `at` is taken: the one after the first `at`
/// turns.
pub open spec fn before(start: Standing, turns: Seq<Turn>, at: int) -> Standing {
    run(start, turns.take(at))
}

/// The state in which turn `at` is taken.
pub open spec fn state_at(start: Standing, turns: Seq<Turn>, at: int) -> LoopState {
    before(start, turns, at).event_loop.state
}

/// The request that turn `at` answers: the one pending after the first `at`
/// turns.
pub open spec fn request_at(start: Standing, turns: Seq<Turn>, at: int) -> Request {
    before(start, turns, at).event_loop.request()
}

/// The keys held when turn `at` is taken.
pub open spec fn pressed_at(start: Standing, turns: Seq<Turn>, at: int) -> Set<KeyCode> {
    before(start, turns, at).pressed
}

/// Turn `at` delivers `captured` to a loop that waits for a read, and turn
/// `at + 1` reports the process-exit check that follows.
pub open spec fn captured_at(
    start: Standing,
    turns: Seq<Turn>,
    at: int,
    captured: Captured,
) -> bool {
    &&& 0 <= at
    &&& at + 1 < turns.len()
    &&& state_at(start, turns, at) is Reading
    &&& turns[at].outcome == Outcome::Read(Ok(captured))
    &&& turns[at + 1].outcome is ExitChecked
}

/// Turn `at` routes `event` through the key-state tracker: the process-exit
/// check on it has run, its key is mapped, and it is not a suppressed repeat.
pub open spec fn tracked_at(start: Standing, turns: Seq<Turn>, at: int, event: KeyEvent) -> bool {
    &&& 0 <= at < turns.len()
    &&& state_at(start, turns, at) matches LoopState::Checking { raw, key }
    &&& key == event
    &&& turns[at].outcome is ExitChecked
    &&& turns[at].mapped.contains(event.code)
    &&& !suppressed(start.event_loop.allow_hardware_repeat, event)
}

/// Turn `at` begins a recovery: the loop was capturing, and the outcome sends
/// it to release the devices.
pub open spec fn recovery_began_at(start: Standing, turns: Seq<Turn>, at: int) -> bool {
    &&& 0 <= at < turns.len()
    &&& state_at(start, turns, at).phase() == Some(RecoveryPhase::Capturing)
    &&& state_at(start, turns, at + 1) is Releasing
}

/// Turn `at` is the probe before a read, and it finds the output sink not
/// ready.
pub open spec fn sink_lost_at(start: Standing, turns: Seq<Turn>, at: int) -> bool {
    &&& 0 <= at < turns.len()
    &&& state_at(start, turns, at) is Probing
    &&& turns[at].outcome == Outcome::Probed(false)
}

/// Turn `at` reports that the devices were released, as the loop had asked.
pub open spec fn released_at(start: Standing, turns: Seq<Turn>, at: int) -> bool {
    &&& 0 <= at < turns.len()
    &&& state_at(start, turns, at) is Releasing
    &&& turns[at].outcome is Released
}

/// Turn `at` is a probe of the waiting loop, and it finds the output sink
/// ready.
pub open spec fn sink_found_at(start: Standing, turns: Seq<Turn>, at: int) -> bool {
    &&& 0 <= at < turns.len()
    &&& state_at(start, turns, at) is Polling
    &&& turns[at].outcome == Outcome::Probed(true)
}

/// Turn `at` reports that the sleep the loop had asked for to let the output
/// sink settle, of the length that the timing gives, is over.
pub open spec fn settled_at(start: Standing, turns: Seq<Turn>, at: int) -> bool {
    &&& 0 <= at < turns.len()
    &&& state_at(start, turns, at) is Settling
    &&& request_at(start, turns, at) == Request::Sleep {
        millis: start.event_loop.timing.settle_delay_ms,
    }
    &&& turns[at].outcome is Slept
}

/// Turn `at` reports that the devices were seized again.
pub open spec fn regrabbed_at(start: Standing, turns: Seq<Turn>, at: int) -> bool {
    &&& 0 <= at < turns.len()
    &&& state_at(start, turns, at) is Regrabbing
    &&& turns[at].outcome == Outcome::Regrabbed(true)
}

/// Between turn `began` and turn `upto` the devices were released, then the
/// output sink was found ready, then the settle delay passed, then the devices
/// were seized again.
pub open spec fn recovered_between(
    start: Standing,
    turns: Seq<Turn>,
    began: int,
    upto: int,
) -> bool {
    exists|released: int, found: int, settled: int, regrabbed: int|
        began < released < found < settled < regrabbed < upto && #[trigger] released_at(
            start,
            turns,
            released,
        ) && #[trigger] sink_found_at(start, turns, found) && #[trigger] settled_at(
            start,
            turns,
            settled,
        ) && #[trigger] regrabbed_at(start, turns, regrabbed)
}

/// Taking turn `at` leads from the standing before it to the standing before
/// the next.
pub proof fn lemma_before_next(start: Standing, turns: Seq<Turn>, at: int)
    requires
        0 <= at < turns.len(),
    ensures
        before(start, turns, at + 1) == turn(before(start, turns, at), turns[at]),
{
    let upto = turns.take(at + 1);
    assert(upto.drop_last() =~= turns.take(at));
    assert(upto.last() == turns[at]);
}

/// The settings of the loop never change.
pub proof fn law_settings_are_kept(start: Standing, turns: Seq<Turn>)
    ensures
        run(start, turns).event_loop.allow_hardware_repeat
            == start.event_loop.allow_hardware_repeat,
        run(start, turns).event_loop.timing == start.event_loop.timing,
    decreases turns.len(),
{
    if turns.len() > 0 {
        law_settings_are_kept(start, turns.drop_last());
    }
}

/// An event that the device layer did not recognize is written to the output
/// sink as it was captured, and the held keys stay as they are.
pub proof fn law_unrecognized_event_is_written_raw(
    start: Standing,
    turns: Seq<Turn>,
    at: int,
    captured: Captured,
)
    requires
        0 <= at < turns.len(),
        state_at(start, turns, at) is Reading,
        turns[at].outcome == Outcome::Read(Ok(captured)),
        captured.key is None,
    ensures
        request_at(start, turns, at + 1) == Request::Write(captured.raw),
        pressed_at(start, turns, at + 1) == pressed_at(start, turns, at),
{
    lemma_before_next(start, turns, at);
}

/// The process-exit check is asked for every recognized event, mapped or not,
/// before anything is done with it.
pub proof fn law_exit_check_comes_first(
    start: Standing,
    turns: Seq<Turn>,
    at: int,
    captured: Captured,
    key: KeyEvent,
)
    requires
        0 <= at < turns.len(),
        state_at(start, turns, at) is Reading,
        turns[at].outcome == Outcome::Read(Ok(captured)),
        captured.key == Some(key),
    ensures
        request_at(start, turns, at + 1) == Request::CheckExit(key),
        pressed_at(start, turns, at + 1) == pressed_at(start, turns, at),
{
    lemma_before_next(start, turns, at);
}

/// A recognized event whose key is not mapped is written to the output sink as
/// it was captured: it is not sent downstream, and the held keys stay as they
/// are. A suppressed repeat is the exception: it is dropped before the mapped
/// keys are looked at.
pub proof fn law_unmapped_key_is_written_raw(
    start: Standing,
    turns: Seq<Turn>,
    at: int,
    captured: Captured,
    key: KeyEvent,
)
    requires
        captured_at(start, turns, at, captured),
        captured.key == Some(key),
        !turns[at + 1].mapped.contains(key.code),
        !suppressed(start.event_loop.allow_hardware_repeat, key),
    ensures
        request_at(start, turns, at + 2) == Request::Write(captured.raw),
        pressed_at(start, turns, at + 2) == pressed_at(start, turns, at),
{
    lemma_before_next(start, turns, at);
    lemma_before_next(start, turns, at + 1);
    law_settings_are_kept(start, turns.take(at + 1));
}

/// While hardware repeats are not forwarded, a repeat is neither sent
/// downstream nor written to the output sink: the loop goes on to its next
/// probe, and the held keys stay as they are.
pub proof fn law_suppressed_repeat_goes_nowhere(
    start: Standing,
    turns: Seq<Turn>,
    at: int,
    captured: Captured,
    key: KeyEvent,
)
    requires
        captured_at(start, turns, at, captured),
        captured.key == Some(key),
        key.value is Repeat,
        !start.event_loop.allow_hardware_repeat,
    ensures
        request_at(start, turns, at + 2) == Request::Probe,
        pressed_at(start, turns, at + 2) == pressed_at(start, turns, at),
{
    lemma_before_next(start, turns, at);
    lemma_before_next(start, turns, at + 1);
    law_settings_are_kept(start, turns.take(at + 1));
}

/// A held key stays held over every turn that does not route a release of it
/// through the tracker.
pub proof fn law_held_between_releases(
    start: Standing,
    turns: Seq<Turn>,
    from: int,
    upto: int,
    code: KeyCode,
)
    requires
        0 <= from <= upto <= turns.len(),
        pressed_at(start, turns, from).contains(code),
        forall|k: int|
            from <= k < upto ==> !tracked_at(
                start,
                turns,
                k,
                KeyEvent { code, value: KeyValue::Release },
            ),
    ensures
        pressed_at(start, turns, upto).contains(code),
    decreases upto - from,
{
    if from < upto {
        law_held_between_releases(start, turns, from, upto - 1, code);
        lemma_before_next(start, turns, upto - 1);
        law_settings_are_kept(start, turns.take(upto - 1));
        assert(!tracked_at(start, turns, upto - 1, KeyEvent { code, value: KeyValue::Release }));
    }
}

/// Of two presses of one mapped key with no release of it routed between
/// them, both go downstream, and the second goes as a repeat.
pub proof fn law_held_key_repeats_downstream(
    start: Standing,
    turns: Seq<Turn>,
    first: int,
    second: int,
    code: KeyCode,
)
    requires
        first < second,
        tracked_at(start, turns, first, KeyEvent { code, value: KeyValue::Press }),
        tracked_at(start, turns, second, KeyEvent { code, value: KeyValue::Press }),
        forall|k: int|
            first < k < second ==> !tracked_at(
                start,
                turns,
                k,
                KeyEvent { code, value: KeyValue::Release },
            ),
    ensures
        request_at(start, turns, first + 1) is Send,
        request_at(start, turns, second + 1) == Request::Send(
            KeyEvent { code, value: KeyValue::Repeat },
        ),
{
    lemma_before_next(start, turns, first);
    lemma_before_next(start, turns, second);
    law_settings_are_kept(start, turns.take(first));
    law_settings_are_kept(start, turns.take(second));
    law_held_between_releases(start, turns, first + 1, second, code);
}

/// A loop that has stopped stays stopped, with the same error, and changes the
/// held keys no more.
pub proof fn law_stopped_is_final(start: Standing, turns: Seq<Turn>, at: int, later: int)
    requires
        0 <= at <= later <= turns.len(),
        state_at(start, turns, at) is Stopped,
    ensures
        before(start, turns, later) == before(start, turns, at),
    decreases later - at,
{
    if at < later {
        law_stopped_is_final(start, turns, at, later - 1);
        lemma_before_next(start, turns, later - 1);
    }
}

/// When the devices cannot be seized again the loop ends with the error that
/// says so: it asks for no second regrab, and for nothing else, ever after.
pub proof fn law_failed_regrab_ends_the_loop(
    start: Standing,
    turns: Seq<Turn>,
    failed: int,
    later: int,
)
    requires
        0 <= failed < later <= turns.len(),
        state_at(start, turns, failed) is Regrabbing,
        turns[failed].outcome == Outcome::Regrabbed(false),
    ensures
        request_at(start, turns, later) == Request::Stop(LoopError::RegrabFailed),
        pressed_at(start, turns, later) == pressed_at(start, turns, failed),
{
    lemma_before_next(start, turns, failed);
    law_stopped_is_final(start, turns, failed + 1, later);
}

/// Once a recovery has begun, the loop asks for the release of the devices at
/// once, and for no read until the devices were released, the output sink was
/// found ready, the settle delay has passed and the devices were seized again,
/// in this order.
pub proof fn law_recovery_runs_the_full_cycle(
    start: Standing,
    turns: Seq<Turn>,
    began: int,
    later: int,
)
    requires
        recovery_began_at(start, turns, began),
        began < later <= turns.len(),
    ensures
        request_at(start, turns, began + 1) == Request::Release,
        request_at(start, turns, later) == Request::Read ==> recovered_between(
            start,
            turns,
            began,
            later,
        ),
{
    lemma_recovery_progress(start, turns, began, later);
}

/// Once the probe before a read finds the output sink not ready, the loop asks
/// for the release of the devices at once, and for no read until after the
/// release, a probe that found the sink ready, and the settle delay.
pub proof fn law_lost_sink_releases_before_reading(
    start: Standing,
    turns: Seq<Turn>,
    lost: int,
    later: int,
)
    requires
        sink_lost_at(start, turns, lost),
        lost < later <= turns.len(),
    ensures
        request_at(start, turns, lost + 1) == Request::Release,
        request_at(start, turns, later) == Request::Read ==> recovered_between(
            start,
            turns,
            lost,
            later,
        ),
{
    lemma_before_next(start, turns, lost);
    law_recovery_runs_the_full_cycle(start, turns, lost, later);
}

/// How far a recovery that began at turn `began` has come before turn `upto`.
spec fn recovery_progress(start: Standing, turns: Seq<Turn>, began: int, upto: int) -> bool {
    match state_at(start, turns, upto) {
        LoopState::Releasing | LoopState::Stopped { .. } => true,
        LoopState::Pausing | LoopState::Polling => exists|released: int|
            began < released < upto && #[trigger] released_at(start, turns, released),
        LoopState::Settling => exists|released: int, found: int|
            began < released < found < upto && #[trigger] released_at(start, turns, released)
                && #[trigger] sink_found_at(start, turns, found),
        LoopState::Regrabbing => exists|released: int, found: int, settled: int|
            began < released < found < settled < upto && #[trigger] released_at(
                start,
                turns,
                released,
            ) && #[trigger] sink_found_at(start, turns, found) && #[trigger] settled_at(
                start,
                turns,
                settled,
            ),
        _ => recovered_between(start, turns, began, upto),
    }
}

/// A recovery only ever moves forward through its cycle.
proof fn lemma_recovery_progress(start: Standing, turns: Seq<Turn>, began: int, upto: int)
    requires
        recovery_began_at(start, turns, began),
        began < upto <= turns.len(),
    ensures
        recovery_progress(start, turns, began, upto),
    decreases upto - began,
{
    if upto > began + 1 {
        let at = upto - 1;
        lemma_recovery_progress(start, turns, began, at);
        lemma_before_next(start, turns, at);
        let to = state_at(start, turns, upto);
        match state_at(start, turns, at) {
            LoopState::Stopped { .. } => {},
            LoopState::Releasing => {
                if to is Pausing {
                    assert(released_at(start, turns, at));
                }
            },
            LoopState::Pausing | LoopState::Polling => {
                let released = choose|released: int|
                    began < released < at && #[trigger] released_at(start, turns, released);
                assert(released_at(start, turns, released));
                if to is Settling {
                    assert(sink_found_at(start, turns, at));
                }
            },
            LoopState::Settling => {
                let (released, found) = choose|released: int, found: int|
                    began < released < found < at && #[trigger] released_at(
                        start,
                        turns,
                        released,
                    ) && #[trigger] sink_found_at(start, turns, found);
                assert(released_at(start, turns, released));
                assert(sink_found_at(start, turns, found));
                if to is Regrabbing {
                    law_settings_are_kept(start, turns.take(at));
                    assert(settled_at(start, turns, at));
                }
            },
            LoopState::Regrabbing => {
                let (released, found, settled) = choose|released: int, found: int, settled: int|
                    began < released < found < settled < at && #[trigger] released_at(
                        start,
                        turns,
                        released,
                    ) && #[trigger] sink_found_at(start, turns, found) && #[trigger] settled_at(
                        start,
                        turns,
                        settled,
                    );
                assert(released_at(start, turns, released));
                assert(sink_found_at(start, turns, found));
                assert(settled_at(start, turns, settled));
                if to is Probing {
                    assert(regrabbed_at(start, turns, at));
                }
            },
            _ => {
                let (released, found, settled, regrabbed) = choose|
                    released: int,
                    found: int,
                    settled: int,
                    regrabbed: int,
                |
                    began < released < found < settled < regrabbed < at && #[trigger] released_at(
                        start,
                        turns,
                        released,
                    ) && #[trigger] sink_found_at(start, turns, found) && #[trigger] settled_at(
                        start,
                        turns,
                        settled,
                    ) && #[trigger] regrabbed_at(start, turns, regrabbed);
                assert(released_at(start, turns, released));
                assert(sink_found_at(start, turns, found));
                assert(settled_at(start, turns, settled));
                assert(regrabbed_at(start, turns, regrabbed));
                if !(to is Releasing || to is Stopped) {
                    assert(recovered_between(start, turns, began, upto));
                }
            },
        }
    }
}

} // verus!
