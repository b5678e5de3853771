//! What holds of every run of the initializer, whatever its driver reports.
//!
//! A run is the sequence of events reported to a fresh initializer;
//! `state_after` gives the state it leads to.

use vstd::prelude::*;
use crate::initializer::{
    initial_state, next_state, state_after, Event, InitializerView, Phase,
};

verus! {

/// The events of `rounds` rounds in which every attempt fails at once and
/// every pause takes `pause_nanos` nanoseconds and no more: the clock of round
/// `i` reads `i * pause_nanos` when its pause is over.
pub open spec fn failing_rounds(pause_nanos: nat, rounds: nat) -> Seq<Event>
    decreases rounds,
{
    if rounds == 0 {
        Seq::<Event>::empty()
    } else {
        failing_rounds(pause_nanos, (rounds - 1) as nat).push(Event::ConnectFailed).push(
            Event::Slept { elapsed_nanos: (rounds * pause_nanos) as u128 },
        )
    }
}

/// One more event takes the run one state further.
pub proof fn lemma_state_after_push(window_nanos: nat, events: Seq<Event>, event: Event)
    ensures
        state_after(window_nanos, events.push(event)) == next_state(
            state_after(window_nanos, events),
            event,
        ),
{
    assert(events.push(event).drop_last() =~= events);
}

/// The run up to an event does not depend on what is reported later.
proof fn lemma_take_of_prefix(events: Seq<Event>, k: int)
    requires
        0 <= k < events.len(),
    ensures
        events.drop_last().take(k) == events.take(k),
{
}

/// The retry window never changes during a run.
pub proof fn law_window_is_kept(window_nanos: nat, events: Seq<Event>)
    ensures
        state_after(window_nanos, events).window_nanos == window_nanos,
    decreases events.len(),
{
    if events.len() > 0 {
        law_window_is_kept(window_nanos, events.drop_last());
    }
}

/// At least one attempt is made, for every retry window and in every run, and
/// the count of attempts never goes down.
pub proof fn law_at_least_one_attempt(window_nanos: nat, events: Seq<Event>)
    ensures
        state_after(window_nanos, events).attempts >= 1,
        events.len() > 0 ==> state_after(window_nanos, events).attempts >= state_after(
            window_nanos,
            events.drop_last(),
        ).attempts,
    decreases events.len(),
{
    if events.len() > 0 {
        law_at_least_one_attempt(window_nanos, events.drop_last());
    }
}

/// A final phase is final: no event leads out of `Succeeded` or
/// `FatallyFailed`.
pub proof fn law_settled_stays(s: InitializerView, event: Event)
    requires
        s.phase == Phase::Succeeded || s.phase == Phase::FatallyFailed,
    ensures
        next_state(s, event) == s,
{
}

/// When the pause after a failed attempt is over, the run ends in failure if
/// and only if the time that has passed has reached the window; else the next
/// attempt begins.
pub proof fn law_window_decides_after_pause(s: InitializerView, elapsed_nanos: u128)
    requires
        s.phase == Phase::Sleeping,
    ensures
        next_state(s, Event::Slept { elapsed_nanos }).phase == (if elapsed_nanos
            >= s.window_nanos {
            Phase::FatallyFailed
        } else {
            Phase::Attempting
        }),
{
}

/// A run is in its pause only after an attempt that failed.
pub proof fn law_pause_follows_failed_attempt(window_nanos: nat, events: Seq<Event>)
    requires
        state_after(window_nanos, events).phase == Phase::Sleeping,
    ensures
        exists|j: int|
            0 <= j < events.len() && events[j] == Event::ConnectFailed && (#[trigger] state_after(
                window_nanos,
                events.take(j),
            )).phase == Phase::Attempting,
    decreases events.len(),
{
    if events.len() > 0 {
        let before = events.drop_last();
        if state_after(window_nanos, before).phase == Phase::Sleeping {
            // the pause began earlier: the failed attempt is where it was
            law_pause_follows_failed_attempt(window_nanos, before);
            let j = choose|j: int|
                0 <= j < before.len() && before[j] == Event::ConnectFailed && (
                #[trigger] state_after(window_nanos, before.take(j))).phase == Phase::Attempting;
            lemma_take_of_prefix(events, j);
        }
        // else the pause began with the last event: that is the failed attempt
    }
}

/// A run ends in failure only after real waiting: some pause was reported
/// over at a time that had reached the retry window, and that pause followed
/// an attempt that failed. No run fails before the window has passed, and
/// none without an attempt.
pub proof fn law_failure_only_after_window(window_nanos: nat, events: Seq<Event>)
    requires
        state_after(window_nanos, events).phase == Phase::FatallyFailed,
    ensures
        exists|j: int, k: int|
            0 <= j < k < events.len() && events[j] == Event::ConnectFailed && (
            #[trigger] events[k] matches Event::Slept { elapsed_nanos } && elapsed_nanos
                >= window_nanos) && (#[trigger] state_after(window_nanos, events.take(j))).phase
                == Phase::Attempting && state_after(window_nanos, events.take(k)).phase
                == Phase::Sleeping,
    decreases events.len(),
{
    if events.len() > 0 {
        let before = events.drop_last();
        if state_after(window_nanos, before).phase == Phase::FatallyFailed {
            // the run had failed before: the two places are where they were
            law_failure_only_after_window(window_nanos, before);
            let (j, k) = choose|j: int, k: int|
                0 <= j < k < before.len() && before[j] == Event::ConnectFailed && (
                #[trigger] before[k] matches Event::Slept { elapsed_nanos } && elapsed_nanos
                    >= window_nanos) && (#[trigger] state_after(
                    window_nanos,
                    before.take(j),
                )).phase == Phase::Attempting && state_after(window_nanos, before.take(k)).phase
                    == Phase::Sleeping;
            lemma_take_of_prefix(events, j);
            lemma_take_of_prefix(events, k);
        } else {
            // the run failed with the last event: a pause that ended at or
            // after the window, begun by a failed attempt before it
            law_window_is_kept(window_nanos, before);
            law_pause_follows_failed_attempt(window_nanos, before);
            let j = choose|j: int|
                0 <= j < before.len() && before[j] == Event::ConnectFailed && (
                #[trigger] state_after(window_nanos, before.take(j))).phase == Phase::Attempting;
            lemma_take_of_prefix(events, j);
        }
    }
}

/// A run ends in success only through an attempt that opened the pool.
pub proof fn law_success_needs_connection(window_nanos: nat, events: Seq<Event>)
    requires
        state_after(window_nanos, events).phase == Phase::Succeeded,
    ensures
        exists|k: int|
            0 <= k < events.len() && events[k] == Event::Connected && (#[trigger] state_after(
                window_nanos,
                events.take(k),
            )).phase == Phase::Attempting,
    decreases events.len(),
{
    if events.len() > 0 {
        let before = events.drop_last();
        if state_after(window_nanos, before).phase == Phase::Succeeded {
            law_success_needs_connection(window_nanos, before);
            let k = choose|k: int|
                0 <= k < before.len() && before[k] == Event::Connected && (#[trigger] state_after(
                    window_nanos,
                    before.take(k),
                )).phase == Phase::Attempting;
            lemma_take_of_prefix(events, k);
        }
        // else the run succeeded with the last event
    }
}

/// Whether the clock of a run keeps pace with its pauses: whenever a pause
/// is reported over, as many pauses of `pause_nanos` have passed as attempts
/// were begun.
pub open spec fn clock_keeps_pace(window_nanos: nat, pause_nanos: nat, events: Seq<Event>) -> bool {
    forall|k: int|
        0 <= k < events.len() && state_after(window_nanos, events.take(k)).phase
            == Phase::Sleeping ==> (#[trigger] events[k] matches Event::Slept { elapsed_nanos }
            ==> elapsed_nanos >= state_after(window_nanos, events.take(k)).attempts * pause_nanos)
}

/// Retrying is bounded. Under a clock that keeps pace with the pauses, every
/// attempt but the first is begun inside the window, so there are no more
/// attempts than pauses fit into the window, and one.
pub proof fn law_attempts_are_bounded(window_nanos: nat, pause_nanos: nat, events: Seq<Event>)
    requires
        clock_keeps_pace(window_nanos, pause_nanos, events),
    ensures
        state_after(window_nanos, events).attempts == 1 || (state_after(
            window_nanos,
            events,
        ).attempts - 1) * pause_nanos < window_nanos,
    decreases events.len(),
{
    if events.len() > 0 {
        let before = events.drop_last();
        // the clock kept pace up to the last event, so the bound held there
        assert(clock_keeps_pace(window_nanos, pause_nanos, before)) by {
            assert forall|k: int|
                0 <= k < before.len() && state_after(window_nanos, before.take(k)).phase
                    == Phase::Sleeping implies (#[trigger] before[k] matches Event::Slept {
                    elapsed_nanos,
                } ==> elapsed_nanos >= state_after(window_nanos, before.take(k)).attempts
                    * pause_nanos) by {
                lemma_take_of_prefix(events, k);
            }
        }
        law_attempts_are_bounded(window_nanos, pause_nanos, before);
        law_window_is_kept(window_nanos, before);
    }
}

/// While the clock stays inside the window, rounds of failing attempts keep
/// the initializer trying: after `rounds` of them attempt `rounds + 1` is
/// under way.
pub proof fn lemma_failing_rounds_inside_window(window_nanos: nat, pause_nanos: nat, rounds: nat)
    requires
        rounds * pause_nanos < window_nanos,
        window_nanos <= u128::MAX,
        rounds < u64::MAX,
    ensures
        state_after(window_nanos, failing_rounds(pause_nanos, rounds)) == (InitializerView {
            phase: Phase::Attempting,
            attempts: rounds + 1,
            ..initial_state(window_nanos)
        }),
    decreases rounds,
{
    if rounds > 0 {
        let earlier = (rounds - 1) as nat;
        assert(earlier * pause_nanos <= rounds * pause_nanos) by (nonlinear_arith)
            requires
                earlier <= rounds,
        ;
        lemma_failing_rounds_inside_window(window_nanos, pause_nanos, earlier);
        let so_far = failing_rounds(pause_nanos, earlier);
        let slept = Event::Slept { elapsed_nanos: (rounds * pause_nanos) as u128 };
        lemma_state_after_push(window_nanos, so_far, Event::ConnectFailed);
        lemma_state_after_push(window_nanos, so_far.push(Event::ConnectFailed), slept);
    }
}

/// A driver whose attempts all fail at once and whose pauses take no longer
/// than asked sees the failure within one pause of the window, and not before
/// it. Let round `rounds` be the first whose pause ends at or after the
/// window. Then the run fails at the end of that round, after exactly `rounds`
/// attempts, and the clock then reads less than one pause past the window (or
/// one pause, when the first round already reaches it).
pub proof fn law_failure_within_one_pause(window_nanos: nat, pause_nanos: nat, rounds: nat)
    requires
        1 <= rounds < u64::MAX,
        rounds * pause_nanos >= window_nanos,
        rounds == 1 || (rounds - 1) * pause_nanos < window_nanos,
        rounds * pause_nanos <= u128::MAX,
    ensures
        state_after(window_nanos, failing_rounds(pause_nanos, rounds)) == (InitializerView {
            phase: Phase::FatallyFailed,
            attempts: rounds,
            ..initial_state(window_nanos)
        }),
        window_nanos <= rounds * pause_nanos <= window_nanos + pause_nanos,
{
    let earlier = (rounds - 1) as nat;
    let so_far = failing_rounds(pause_nanos, earlier);
    let slept = Event::Slept { elapsed_nanos: (rounds * pause_nanos) as u128 };
    assert(rounds * pause_nanos == earlier * pause_nanos + pause_nanos) by (nonlinear_arith)
        requires
            rounds == earlier + 1,
    ;
    if rounds > 1 {
        lemma_failing_rounds_inside_window(window_nanos, pause_nanos, earlier);
    }
    lemma_state_after_push(window_nanos, so_far, Event::ConnectFailed);
    lemma_state_after_push(window_nanos, so_far.push(Event::ConnectFailed), slept);
}

} // verus!
