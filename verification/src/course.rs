//! Whole probes: what holds of a prober after any sequence of events.

use vstd::prelude::*;
use crate::buffer::{fitting, BUFFER_LIMIT};
use crate::marker::has_marker;
use crate::probe::{initial, rank, Action, EventView, Phase, ProbeState};
use crate::terminal::{
    flag_change,
    mode_change,
    BlockingFlags,
    ModeMasks,
    TerminalError,
    TerminalSettings,
};

verus! {

/// The state that `start` is in after `events` were reported one by one.
pub open spec fn run(start: ProbeState, events: Seq<EventView>) -> ProbeState
    decreases events.len(),
{
    if events.len() == 0 {
        start
    } else {
        run(start, events.drop_last()).advance(events.last())
    }
}

/// Longest time that the pending action of `state` may take, in
/// milliseconds, as far as the prober sets it: a wait takes no longer than its
/// timeout, a sleep as long as it says, and the rest is not waited for.
pub open spec fn cost(state: ProbeState) -> nat {
    match state.phase {
        Phase::Polling => state.timeout_ms() as nat,
        Phase::Pausing => 10,
        _ => 0,
    }
}

/// Longest time that the actions answered by `events` may have taken in all.
pub open spec fn waited(start: ProbeState, events: Seq<EventView>) -> nat
    decreases events.len(),
{
    if events.len() == 0 {
        0
    } else {
        waited(start, events.drop_last()) + cost(run(start, events.drop_last()))
    }
}

/// How many of `events` are reads that would have blocked.
pub open spec fn would_blocks(events: Seq<EventView>) -> nat
    decreases events.len(),
{
    if events.len() == 0 {
        0
    } else {
        would_blocks(events.drop_last()) + if events.last() is WouldBlock {
            1nat
        } else {
            0nat
        }
    }
}

/// Longest time that a probe in `state` may still wait if no read blocks.
pub open spec fn reserve(state: ProbeState) -> nat {
    let rest = 50 * (BUFFER_LIMIT - 1 - state.received.len());
    match state.phase {
        Phase::Polling => (state.timeout_ms() + rest) as nat,
        Phase::Reading => rest as nat,
        Phase::Pausing => (10 + state.timeout_ms() + rest) as nat,
        _ => if rank(state.phase) <= 4 {
            13200
        } else {
            0
        },
    }
}

/// Every event leaves a sound state sound.
pub proof fn lemma_advance_keeps_wf(state: ProbeState, event: EventView)
    requires
        state.wf(),
    ensures
        state.advance(event).wf(),
{
}

/// Every state of a probe is sound.
pub proof fn lemma_run_keeps_wf(masks: ModeMasks, events: Seq<EventView>)
    ensures
        run(initial(masks), events).wf(),
    decreases events.len(),
{
    if events.len() > 0 {
        lemma_run_keeps_wf(masks, events.drop_last());
        lemma_advance_keeps_wf(run(initial(masks), events.drop_last()), events.last());
    }
}

/// A probe never goes back: no event takes it to an earlier phase.  What was
/// received stays, more may follow it, and the records of changes and
/// failures are only added to.
pub proof fn lemma_advance_goes_forward(state: ProbeState, event: EventView)
    requires
        state.wf(),
    ensures
        rank(state.advance(event).phase) >= rank(state.phase),
        state.received.is_prefix_of(state.advance(event).received),
        state.failures.is_prefix_of(state.advance(event).failures),
        state.detected() ==> state.advance(event).detected(),
        state.settings is Some ==> state.advance(event).settings == state.settings,
        state.flags is Some ==> state.advance(event).flags == state.flags,
        state.advance(event).masks == state.masks,
{
    let next = state.advance(event);
    if state.detected() && next.received != state.received {
        assert(rank(state.phase) == 5);
    }
}

/// What was taken is put back, once and in the reverse order.  After the
/// terminal was made raw the probe ends only by way of putting its settings
/// back; after the descriptor was made non-blocking that is reached only by
/// way of putting its flags back.  Each of the two is asked for once: whatever
/// is reported of it, the probe moves on.
pub proof fn lemma_restoration_is_paired(state: ProbeState, event: EventView)
    requires
        state.wf(),
    ensures
        state.advance(event).phase == Phase::Done ==> state.phase == Phase::Done || state.phase
            == Phase::RestoringSettings || rank(state.phase) <= 1,
        state.advance(event).phase == Phase::RestoringSettings ==> state.phase
            == Phase::RestoringFlags || state.phase == Phase::ReadingFlags || state.phase
            == Phase::WritingFlags,
        state.phase == Phase::RestoringFlags ==> state.advance(event).phase
            == Phase::RestoringSettings,
        state.phase == Phase::RestoringSettings ==> state.advance(event).phase == Phase::Done,
        state.phase == Phase::Done ==> state.advance(event) == state,
        rank(state.phase) <= 1 && state.advance(event).phase == Phase::Done ==> state.advance(
            event,
        ).pending() == Action::Finish(false),
{
    assert(!has_marker(Seq::<u8>::empty()));
    if rank(state.phase) <= 1 {
        assert(state.received =~= Seq::<u8>::empty());
    }
}

/// Where the terminal's settings cannot be read, the probe is over at once
/// with the verdict that the protocol is not supported: whatever is reported
/// afterwards, nothing but finishing is ever asked for, so nothing is
/// written, read or put back.
pub proof fn lemma_without_settings_nothing_is_tried(masks: ModeMasks, events: Seq<EventView>)
    requires
        events.len() >= 1,
        !(events[0] is Settings),
    ensures
        run(initial(masks), events).phase == Phase::Done,
        run(initial(masks), events).pending() == Action::Finish(false),
        run(initial(masks), events).failures == seq![TerminalError::AttributeRead],
    decreases events.len(),
{
    let start = initial(masks);
    assert(!has_marker(Seq::<u8>::empty()));
    if events.len() == 1 {
        assert(events.drop_last().len() == 0);
        assert(run(start, events.drop_last()) == start);
        assert(run(start, events) == start.advance(events[0]));
        assert(start.advance(events[0]).failures =~= seq![TerminalError::AttributeRead]);
        assert(start.received =~= Seq::<u8>::empty());
    } else {
        assert(events.drop_last()[0] == events[0]);
        lemma_without_settings_nothing_is_tried(masks, events.drop_last());
    }
}

/// The settings that a probe asks to put back are those that were read at
/// its start, whatever was reported in between.
pub proof fn lemma_settings_are_put_back_as_read(
    masks: ModeMasks,
    events: Seq<EventView>,
    current: TerminalSettings,
)
    requires
        events.len() >= 1,
        events[0] == EventView::Settings(current),
    ensures
        run(initial(masks), events).settings == Some(mode_change(current, masks)),
        run(initial(masks), events).phase == Phase::RestoringSettings ==> run(
            initial(masks),
            events,
        ).pending() == Action::RestoreSettings(current),
    decreases events.len(),
{
    let start = initial(masks);
    if events.len() == 1 {
        assert(events.drop_last().len() == 0);
        assert(run(start, events.drop_last()) == start);
    } else {
        assert(events.drop_last()[0] == events[0]);
        lemma_settings_are_put_back_as_read(masks, events.drop_last(), current);
        lemma_run_keeps_wf(masks, events.drop_last());
        lemma_advance_goes_forward(run(start, events.drop_last()), events.last());
    }
}

/// The status flags that a probe asks to put back are those that were read
/// when it made the descriptor non-blocking, whatever was reported in
/// between.
pub proof fn lemma_flags_are_put_back_as_read(
    masks: ModeMasks,
    events: Seq<EventView>,
    current: i32,
)
    requires
        events.len() >= 3,
        events[0] is Settings,
        events[1] == EventView::Completed,
        events[2] == EventView::Flags(current),
    ensures
        run(initial(masks), events).flags == Some(flag_change(current)),
        run(initial(masks), events).phase == Phase::RestoringFlags ==> run(
            initial(masks),
            events,
        ).pending() == Action::RestoreFlags(BlockingFlags { bits: current }),
    decreases events.len(),
{
    let start = initial(masks);
    if events.len() == 3 {
        let two = events.drop_last();
        let one = two.drop_last();
        assert(one.drop_last().len() == 0);
        assert(run(start, one.drop_last()) == start);
        assert(one.last() == events[0]);
        assert(two.last() == events[1]);
        assert(run(start, one).phase == Phase::WritingSettings);
        assert(run(start, two).phase == Phase::ReadingFlags);
    } else {
        let shorter = events.drop_last();
        assert(shorter[0] == events[0]);
        assert(shorter[1] == events[1]);
        assert(shorter[2] == events[2]);
        lemma_flags_are_put_back_as_read(masks, shorter, current);
        lemma_run_keeps_wf(masks, shorter);
        lemma_advance_goes_forward(run(start, shorter), events.last());
    }
}

/// One event uses up no more of the reserve than the pending action may
/// take, but for a read that would have blocked: that may cost one more wait
/// and one sleep.
pub proof fn lemma_advance_spends_reserve(state: ProbeState, event: EventView)
    requires
        state.wf(),
    ensures
        cost(state) + reserve(state.advance(event)) <= reserve(state) + if event is WouldBlock {
            510nat
        } else {
            0nat
        },
{
}

/// A probe waits no longer than 13200 milliseconds in all, the first timeout
/// and one of the following for each further byte that fits, and 510
/// milliseconds more for each read that would have blocked, however the
/// terminal behaves.
pub proof fn lemma_waiting_is_bounded(masks: ModeMasks, events: Seq<EventView>)
    ensures
        waited(initial(masks), events) + reserve(run(initial(masks), events)) <= 13200 + 510
            * would_blocks(events),
        waited(initial(masks), events) <= 13200 + 510 * would_blocks(events),
    decreases events.len(),
{
    if events.len() > 0 {
        let shorter = events.drop_last();
        lemma_waiting_is_bounded(masks, shorter);
        lemma_run_keeps_wf(masks, shorter);
        lemma_advance_spends_reserve(run(initial(masks), shorter), events.last());
    }
}

/// Reading stops with the read that brings the marker in: whether the
/// marker came whole or its last bytes joined what earlier reads had left,
/// the next thing asked for is to read the rest away, and the verdict is
/// settled.
pub proof fn lemma_reading_stops_at_the_marker(state: ProbeState, chunk: Seq<u8>)
    requires
        state.wf(),
        state.phase == Phase::Reading,
        chunk.len() > 0,
        has_marker(state.received + fitting(chunk, BUFFER_LIMIT - state.received.len())),
    ensures
        state.advance(EventView::Data(chunk)).phase == Phase::Draining,
        state.advance(EventView::Data(chunk)).detected(),
        state.advance(EventView::Data(chunk)).pending() == (Action::Discard { limit: 256 }),
{
}

/// Reading stops when the buffer is full, marker or none, and as long as
/// neither has happened each read that brings bytes is followed by a short
/// wait for more.
pub proof fn lemma_reading_stops_when_full(state: ProbeState, chunk: Seq<u8>)
    requires
        state.wf(),
        state.phase == Phase::Reading,
        chunk.len() > 0,
        !has_marker(state.received + fitting(chunk, BUFFER_LIMIT - state.received.len())),
    ensures
        !state.advance(EventView::Data(chunk)).detected(),
        state.received.len() + chunk.len() >= BUFFER_LIMIT ==> state.advance(
            EventView::Data(chunk),
        ).phase == Phase::Draining,
        state.received.len() + chunk.len() < BUFFER_LIMIT ==> state.advance(
            EventView::Data(chunk),
        ).pending() == (Action::WaitReadable { timeout_ms: 50 }),
{
}

/// The verdict of a probe is that of the search: the protocol counts as
/// supported exactly if the marker stands in the bytes that were gathered.
pub proof fn lemma_verdict_is_the_search(masks: ModeMasks, events: Seq<EventView>)
    requires
        run(initial(masks), events).phase == Phase::Done,
    ensures
        run(initial(masks), events).pending() == Action::Finish(
            has_marker(run(initial(masks), events).received),
        ),
{
}

} // verus!
