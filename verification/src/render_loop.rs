//! The render loop as a state machine: the caller draws, waits for input and
//! reports what happened; the loop says what to do next.

use vstd::prelude::*;

verus! {

/// The time between two ticks of the render loop, in milliseconds.
pub const TICK_MS: u64 = 1000;

/// The key that ends the render loop.
pub const QUIT_KEY: char = 'q';

/// What the caller reports after a draw and the wait that follows it.
#[derive(Clone, Copy, Debug, PartialEq, Eq)]
pub enum UiEvent {
    /// A key that stands for a character was pressed.
    Char(char),
    /// Some other input arrived: another key, the mouse, a resize.
    OtherInput,
    /// The wait ended without input.
    Timeout,
    /// Drawing or reading input failed for good.
    Failed,
}

/// What the render loop asks of the caller.
#[derive(Clone, Copy, Debug, PartialEq, Eq, Structural)]
pub enum UiStep {
    /// Draw again and wait again.
    Redraw,
    /// Restore the terminal and leave the loop.
    Teardown,
    /// The loop has ended before; there is nothing left to do.
    Stopped,
}

/// Whether an event ends the loop: the quit key does, and a failure does.
pub open spec fn ends_loop(event: UiEvent) -> bool {
    event == UiEvent::Char(QUIT_KEY) || event is Failed
}

/// The answer to an event.
pub open spec fn step_for(running: bool, event: UiEvent) -> UiStep {
    if !running {
        UiStep::Stopped
    } else if ends_loop(event) {
        UiStep::Teardown
    } else {
        UiStep::Redraw
    }
}

/// The time that has passed since the last tick; none where the clock reads
/// less than it did then.
pub open spec fn elapsed_since(last_tick_ms: u64, now_ms: u64) -> u64 {
    if now_ms >= last_tick_ms {
        (now_ms - last_tick_ms) as u64
    } else {
        0
    }
}

/// What is left of the current tick: never negative, never more than a tick.
pub open spec fn left_of_tick(last_tick_ms: u64, now_ms: u64) -> u64 {
    if elapsed_since(last_tick_ms, now_ms) >= TICK_MS {
        0
    } else {
        (TICK_MS - elapsed_since(last_tick_ms, now_ms)) as u64
    }
}

/// The state of the render loop.
#[derive(Debug)]
pub struct RenderLoop {
    running: bool,
    last_tick_ms: u64,
}

impl RenderLoop {
    /// Whether the loop has not ended yet.
    pub closed spec fn running(&self) -> bool {
        self.running
    }

    /// The clock reading at the last tick.
    pub closed spec fn last_tick(&self) -> u64 {
        self.last_tick_ms
    }

    /// A loop that starts running at `now_ms`.
    pub fn start(now_ms: u64) -> (state: RenderLoop)
        ensures
            state.running(),
            state.last_tick() == now_ms,
    {
        RenderLoop { running: true, last_tick_ms: now_ms }
    }

    /// Whether the loop has not ended yet.
    pub fn is_running(&self) -> (running: bool)
        ensures
            running == self.running(),
    {
        self.running
    }

    /// How long the caller may wait for input after a draw: what is left of
    /// the current tick.
    pub fn wait_ms(&self, now_ms: u64) -> (wait: u64)
        ensures
            wait == left_of_tick(self.last_tick(), now_ms),
            wait <= TICK_MS,
    {
        let elapsed = if now_ms >= self.last_tick_ms {
            now_ms - self.last_tick_ms
        } else {
            0
        };
        if elapsed >= TICK_MS {
            0
        } else {
            TICK_MS - elapsed
        }
    }

    /// Takes in what happened after a draw. The quit key and a failure end a
    /// running loop; anything else lets it go on, and starts a new tick where
    /// the current one is over. A loop that has ended stays ended.
    pub fn handle(&mut self, event: UiEvent, now_ms: u64) -> (step: UiStep)
        ensures
            step == step_for(old(self).running(), event),
            final(self).running() == (old(self).running() && !ends_loop(event)),
            final(self).last_tick() == if step == UiStep::Redraw && elapsed_since(
                old(self).last_tick(),
                now_ms,
            ) >= TICK_MS {
                now_ms
            } else {
                old(self).last_tick()
            },
    {
        if !self.running {
            return UiStep::Stopped;
        }
        let ends = match event {
            UiEvent::Char(key) => key == QUIT_KEY,
            UiEvent::Failed => true,
            UiEvent::OtherInput => false,
            UiEvent::Timeout => false,
        };
        if ends {
            self.running = false;
            return UiStep::Teardown;
        }
        if now_ms >= self.last_tick_ms && now_ms - self.last_tick_ms >= TICK_MS {
            self.last_tick_ms = now_ms;
        }
        UiStep::Redraw
    }
}

/// Whether a loop that started running still runs after `events`.
pub open spec fn running_after(events: Seq<UiEvent>) -> bool
    decreases events.len(),
{
    if events.len() == 0 {
        true
    } else {
        running_after(events.drop_last()) && !ends_loop(events.last())
    }
}

/// The answer to event `i` of a run that started running.
pub open spec fn step_at(events: Seq<UiEvent>, i: int) -> UiStep {
    step_for(running_after(events.take(i)), events[i])
}

/// A loop runs for as long as no event was the quit key or a failure: no
/// other key, and no timeout, ends it.
pub proof fn law_only_quit_or_failure_ends(events: Seq<UiEvent>)
    ensures
        running_after(events) <==> forall|i: int|
            0 <= i < events.len() ==> !ends_loop(#[trigger] events[i]),
    decreases events.len(),
{
    if events.len() > 0 {
        let front = events.drop_last();
        law_only_quit_or_failure_ends(front);
        assert(forall|i: int| 0 <= i < front.len() ==> front[i] == events[i]);
        if running_after(events) {
            assert forall|i: int| 0 <= i < events.len() implies !ends_loop(
                #[trigger] events[i],
            ) by {
                if i < front.len() {
                    assert(front[i] == events[i]);
                }
            }
        }
    }
}

/// The terminal is restored on the tick of the first event that is the quit
/// key or a failure, and on no other tick: never without such an event, and
/// never a second time.
pub proof fn law_teardown_once_on_first_end(events: Seq<UiEvent>, i: int)
    requires
        0 <= i < events.len(),
    ensures
        step_at(events, i) == UiStep::Teardown <==> ends_loop(events[i]) && forall|k: int|
            0 <= k < i ==> !ends_loop(#[trigger] events[k]),
        forall|j: int|
            i < j < events.len() && step_at(events, i) == UiStep::Teardown ==> #[trigger] step_at(
                events,
                j,
            ) == UiStep::Stopped,
{
    law_only_quit_or_failure_ends(events.take(i));
    assert(forall|k: int| 0 <= k < i ==> events.take(i)[k] == events[k]);
    assert forall|j: int|
        i < j < events.len() && step_at(events, i) == UiStep::Teardown implies #[trigger] step_at(
        events,
        j,
    ) == UiStep::Stopped by {
        law_only_quit_or_failure_ends(events.take(j));
        assert(events.take(j)[i] == events[i]);
    }
}

} // verus!
