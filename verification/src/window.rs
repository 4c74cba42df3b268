//! The window tracker: which span of time each poll asks for.

use vstd::prelude::*;

verus! {

/// A span of time `[from, to)`, in whole seconds since the Unix epoch.
#[derive(Debug, Clone, Copy, PartialEq, Eq, Structural)]
pub struct TimeWindow {
    pub from: u64,
    pub to: u64,
}

impl TimeWindow {
    /// A window does not end before it starts.
    pub open spec fn well_formed(self) -> bool {
        self.from <= self.to
    }
}

/// What the poll cycle carries from one iteration to the next.
#[derive(Debug, Clone, Copy, PartialEq, Eq, Structural)]
pub struct PollState {
    /// Where the last window ended; `None` until the first window is made.
    pub last_window_end: Option<u64>,
    /// How many iterations have begun.
    pub iteration_count: u64,
}

impl PollState {
    /// The state before the first iteration.
    pub open spec fn spec_new() -> PollState {
        PollState { last_window_end: None, iteration_count: 0 }
    }

    /// The window of an iteration that begins in this state when the clock
    /// reads `now`: it starts where the last one ended, or at `now` if there
    /// was none, and ends `interval` seconds after `now`.
    pub open spec fn spec_window(self, now: u64, interval: u64) -> TimeWindow
        recommends
            now + interval <= u64::MAX,
    {
        TimeWindow {
            from: match self.last_window_end {
                Some(end) => end,
                None => now,
            },
            to: (now + interval) as u64,
        }
    }

    /// The state after that iteration's window is made: the window's end is
    /// remembered, the rest is kept.
    pub open spec fn spec_advance(self, now: u64, interval: u64) -> PollState
        recommends
            now + interval <= u64::MAX,
    {
        PollState {
            last_window_end: Some((now + interval) as u64),
            iteration_count: self.iteration_count,
        }
    }

    /// The state before the first iteration.
    pub fn new() -> (state: PollState)
        ensures
            state == PollState::spec_new(),
    {
        PollState { last_window_end: None, iteration_count: 0 }
    }
}

/// Makes the window of the next iteration and the state that follows it.
///
/// `now` is the clock's reading, in seconds since the Unix epoch, taken
/// before the iteration waits.
pub fn next_window(state: PollState, now: u64, interval: u64) -> (next: (TimeWindow, PollState))
    requires
        now + interval <= u64::MAX,
    ensures
        next.0 == state.spec_window(now, interval),
        next.1 == state.spec_advance(now, interval),
        next.0.to == now + interval,
        next.1.last_window_end == Some(next.0.to),
        state.last_window_end is None ==> next.0.from == now,
        state.last_window_end matches Some(end) ==> next.0.from == end,
        next.0.well_formed() <==> (state.last_window_end matches Some(end) ==> end <= now
            + interval),
        interval > 0 && (state.last_window_end matches Some(end) ==> end <= now) ==> next.0.from
            < next.0.to,
{
    let from = match state.last_window_end {
        Some(end) => end,
        None => now,
    };
    let to = now + interval;
    (
        TimeWindow { from, to },
        PollState { last_window_end: Some(to), iteration_count: state.iteration_count },
    )
}

/// The states that a run of iterations begins in, one for each clock
/// reading and one more for the state it leaves behind.
pub open spec fn states_of_run(start: PollState, clock: Seq<u64>, interval: u64) -> Seq<PollState>
    decreases clock.len(),
{
    if clock.len() == 0 {
        seq![start]
    } else {
        states_of_run(start, clock.drop_last(), interval).push(
            states_of_run(start, clock.drop_last(), interval).last().spec_advance(
                clock.last(),
                interval,
            ),
        )
    }
}

/// The windows of a run of iterations: the `i`-th is made in the `i`-th
/// state at the `i`-th clock reading.
pub open spec fn windows_of_run(start: PollState, clock: Seq<u64>, interval: u64) -> Seq<
    TimeWindow,
> {
    Seq::new(
        clock.len(),
        |i: int| states_of_run(start, clock, interval)[i].spec_window(clock[i], interval),
    )
}

proof fn lemma_states_of_run(start: PollState, clock: Seq<u64>, interval: u64)
    ensures
        states_of_run(start, clock, interval).len() == clock.len() + 1,
        states_of_run(start, clock, interval)[0] == start,
        forall|i: int|
            0 <= i < clock.len() ==> #[trigger] states_of_run(start, clock, interval)[i + 1]
                == states_of_run(start, clock, interval)[i].spec_advance(clock[i], interval),
    decreases clock.len(),
{
    if clock.len() > 0 {
        let shorter = clock.drop_last();
        lemma_states_of_run(start, shorter, interval);
        let before = states_of_run(start, shorter, interval);
        let all = states_of_run(start, clock, interval);
        assert(all == before.push(before.last().spec_advance(clock.last(), interval)));
        assert forall|i: int| 0 <= i < clock.len() implies #[trigger] all[i + 1]
            == all[i].spec_advance(clock[i], interval) by {
            if i < shorter.len() {
                assert(before[i + 1] == before[i].spec_advance(shorter[i], interval));
                assert(shorter[i] == clock[i]);
                assert(all[i + 1] == before[i + 1]);
                assert(all[i] == before[i]);
            } else {
                assert(all[i] == before.last());
                assert(clock[i] == clock.last());
            }
        }
    }
}

/// Consecutive windows leave no gap and do not overlap: whatever the clock
/// reads, each window starts where the one before it ended; and with no
/// earlier window the first starts at the first clock reading.
pub proof fn lemma_windows_contiguous(start: PollState, clock: Seq<u64>, interval: u64)
    requires
        forall|i: int| 0 <= i < clock.len() ==> clock[i] + interval <= u64::MAX,
    ensures
        windows_of_run(start, clock, interval).len() == clock.len(),
        forall|i: int|
            0 <= i && i + 1 < clock.len() ==> (#[trigger] windows_of_run(
                start,
                clock,
                interval,
            )[i]).to == windows_of_run(start, clock, interval)[i + 1].from,
        forall|i: int|
            0 <= i < clock.len() ==> (#[trigger] windows_of_run(start, clock, interval)[i]).to
                == clock[i] + interval,
        clock.len() > 0 && start.last_window_end is None ==> windows_of_run(
            start,
            clock,
            interval,
        )[0].from == clock[0],
        clock.len() > 0 ==> states_of_run(start, clock, interval).last().last_window_end == Some(
            windows_of_run(start, clock, interval).last().to,
        ),
{
    lemma_states_of_run(start, clock, interval);
    let states = states_of_run(start, clock, interval);
    let windows = windows_of_run(start, clock, interval);
    assert forall|i: int| 0 <= i && i + 1 < clock.len() implies (#[trigger] windows[i]).to
        == windows[i + 1].from by {
        assert(states[i + 1] == states[i].spec_advance(clock[i], interval));
    }
    if clock.len() > 0 {
        let n = clock.len() - 1;
        assert(states[n + 1] == states[n].spec_advance(clock[n], interval));
    }
}

} // verus!
