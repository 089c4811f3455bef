//! Trailing-edge debouncing of change events.
//!
//! Times are readings of one monotonic clock, in milliseconds. A change
//! event (re)starts a timer of one debounce window; a tick fires when the
//! timer runs out before the next event arrives. With a window of zero every
//! event fires its tick at once.

use vstd::prelude::*;

verus! {

/// What a `Debouncer` is, as plain values.
pub struct DebouncerView {
    /// The quiet period that must pass after an event before its tick fires.
    pub window: u64,
    /// The time of the event whose timer is running, if one is.
    pub armed_at: Option<u64>,
    /// Whether the debouncer has been stopped for good.
    pub stopped: bool,
}

impl DebouncerView {
    /// The running timer has run out by `now`.
    pub open spec fn due(self, now: u64) -> bool {
        self.armed_at matches Some(t) && t + self.window <= now
    }

    /// The tick that is owed at `now` because the running timer has run out,
    /// stamped with the moment at which it ran out.
    pub open spec fn owed(self, now: u64) -> Option<u64> {
        if !self.stopped && self.due(now) {
            Some((self.armed_at->0 + self.window) as u64)
        } else {
            None
        }
    }

    /// The tick that a change event at `now` lets out: the one its
    /// predecessor's timer owes, or its own where the window is zero.
    pub open spec fn released_by_change(self, now: u64) -> Option<u64> {
        if self.stopped {
            None
        } else if self.due(now) {
            self.owed(now)
        } else if self.window == 0 {
            Some(now)
        } else {
            None
        }
    }

    /// The state after a change event at `now`.
    pub open spec fn after_change(self, now: u64) -> DebouncerView {
        if self.stopped {
            self
        } else {
            DebouncerView {
                armed_at: if self.window == 0 {
                    None
                } else {
                    Some(now)
                },
                ..self
            }
        }
    }

    /// The state after the timer was looked at, at `now`.
    pub open spec fn after_timeout(self, now: u64) -> DebouncerView {
        if self.owed(now) is Some {
            DebouncerView { armed_at: None, ..self }
        } else {
            self
        }
    }

    /// How long after `now` the running timer runs out.
    pub open spec fn remaining(self, now: u64) -> Option<u64> {
        match self.armed_at {
            None => None,
            Some(t) => if now <= t {
                Some(self.window)
            } else if now - t >= self.window {
                Some(0)
            } else {
                Some((self.window - (now - t)) as u64)
            },
        }
    }
}

/// Event `i` of `events` is followed by a quiet period of a whole window:
/// the next event comes no sooner than a window later or, after the last
/// event, the clock can still show the moment a window later.
pub open spec fn quiet_after(events: Seq<u64>, window: u64, i: int) -> bool {
    window == 0 || events[i] + window <= if i + 1 == events.len() {
        u64::MAX
    } else {
        events[i + 1]
    }
}

/// The ticks that the first `k` events of `events` give rise to, in order:
/// one for each event that a quiet period follows, a window after it.
pub open spec fn ticks_upto(events: Seq<u64>, window: u64, k: int) -> Seq<int>
    decreases k,
{
    if k <= 0 {
        Seq::empty()
    } else if quiet_after(events, window, k - 1) {
        ticks_upto(events, window, k - 1).push(events[k - 1] + window)
    } else {
        ticks_upto(events, window, k - 1)
    }
}

/// The times at which ticks fire for a recorded run of change events that is
/// watched until the last timer has run out.
pub open spec fn tick_times(events: Seq<u64>, window: u64) -> Seq<int> {
    ticks_upto(events, window, events.len() as int)
}

/// Coalesces bursts of change events into single ticks.
pub struct Debouncer {
    window: u64,
    armed_at: Option<u64>,
    stopped: bool,
}

impl View for Debouncer {
    type V = DebouncerView;

    closed spec fn view(&self) -> DebouncerView {
        DebouncerView { window: self.window, armed_at: self.armed_at, stopped: self.stopped }
    }
}

impl Debouncer {
    /// A debouncer with no timer running.
    pub fn new(window: u64) -> (debouncer: Self)
        ensures
            debouncer@ == (DebouncerView { window, armed_at: None, stopped: false }),
    {
        Debouncer { window, armed_at: None, stopped: false }
    }

    /// The debounce window.
    pub fn window(&self) -> (window: u64)
        ensures
            window == self@.window,
    {
        self.window
    }

    /// Whether a timer is running.
    pub fn is_pending(&self) -> (pending: bool)
        ensures
            pending == (self@.armed_at is Some),
    {
        self.armed_at.is_some()
    }

    /// Whether the debouncer has been stopped.
    pub fn is_stopped(&self) -> (stopped: bool)
        ensures
            stopped == self@.stopped,
    {
        self.stopped
    }

    /// How long the caller may sleep from `now` until the running timer runs
    /// out; `None` when no timer is running.
    pub fn remaining(&self, now: u64) -> (left: Option<u64>)
        ensures
            left == self@.remaining(now),
    {
        match self.armed_at {
            None => None,
            Some(t) => {
                if now <= t {
                    Some(self.window)
                } else if now - t >= self.window {
                    Some(0)
                } else {
                    Some(self.window - (now - t))
                }
            },
        }
    }

    fn take_owed(&mut self, now: u64) -> (tick: Option<u64>)
        ensures
            tick == old(self)@.owed(now),
            final(self)@ == old(self)@.after_timeout(now),
    {
        if self.stopped {
            return None;
        }
        match self.armed_at {
            Some(t) => {
                if now >= t && now - t >= self.window {
                    self.armed_at = None;
                    Some(t + self.window)
                } else {
                    None
                }
            },
            None => None,
        }
    }

    /// Takes in a change event that arrived at `now` and (re)starts the
    /// timer. Returns the tick that the event lets out, with the time at
    /// which it fired: the tick of a timer that had already run out, or, with
    /// a window of zero, the event's own.
    pub fn on_change(&mut self, now: u64) -> (tick: Option<u64>)
        ensures
            tick == old(self)@.released_by_change(now),
            final(self)@ == old(self)@.after_change(now),
    {
        if self.stopped {
            return None;
        }
        let owed = self.take_owed(now);
        if self.window == 0 {
            self.armed_at = None;
            match owed {
                Some(t) => Some(t),
                None => Some(now),
            }
        } else {
            self.armed_at = Some(now);
            owed
        }
    }

    /// Looks at the timer at `now`. Returns the tick, with the time at which
    /// it fired, if the timer has run out, and clears the timer then.
    pub fn on_timeout(&mut self, now: u64) -> (tick: Option<u64>)
        ensures
            tick == old(self)@.owed(now),
            final(self)@ == old(self)@.after_timeout(now),
    {
        self.take_owed(now)
    }

    /// Stops the debouncer for good: the running timer is dropped and no
    /// later call lets a tick out.
    pub fn stop(&mut self)
        ensures
            final(self)@ == (DebouncerView { armed_at: None, stopped: true, ..old(self)@ }),
    {
        self.armed_at = None;
        self.stopped = true;
    }

    /// Debounces a recorded run of change events, given by their arrival
    /// times, and returns the times at which ticks fire. The run is watched
    /// until the timer of the last event has run out, which it does only
    /// at a time that the clock can show.
    pub fn run(events: &Vec<u64>, window: u64) -> (ticks: Vec<u64>)
        ensures
            ticks@.map_values(|t: u64| t as int) == tick_times(events@, window),
    {
        let mut debouncer = Debouncer::new(window);
        let mut ticks: Vec<u64> = Vec::new();
        let mut i: usize = 0;
        while i < events.len()
            invariant
                0 <= i <= events.len(),
                debouncer@.window == window,
                !debouncer@.stopped,
                window == 0 ==> debouncer@.armed_at is None,
                window > 0 && i == 0 ==> debouncer@.armed_at is None,
                window > 0 && i > 0 ==> debouncer@.armed_at == Some(events@[i - 1]),
                window == 0 ==> ticks@.map_values(|t: u64| t as int) == ticks_upto(
                    events@,
                    window,
                    i as int,
                ),
                window > 0 ==> ticks@.map_values(|t: u64| t as int) == ticks_upto(
                    events@,
                    window,
                    i - 1,
                ),
            decreases events.len() - i,
        {
            let ghost before = ticks@;
            let tick = debouncer.on_change(events[i]);
            match tick {
                Some(t) => {
                    ticks.push(t);
                    assert(ticks@.map_values(|t: u64| t as int) == before.map_values(
                        |t: u64| t as int,
                    ).push(t as int));
                },
                None => {},
            }
            i = i + 1;
        }
        if i > 0 && events[i - 1] <= u64::MAX - window {
            let ghost before = ticks@;
            let tick = debouncer.on_timeout(events[i - 1] + window);
            match tick {
                Some(t) => {
                    ticks.push(t);
                    assert(ticks@.map_values(|t: u64| t as int) == before.map_values(
                        |t: u64| t as int,
                    ).push(t as int));
                },
                None => {},
            }
        }
        ticks
    }
}

/// The ticks of the first `k` events never outnumber them.
pub proof fn lemma_ticks_upto_len(events: Seq<u64>, window: u64, k: int)
    requires
        0 <= k <= events.len(),
    ensures
        ticks_upto(events, window, k).len() <= k,
    decreases k,
{
    if k > 0 {
        lemma_ticks_upto_len(events, window, k - 1);
    }
}

/// Every event that a quiet period follows has its tick, one window after
/// it, and every tick is the tick of such an event.
pub proof fn lemma_ticks_are_of_quiet_events(events: Seq<u64>, window: u64, k: int)
    requires
        0 <= k <= events.len(),
    ensures
        forall|i: int|
            0 <= i < k && quiet_after(events, window, i) ==> ticks_upto(
                events,
                window,
                k,
            ).contains(#[trigger] events[i] + window),
        forall|t: int| #[trigger]
            ticks_upto(events, window, k).contains(t) ==> exists|i: int|
                0 <= i < k && quiet_after(events, window, i) && t == #[trigger] events[i] + window,
    decreases k,
{
    if k > 0 {
        lemma_ticks_are_of_quiet_events(events, window, k - 1);
        let shorter = ticks_upto(events, window, k - 1);
        let all = ticks_upto(events, window, k);
        if quiet_after(events, window, k - 1) {
            let last = events[k - 1] + window;
            assert(all == shorter.push(last));
            assert(all[all.len() - 1] == last);
            assert forall|i: int|
                0 <= i < k && quiet_after(events, window, i) implies all.contains(
                #[trigger] events[i] + window,
            ) by {
                if i < k - 1 {
                    let j = choose|j: int|
                        0 <= j < shorter.len() && shorter[j] == events[i] + window;
                    assert(all[j] == events[i] + window);
                }
            }
            assert forall|t: int| #[trigger] all.contains(t) implies exists|i: int|
                0 <= i < k && quiet_after(events, window, i) && t == #[trigger] events[i]
                    + window by {
                let j = choose|j: int| 0 <= j < all.len() && all[j] == t;
                if j < shorter.len() {
                    assert(shorter[j] == t);
                    assert(shorter.contains(t));
                } else {
                    assert(t == events[k - 1] + window);
                }
            }
        }
    }
}

/// Coalescing: a burst of events, each arriving less than a window after
/// the one before, gives exactly one tick, a window after the last event,
/// provided the clock can show that moment.
pub proof fn lemma_burst_gives_one_tick(events: Seq<u64>, window: u64)
    requires
        events.len() >= 1,
        events.last() + window <= u64::MAX,
        forall|i: int|
            0 <= i < events.len() - 1 ==> events[i] <= #[trigger] events[i + 1] < events[i]
                + window,
    ensures
        tick_times(events, window) == seq![events.last() + window],
{
    lemma_no_tick_inside_burst(events, window, events.len() - 1);
    assert(quiet_after(events, window, events.len() - 1));
    assert(tick_times(events, window) =~= seq![events.last() + window]);
}

proof fn lemma_no_tick_inside_burst(events: Seq<u64>, window: u64, k: int)
    requires
        0 <= k < events.len(),
        forall|i: int|
            0 <= i < events.len() - 1 ==> events[i] <= #[trigger] events[i + 1] < events[i]
                + window,
    ensures
        ticks_upto(events, window, k) == Seq::<int>::empty(),
    decreases k,
{
    if k > 0 {
        lemma_no_tick_inside_burst(events, window, k - 1);
        assert(events[k - 1] <= events[(k - 1) + 1] < events[k - 1] + window);
    }
}

/// Separation: two events more than a window apart give two ticks, and the
/// first of them fires before the second event arrives, provided the clock
/// can show the moment of the second tick.
pub proof fn lemma_separate_events_give_two_ticks(first: u64, second: u64, window: u64)
    requires
        first + window < second,
        second + window <= u64::MAX,
    ensures
        tick_times(seq![first, second], window) == seq![first + window, second + window],
        first + window != second + window,
        first + window < second,
{
    let events = seq![first, second];
    assert(ticks_upto(events, window, 0) == Seq::<int>::empty());
    assert(quiet_after(events, window, 0));
    assert(ticks_upto(events, window, 1) == Seq::<int>::empty().push(first + window));
    assert(quiet_after(events, window, 1));
    assert(tick_times(events, window) =~= seq![first + window, second + window]);
}

/// At most one tick per quiet period: where the events are in the order of
/// their arrival, each tick fires at least a window after the one before,
/// and none before its time.
pub proof fn lemma_ticks_are_a_window_apart(events: Seq<u64>, window: u64, k: int)
    requires
        0 <= k <= events.len(),
        forall|i: int| 0 <= i < events.len() - 1 ==> events[i] <= #[trigger] events[i + 1],
    ensures
        forall|j: int|
            0 <= j < ticks_upto(events, window, k).len() - 1 ==> ticks_upto(events, window, k)[j]
                + window <= #[trigger] ticks_upto(events, window, k)[j + 1],
        k > 0 && ticks_upto(events, window, k).len() > 0 ==> ticks_upto(
            events,
            window,
            k,
        ).last() <= events[k - 1] + window,
    decreases k,
{
    if k > 0 {
        lemma_ticks_are_a_window_apart(events, window, k - 1);
        let shorter = ticks_upto(events, window, k - 1);
        let all = ticks_upto(events, window, k);
        if k > 1 {
            assert(events[k - 2] <= events[(k - 2) + 1]);
        }
        if quiet_after(events, window, k - 1) {
            assert(all == shorter.push(events[k - 1] + window));
            if shorter.len() > 0 {
                lemma_ticks_are_of_quiet_events(events, window, k - 1);
                let t = shorter.last();
                assert(shorter.contains(t));
                let i = choose|i: int|
                    0 <= i < k - 1 && quiet_after(events, window, i) && t == #[trigger] events[i]
                        + window;
                lemma_sorted_events(events, i + 1, k - 1);
                assert(t + window <= events[k - 1] + window);
            }
            assert forall|j: int| 0 <= j < all.len() - 1 implies all[j] + window
                <= #[trigger] all[j + 1] by {
                if j + 1 < shorter.len() {
                    assert(shorter[j] + window <= shorter[j + 1]);
                }
            }
        }
    }
}

proof fn lemma_sorted_events(events: Seq<u64>, i: int, j: int)
    requires
        0 <= i <= j < events.len(),
        forall|i: int| 0 <= i < events.len() - 1 ==> events[i] <= #[trigger] events[i + 1],
    ensures
        events[i] <= events[j],
    decreases j - i,
{
    if i < j {
        lemma_sorted_events(events, i, j - 1);
        assert(events[j - 1] <= events[(j - 1) + 1]);
    }
}

/// A stopped debouncer lets no tick out and keeps its state, whatever
/// arrives; stopping it again changes nothing.
pub proof fn lemma_stopped_is_silent(debouncer: DebouncerView, now: u64)
    requires
        debouncer.stopped,
    ensures
        debouncer.released_by_change(now) is None,
        debouncer.owed(now) is None,
        debouncer.after_change(now) == debouncer,
        debouncer.after_timeout(now) == debouncer,
{
}

} // verus!
