use crate::digest::Comparison;
use crate::replacer::ReplaceError;
use vstd::prelude::*;

verus! {

/// How long the directory is left to settle after a change, in milliseconds.
pub const QUIET_PERIOD_MS: u64 = 300;

/// Where the watcher stands between two events.
#[derive(Clone, Copy, Debug, PartialEq, Eq, Structural)]
pub enum WatchState {
    /// Waiting for a change in the watched directory.
    Idle,
    /// A change arrived; waiting for the directory to settle.
    Debouncing,
    /// Both digests are being computed.
    Comparing,
    /// The digests differed; a replacement pass is running.
    Reconciling,
}

/// What the caller reports to the watcher.
#[derive(Debug)]
pub enum WatchEvent {
    /// Something changed in the watched directory.
    Changed,
    /// The change notification facility reported an error.
    WatchFailed(String),
    /// The quiet period has passed.
    QuietPeriodOver,
    /// The comparison of the impersonated file with the running image.
    Compared(Comparison),
    /// A replacement pass ended with this outcome.
    Replaced(Result<(), ReplaceError>),
}

/// The outside work the caller performs next.
#[derive(Clone, Copy, Debug, PartialEq, Eq, Structural)]
pub enum WatchAction {
    /// Block until the next notification.
    WaitForEvent,
    /// Sleep this many milliseconds, then report the changes that queued up
    /// meanwhile, then report that the quiet period is over.
    Debounce(u64),
    /// Nothing to do; the event was taken in by the debounce.
    Absorbed,
    /// Read both files and report their comparison.
    ComputeDigests,
    /// Run a replacement pass without forced download and report its outcome.
    Replace,
}

/// The watcher's next state and action on an event.
pub open spec fn watch_step(s: WatchState, e: WatchEvent) -> (WatchState, WatchAction) {
    match s {
        WatchState::Idle => match e {
            WatchEvent::Changed => (WatchState::Debouncing, WatchAction::Debounce(QUIET_PERIOD_MS)),
            _ => (WatchState::Idle, WatchAction::WaitForEvent),
        },
        WatchState::Debouncing => match e {
            WatchEvent::QuietPeriodOver => (WatchState::Comparing, WatchAction::ComputeDigests),
            _ => (WatchState::Debouncing, WatchAction::Absorbed),
        },
        WatchState::Comparing => match e {
            WatchEvent::Compared(Comparison::Drifted) => (WatchState::Reconciling, WatchAction::Replace),
            WatchEvent::Compared(_) => (WatchState::Idle, WatchAction::WaitForEvent),
            _ => (WatchState::Comparing, WatchAction::Absorbed),
        },
        WatchState::Reconciling => match e {
            WatchEvent::Replaced(_) => (WatchState::Idle, WatchAction::WaitForEvent),
            _ => (WatchState::Reconciling, WatchAction::Absorbed),
        },
    }
}

/// Feeds `events` in order: the final state, how many comparisons were
/// started and how many replacement passes.
pub open spec fn watch_run(s: WatchState, events: Seq<WatchEvent>) -> (WatchState, nat, nat)
    decreases events.len(),
{
    if events.len() == 0 {
        (s, 0, 0)
    } else {
        let (s2, a) = watch_step(s, events[0]);
        let (s3, c, r) = watch_run(s2, events.drop_first());
        (
            s3,
            c + if a == WatchAction::ComputeDigests { 1nat } else { 0nat },
            r + if a == WatchAction::Replace { 1nat } else { 0nat },
        )
    }
}

/// The loop that keeps the impersonated slot equal to the running image.
#[derive(Debug)]
pub struct IntegrityWatcher {
    pub state: WatchState,
}

impl IntegrityWatcher {
    pub fn new() -> (r: IntegrityWatcher)
        ensures
            r.state == WatchState::Idle,
    {
        IntegrityWatcher { state: WatchState::Idle }
    }

    /// Takes in one event and says what to do next.
    pub fn handle(&mut self, event: WatchEvent) -> (r: WatchAction)
        ensures
            (final(self).state, r) == watch_step(old(self).state, event),
    {
        let (s, a) = match self.state {
            WatchState::Idle => match event {
                WatchEvent::Changed => (WatchState::Debouncing, WatchAction::Debounce(QUIET_PERIOD_MS)),
                _ => (WatchState::Idle, WatchAction::WaitForEvent),
            },
            WatchState::Debouncing => match event {
                WatchEvent::QuietPeriodOver => (WatchState::Comparing, WatchAction::ComputeDigests),
                _ => (WatchState::Debouncing, WatchAction::Absorbed),
            },
            WatchState::Comparing => match event {
                WatchEvent::Compared(Comparison::Drifted) => (WatchState::Reconciling, WatchAction::Replace),
                WatchEvent::Compared(_) => (WatchState::Idle, WatchAction::WaitForEvent),
                _ => (WatchState::Comparing, WatchAction::Absorbed),
            },
            WatchState::Reconciling => match event {
                WatchEvent::Replaced(_) => (WatchState::Idle, WatchAction::WaitForEvent),
                _ => (WatchState::Reconciling, WatchAction::Absorbed),
            },
        };
        self.state = s;
        a
    }
}

proof fn lemma_debounce_absorbs(events: Seq<WatchEvent>)
    requires
        forall|i: int| 0 <= i < events.len() ==> #[trigger] events[i] is Changed,
    ensures
        watch_run(WatchState::Debouncing, events) == (WatchState::Debouncing, 0nat, 0nat),
    decreases events.len(),
{
    if events.len() > 0 {
        assert(events[0] is Changed);
        let rest = events.drop_first();
        assert forall|i: int| 0 <= i < rest.len() implies #[trigger] rest[i] is Changed by {
            assert(rest[i] == events[i + 1]);
        }
        lemma_debounce_absorbs(rest);
    }
}

proof fn lemma_run_append(s: WatchState, a: Seq<WatchEvent>, b: Seq<WatchEvent>)
    ensures
        ({
            let (s1, c1, r1) = watch_run(s, a);
            let (s2, c2, r2) = watch_run(s1, b);
            watch_run(s, a + b) == (s2, c1 + c2, r1 + r2)
        }),
    decreases a.len(),
{
    if a.len() == 0 {
        assert(a + b =~= b);
    } else {
        let (s0, _) = watch_step(s, a[0]);
        assert((a + b).drop_first() =~= a.drop_first() + b);
        assert((a + b)[0] == a[0]);
        lemma_run_append(s0, a.drop_first(), b);
    }
}

/// A burst of `n` changes that all arrive before the quiet period is over
/// leads, from `Idle`, to exactly one comparison and no replacement.
pub proof fn lemma_debounce_coalesces(n: nat)
    requires
        n >= 1,
    ensures
        ({
            let burst = Seq::new(n, |i: int| WatchEvent::Changed);
            watch_run(WatchState::Idle, burst.push(WatchEvent::QuietPeriodOver)) == (WatchState::Comparing, 1nat, 0nat)
        }),
{
    let burst = Seq::new(n, |i: int| WatchEvent::Changed);
    let rest = burst.drop_first();
    assert forall|i: int| 0 <= i < rest.len() implies #[trigger] rest[i] is Changed by {}
    lemma_debounce_absorbs(rest);
    let tail = seq![WatchEvent::QuietPeriodOver];
    assert(watch_run(WatchState::Comparing, tail.drop_first()) == (WatchState::Comparing, 0nat, 0nat));
    assert(watch_run(WatchState::Debouncing, tail) == (WatchState::Comparing, 1nat, 0nat));
    lemma_run_append(WatchState::Debouncing, rest, tail);
    assert(burst.push(WatchEvent::QuietPeriodOver) =~= seq![WatchEvent::Changed] + (rest + tail));
    assert(watch_run(WatchState::Debouncing, rest + tail) == (WatchState::Comparing, 1nat, 0nat));
    lemma_run_append(WatchState::Idle, seq![WatchEvent::Changed], rest + tail);
    assert(watch_run(WatchState::Debouncing, Seq::<WatchEvent>::empty()) == (WatchState::Debouncing, 0nat, 0nat));
    assert(seq![WatchEvent::Changed].drop_first() =~= Seq::<WatchEvent>::empty());
}

/// A comparison that finds the digests different starts exactly one
/// replacement pass, and the watcher is idle again once it has ended,
/// whatever its outcome.
pub proof fn lemma_divergence_reconciles_once(outcome: Result<(), ReplaceError>)
    ensures
        watch_run(
            WatchState::Comparing,
            seq![WatchEvent::Compared(Comparison::Drifted), WatchEvent::Replaced(outcome)],
        ) == (WatchState::Idle, 0nat, 1nat),
{
    let events = seq![WatchEvent::Compared(Comparison::Drifted), WatchEvent::Replaced(outcome)];
    let rest = events.drop_first();
    assert(rest =~= seq![WatchEvent::Replaced(outcome)]);
    assert(rest.drop_first() =~= Seq::<WatchEvent>::empty());
    assert(watch_run(WatchState::Idle, rest.drop_first()) == (WatchState::Idle, 0nat, 0nat));
    assert(rest[0] == WatchEvent::Replaced(outcome));
    assert(watch_run(WatchState::Reconciling, rest) == (WatchState::Idle, 0nat, 0nat));
    assert(events[0] == WatchEvent::Compared(Comparison::Drifted));
}

} // verus!
