use ytdlp_guard::digest::{Comparison, DigestError};
use ytdlp_guard::replacer::{Failure, ReplaceError};
use ytdlp_guard::watcher::{IntegrityWatcher, WatchAction, WatchEvent, WatchState, QUIET_PERIOD_MS};

#[test]
fn burst_of_changes_gives_one_comparison() {
    for n in 1..20 {
        let mut w = IntegrityWatcher::new();
        let mut computes = 0;
        let mut events: Vec<WatchEvent> = (0..n).map(|_| WatchEvent::Changed).collect();
        events.push(WatchEvent::QuietPeriodOver);
        for e in events {
            if w.handle(e) == WatchAction::ComputeDigests {
                computes += 1;
            }
        }
        assert_eq!(computes, 1);
        assert_eq!(w.state, WatchState::Comparing);
    }
}

#[test]
fn first_change_starts_the_quiet_period() {
    let mut w = IntegrityWatcher::new();
    assert_eq!(w.handle(WatchEvent::Changed), WatchAction::Debounce(QUIET_PERIOD_MS));
    assert_eq!(QUIET_PERIOD_MS, 300);
    assert_eq!(w.handle(WatchEvent::Changed), WatchAction::Absorbed);
    assert_eq!(w.state, WatchState::Debouncing);
}

#[test]
fn divergence_triggers_exactly_one_replacement() {
    for outcome in [
        Ok(()),
        Err(ReplaceError::Fetch(Failure { attempts: 3, cause: "net".to_string() })),
    ] {
        let mut w = IntegrityWatcher { state: WatchState::Comparing };
        assert_eq!(w.handle(WatchEvent::Compared(Comparison::Drifted)), WatchAction::Replace);
        assert_eq!(w.state, WatchState::Reconciling);
        assert_eq!(w.handle(WatchEvent::Replaced(outcome)), WatchAction::WaitForEvent);
        assert_eq!(w.state, WatchState::Idle);
    }
}

#[test]
fn consistent_files_return_to_idle() {
    let mut w = IntegrityWatcher { state: WatchState::Comparing };
    assert_eq!(w.handle(WatchEvent::Compared(Comparison::Consistent)), WatchAction::WaitForEvent);
    assert_eq!(w.state, WatchState::Idle);
}

#[test]
fn unreadable_file_skips_the_cycle_and_next_event_rechecks() {
    let mut w = IntegrityWatcher::new();
    w.handle(WatchEvent::Changed);
    assert_eq!(w.handle(WatchEvent::QuietPeriodOver), WatchAction::ComputeDigests);
    let e = DigestError::CannotOpen("deleted".to_string());
    assert_eq!(w.handle(WatchEvent::Compared(Comparison::Unavailable(e))), WatchAction::WaitForEvent);
    assert_eq!(w.state, WatchState::Idle);
    assert_eq!(w.handle(WatchEvent::Changed), WatchAction::Debounce(300));
    assert_eq!(w.handle(WatchEvent::QuietPeriodOver), WatchAction::ComputeDigests);
}

#[test]
fn watch_error_keeps_waiting() {
    let mut w = IntegrityWatcher::new();
    assert_eq!(w.handle(WatchEvent::WatchFailed("overflow".to_string())), WatchAction::WaitForEvent);
    assert_eq!(w.state, WatchState::Idle);
}

#[test]
fn overwritten_slot_is_restored_within_one_cycle() {
    // The slot was overwritten: one change, the quiet period, a drifted
    // comparison, and a replacement pass that succeeds.
    let mut w = IntegrityWatcher::new();
    let own = vec![1u8, 2, 3];
    let slot = vec![0xffu8; 8];
    assert_eq!(w.handle(WatchEvent::Changed), WatchAction::Debounce(300));
    assert_eq!(w.handle(WatchEvent::QuietPeriodOver), WatchAction::ComputeDigests);
    let c = ytdlp_guard::digest::compare_images(Ok(slot), Ok(own.clone()));
    assert_eq!(w.handle(WatchEvent::Compared(c)), WatchAction::Replace);
    assert_eq!(w.handle(WatchEvent::Replaced(Ok(()))), WatchAction::WaitForEvent);
    let c = ytdlp_guard::digest::compare_images(Ok(own.clone()), Ok(own));
    assert_eq!(c, Comparison::Consistent);
}
