use miner_launcher::package::PackageInfo;
use miner_launcher::release::ResolveError;
use miner_launcher::store::StoreOp;
use miner_launcher::watcher::{UpdateWatcher, WatchAction, WatchEvent, WatchPhase, UPDATE_INTERVAL};

#[test]
fn watcher_starts_waiting_with_a_quarter_hour_interval() {
    let watcher = PackageInfo::start_update_watcher();
    assert_eq!(watcher.phase, WatchPhase::Waiting);
    assert_eq!(watcher.interval, 900);
    assert_eq!(UPDATE_INTERVAL, 900);
}

#[test]
fn a_found_update_is_applied_then_announced() {
    let mut watcher = PackageInfo::start_update_watcher();
    assert_eq!(watcher.step(WatchEvent::Tick), WatchAction::Check);
    assert_eq!(watcher.phase, WatchPhase::Checking);
    assert_eq!(watcher.step(WatchEvent::UpdateFound), WatchAction::Apply);
    assert_eq!(watcher.phase, WatchPhase::Applying);
    assert_eq!(watcher.step(WatchEvent::Applied), WatchAction::Notify);
    assert_eq!(watcher.phase, WatchPhase::Waiting);
    assert_eq!(watcher.interval, 900);
}

#[test]
fn failures_lead_back_to_waiting() {
    let mut watcher = PackageInfo::start_update_watcher();
    watcher.step(WatchEvent::Tick);
    assert_eq!(watcher.step(WatchEvent::CheckFailed), WatchAction::Sleep);
    assert_eq!(watcher.phase, WatchPhase::Waiting);
    watcher.step(WatchEvent::Tick);
    assert_eq!(watcher.step(WatchEvent::UpToDate), WatchAction::Sleep);
    assert_eq!(watcher.phase, WatchPhase::Waiting);
    watcher.step(WatchEvent::Tick);
    watcher.step(WatchEvent::UpdateFound);
    assert_eq!(watcher.step(WatchEvent::ApplyFailed), WatchAction::Sleep);
    assert_eq!(watcher.phase, WatchPhase::Waiting);
    assert_eq!(watcher.step(WatchEvent::Tick), WatchAction::Check);
}

#[test]
fn events_out_of_turn_are_ignored() {
    let mut watcher = PackageInfo::start_update_watcher();
    for event in [WatchEvent::Applied, WatchEvent::UpdateFound, WatchEvent::CheckFailed, WatchEvent::ApplyFailed, WatchEvent::UpToDate] {
        assert_eq!(watcher.step(event), WatchAction::Ignore);
        assert_eq!(watcher.phase, WatchPhase::Waiting);
    }
    watcher.step(WatchEvent::Tick);
    for event in [WatchEvent::Tick, WatchEvent::Applied, WatchEvent::ApplyFailed] {
        assert_eq!(watcher.step(event), WatchAction::Ignore);
        assert_eq!(watcher.phase, WatchPhase::Checking);
    }
    watcher.step(WatchEvent::UpdateFound);
    for event in [WatchEvent::Tick, WatchEvent::UpdateFound, WatchEvent::UpToDate, WatchEvent::CheckFailed] {
        assert_eq!(watcher.step(event), WatchAction::Ignore);
        assert_eq!(watcher.phase, WatchPhase::Applying);
    }
}

#[test]
fn plans_become_events() {
    assert_eq!(UpdateWatcher::event_for(&Err(ResolveError::Transport)), WatchEvent::CheckFailed);
    assert_eq!(UpdateWatcher::event_for(&Err(ResolveError::Unsupported)), WatchEvent::CheckFailed);
    assert_eq!(UpdateWatcher::event_for(&Ok(Vec::new())), WatchEvent::UpToDate);
    let plan = vec![StoreOp::Download { url: "https://dl.example/x".to_string() }];
    assert_eq!(UpdateWatcher::event_for(&Ok(plan)), WatchEvent::UpdateFound);
}
