use sitegen::orchestrate::OrchAction;
use sitegen::orchestrate::OrchEvent;
use sitegen::orchestrate::Orchestrator;
use sitegen::orchestrate::Phase;
use sitegen::reload::ReloadState;
use sitegen::watch::Watcher;

#[test]
fn watcher_reports_a_change_once() {
    let mut w = Watcher::new(10);
    assert!(!w.poll(&vec![5, 3]));
    assert_eq!(w.last_modified, 10);

    assert!(w.poll(&vec![5, 12]));
    assert_eq!(w.last_modified, 12);

    // The same observations again: the change was coalesced into one event.
    assert!(!w.poll(&vec![5, 12]));
    assert_eq!(w.last_modified, 12);
}

#[test]
fn watcher_takes_maximum_of_burst() {
    let mut w = Watcher::new(0);
    // Several files changed within one poll: one event, stamp at the max.
    assert!(w.poll(&vec![7, 20, 13]));
    assert_eq!(w.last_modified, 20);
    assert!(!w.poll(&vec![7, 20, 13]));
}

#[test]
fn watcher_sees_nothing_in_empty_directory() {
    let mut w = Watcher::new(3);
    assert!(!w.poll(&vec![]));
    assert_eq!(w.last_modified, 3);
}

#[test]
fn reload_is_delivered_exactly_once() {
    let mut r = ReloadState::new();
    r.register_client(1);
    r.register_client(2);
    assert!(!r.take_reload());

    r.mark_reload_pending();
    // The first client polled gets the instruction; the flag is cleared
    // for everyone (the documented shared-flag fairness limitation).
    assert!(r.take_reload());
    assert!(!r.take_reload());
    assert!(!r.take_reload());
    assert_eq!(r.clients, vec![1, 2]);
}

#[test]
fn two_changes_never_rebuild_concurrently() {
    let mut o = Orchestrator::new();
    assert_eq!(o.phase, Phase::Serving);

    // First change starts a build.
    assert_eq!(o.on_event(OrchEvent::ContentChanged), (OrchAction::RunBuild, false));
    assert_eq!(o.phase, Phase::Building);

    // A second change in rapid succession starts no second build: queued.
    assert_eq!(o.on_event(OrchEvent::ContentChanged), (OrchAction::Idle, false));
    assert_eq!(o.phase, Phase::Building);
    assert!(o.pending);

    // The first build finishes: restart the server; still no second build.
    assert_eq!(o.on_event(OrchEvent::BuildSucceeded), (OrchAction::RestartServer, false));
    assert_eq!(o.phase, Phase::Restarting);

    // Only when the restart transition completes is the queued change
    // processed — and the reload signalled for the finished cycle.
    assert_eq!(o.on_event(OrchEvent::RestartComplete), (OrchAction::RunBuild, true));
    assert_eq!(o.phase, Phase::Building);
    assert!(!o.pending);

    // The second cycle runs to completion on its own.
    assert_eq!(o.on_event(OrchEvent::BuildSucceeded), (OrchAction::RestartServer, false));
    assert_eq!(o.on_event(OrchEvent::RestartComplete), (OrchAction::Idle, true));
    assert_eq!(o.phase, Phase::Serving);
}

#[test]
fn failed_build_keeps_previous_server() {
    let mut o = Orchestrator::new();
    assert_eq!(o.on_event(OrchEvent::ContentChanged), (OrchAction::RunBuild, false));

    // The build fails: no restart, no reload; back to serving the old site.
    assert_eq!(o.on_event(OrchEvent::BuildFailed), (OrchAction::Idle, false));
    assert_eq!(o.phase, Phase::Serving);

    // The next change starts a fresh cycle.
    assert_eq!(o.on_event(OrchEvent::ContentChanged), (OrchAction::RunBuild, false));
}

#[test]
fn failed_build_still_runs_queued_change() {
    let mut o = Orchestrator::new();
    assert_eq!(o.on_event(OrchEvent::ContentChanged), (OrchAction::RunBuild, false));
    assert_eq!(o.on_event(OrchEvent::ContentChanged), (OrchAction::Idle, false));
    // The failed cycle skips restart and reload but processes the queue.
    assert_eq!(o.on_event(OrchEvent::BuildFailed), (OrchAction::RunBuild, false));
    assert_eq!(o.phase, Phase::Building);
}
