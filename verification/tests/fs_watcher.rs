use kanto_auto_deployer::fs_watcher::{
    is_filetype, redeploy_on_change, Event, EventKind, Wake, WatchAction, WatchLoop,
};

#[test]
fn extension_decides_the_file_type() {
    assert!(is_filetype("/data/manifests/a.json", "json"));
    assert!(is_filetype("a.b.json", "json"));
    assert!(!is_filetype("/data/manifests/a.json", "jso"));
    assert!(!is_filetype("/data/manifests/a.json.bak", "json"));
    assert!(!is_filetype("/data/manifests/json", "json"));
    assert!(!is_filetype("/data/manifests/.json", "json"));
    assert!(!is_filetype("/data/manifests.json/a", "json"));
    assert!(!is_filetype("", "json"));
    assert!(!is_filetype("json", "json"));
    assert!(is_filetype("KAD.enabled", "enabled"));
}

fn event(kind: EventKind, paths: &[&str]) -> Event {
    Event { kind, paths: paths.iter().map(|p| p.to_string()).collect() }
}

#[test]
fn created_and_modified_manifests_are_deployed_again() {
    let paths = ["/m/a.json", "/m/notes.txt", "/m/b.json", "/m/c"];
    for kind in [EventKind::Create, EventKind::Modify] {
        assert_eq!(redeploy_on_change(&event(kind, &paths)), vec!["/m/a.json", "/m/b.json"]);
    }
    for kind in [
        EventKind::Remove,
        EventKind::Access,
        EventKind::Attribute,
        EventKind::Other,
        EventKind::Any,
    ] {
        assert!(redeploy_on_change(&event(kind, &paths)).is_empty());
    }
    assert!(redeploy_on_change(&event(EventKind::Create, &[])).is_empty());
}

#[test]
fn watch_loop_runs_until_cancelled() {
    let mut watch = WatchLoop::new();
    assert!(watch.running);
    assert_eq!(watch.on_wake(Wake::TimerElapsed { cancelled: false }), WatchAction::Continue);
    assert_eq!(
        watch.on_wake(Wake::Changed(event(EventKind::Modify, &["x.json", "y.toml"]))),
        WatchAction::Redeploy(vec!["x.json".to_string()])
    );
    assert_eq!(
        watch.on_wake(Wake::Changed(event(EventKind::Remove, &["x.json"]))),
        WatchAction::Redeploy(vec![])
    );
    assert_eq!(watch.on_wake(Wake::TimerElapsed { cancelled: true }), WatchAction::Exit);
    assert!(!watch.running);
}

#[test]
fn cancelled_watch_loop_looks_at_no_further_event() {
    let mut watch = WatchLoop::new();
    assert_eq!(watch.on_wake(Wake::TimerElapsed { cancelled: true }), WatchAction::Exit);
    assert_eq!(
        watch.on_wake(Wake::Changed(event(EventKind::Create, &["x.json"]))),
        WatchAction::Exit
    );
    assert_eq!(watch.on_wake(Wake::TimerElapsed { cancelled: false }), WatchAction::Exit);
}

#[test]
fn failure_of_the_watcher_ends_the_loop() {
    let mut watch = WatchLoop::new();
    assert_eq!(
        watch.on_wake(Wake::Failed("gone".to_string())),
        WatchAction::Fail("gone".to_string())
    );
    assert!(!watch.running);
}
