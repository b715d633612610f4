use fswatcher::events::{RawEvent, WatcherChange};
use fswatcher::worker::{run_worker, worker_decide, WorkerStep};

fn s(text: &str) -> String {
    text.to_string()
}

fn expect_create(change: &WatcherChange, path: &str) {
    match change {
        WatcherChange::Create(p) => assert_eq!(p.as_str(), path),
        other => panic!("expected Create, got {:?}", other),
    }
}

fn expect_write(change: &WatcherChange, path: &str) {
    match change {
        WatcherChange::Write(p) => assert_eq!(p.as_str(), path),
        other => panic!("expected Write, got {:?}", other),
    }
}

fn expect_remove(change: &WatcherChange, path: &str) {
    match change {
        WatcherChange::Remove(p) => assert_eq!(p.as_str(), path),
        other => panic!("expected Remove, got {:?}", other),
    }
}

fn expect_rename(change: &WatcherChange, src: &str, dst: &str) {
    match change {
        WatcherChange::Rename(a, b) => {
            assert_eq!(a.as_str(), src);
            assert_eq!(b.as_str(), dst);
        }
        other => panic!("expected Rename, got {:?}", other),
    }
}

#[test]
fn empty_batch_forwards_nothing() {
    let out = run_worker(Vec::new());
    assert!(out.is_empty());
}

#[test]
fn noise_only_batch_forwards_nothing() {
    let out = run_worker(vec![
        RawEvent::NoticeWrite(s("/tmp/proj/a.txt")),
        RawEvent::NoticeRemove(s("/tmp/proj/a.txt")),
        RawEvent::Chmod(s("/tmp/proj/a.txt")),
        RawEvent::Rescan,
    ]);
    assert!(out.is_empty());
}

#[test]
fn mutations_are_forwarded_in_order() {
    let out = run_worker(vec![
        RawEvent::Create(s("/tmp/proj/a.txt")),
        RawEvent::Write(s("/tmp/proj/a.txt")),
        RawEvent::Remove(s("/tmp/proj/c.txt")),
        RawEvent::Rename(s("/tmp/proj/a.txt"), s("/tmp/proj/d.txt")),
    ]);
    assert_eq!(out.len(), 4);
    expect_create(&out[0], "/tmp/proj/a.txt");
    expect_write(&out[1], "/tmp/proj/a.txt");
    expect_remove(&out[2], "/tmp/proj/c.txt");
    expect_rename(&out[3], "/tmp/proj/a.txt", "/tmp/proj/d.txt");
}

#[test]
fn noise_between_mutations_changes_nothing() {
    let out = run_worker(vec![
        RawEvent::NoticeWrite(s("/tmp/proj/a.txt")),
        RawEvent::Create(s("/tmp/proj/a.txt")),
        RawEvent::Chmod(s("/tmp/proj/a.txt")),
        RawEvent::Rescan,
        RawEvent::Write(s("/tmp/proj/a.txt")),
        RawEvent::NoticeRemove(s("/tmp/proj/a.txt")),
        RawEvent::Remove(s("/tmp/proj/a.txt")),
    ]);
    assert_eq!(out.len(), 3);
    expect_create(&out[0], "/tmp/proj/a.txt");
    expect_write(&out[1], "/tmp/proj/a.txt");
    expect_remove(&out[2], "/tmp/proj/a.txt");
}

#[test]
fn error_event_does_not_stop_the_stream() {
    let out = run_worker(vec![
        RawEvent::Create(s("/tmp/proj/a.txt")),
        RawEvent::Error(s("watch descriptor gone"), Some(s("/tmp/proj/a.txt"))),
        RawEvent::Write(s("/tmp/proj/a.txt")),
        RawEvent::Remove(s("/tmp/proj/a.txt")),
    ]);
    assert_eq!(out.len(), 3);
    expect_create(&out[0], "/tmp/proj/a.txt");
    expect_write(&out[1], "/tmp/proj/a.txt");
    expect_remove(&out[2], "/tmp/proj/a.txt");
}

#[test]
fn two_disjoint_roots_keep_their_paths_apart() {
    let out = run_worker(vec![
        RawEvent::Create(s("/tmp/one/x.txt")),
        RawEvent::Create(s("/tmp/two/y.txt")),
        RawEvent::Write(s("/tmp/one/x.txt")),
        RawEvent::Remove(s("/tmp/two/y.txt")),
    ]);
    assert_eq!(out.len(), 4);
    expect_create(&out[0], "/tmp/one/x.txt");
    expect_create(&out[1], "/tmp/two/y.txt");
    expect_write(&out[2], "/tmp/one/x.txt");
    expect_remove(&out[3], "/tmp/two/y.txt");
}

#[test]
fn worker_forwards_structural_events() {
    let step = worker_decide(Some(RawEvent::Create(s("/tmp/proj/a.txt"))));
    match step {
        WorkerStep::Forward(change) => expect_create(&change, "/tmp/proj/a.txt"),
        other => panic!("expected Forward, got {:?}", other),
    }
}

#[test]
fn worker_discards_noise_and_errors() {
    let noise = worker_decide(Some(RawEvent::Rescan));
    assert!(matches!(noise, WorkerStep::Discard));
    let err = worker_decide(Some(RawEvent::Error(s("queue overflowed"), None)));
    assert!(matches!(err, WorkerStep::Discard));
}

#[test]
fn worker_stops_only_on_closed_channel() {
    let step = worker_decide(None);
    assert!(matches!(step, WorkerStep::Stop));
}

#[test]
fn scenario_watch_root_life_of_a_file() {
    let out = run_worker(vec![
        RawEvent::Create(s("/tmp/proj/a.txt")),
        RawEvent::Write(s("/tmp/proj/a.txt")),
        RawEvent::Rename(s("/tmp/proj/a.txt"), s("/tmp/proj/b.txt")),
        RawEvent::Remove(s("/tmp/proj/b.txt")),
    ]);
    assert_eq!(out.len(), 4);
    expect_create(&out[0], "/tmp/proj/a.txt");
    expect_write(&out[1], "/tmp/proj/a.txt");
    expect_rename(&out[2], "/tmp/proj/a.txt", "/tmp/proj/b.txt");
    expect_remove(&out[3], "/tmp/proj/b.txt");
    // After shutdown the raw-event channel closes; the worker's next and
    // last decision is to stop, and nothing further is ever forwarded.
    assert!(matches!(worker_decide(None), WorkerStep::Stop));
}
