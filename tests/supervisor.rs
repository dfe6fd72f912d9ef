use downd::{DownloaderCommand, DownloaderMsg, Phase, Supervisor, SupervisorAction, SupervisorEvent, Tracker};

fn cmd(s: &mut Supervisor, c: DownloaderCommand) -> Vec<SupervisorAction> {
    s.step(SupervisorEvent::Command(c))
}

fn line(s: &mut Supervisor, l: &str) -> Vec<SupervisorAction> {
    s.step(SupervisorEvent::Line(l.to_string()))
}

fn queue_update(a: &SupervisorAction) -> Vec<String> {
    match a {
        SupervisorAction::Emit(DownloaderMsg::QueueUpdate(q)) => q.clone(),
        other => panic!("not a queue update: {:?}", other),
    }
}

fn hold_reason(a: &SupervisorAction) -> String {
    match a {
        SupervisorAction::Emit(DownloaderMsg::Hold(r)) => r.clone(),
        other => panic!("not a hold: {:?}", other),
    }
}

fn is_idle(a: &SupervisorAction) -> bool {
    matches!(a, SupervisorAction::Emit(DownloaderMsg::Idle))
}

fn downloading(u: &str) -> Supervisor {
    let mut s = Supervisor::new();
    cmd(&mut s, DownloaderCommand::AddUrl(u.to_string()));
    let acts = s.step(SupervisorEvent::QueueReady);
    assert!(matches!(&acts[1], SupervisorAction::Spawn(x) if x == u));
    s
}

#[test]
fn empty_queue_then_add_and_finish() {
    let mut s = Supervisor::new();
    let a = s.start();
    assert!(is_idle(&a[0]));
    assert!(s.step(SupervisorEvent::QueueReady).is_empty());
    let a = cmd(&mut s, DownloaderCommand::AddUrl("http://x".to_string()));
    assert_eq!(queue_update(&a[0]), vec!["http://x"]);
    let a = s.step(SupervisorEvent::QueueReady);
    assert_eq!(a.len(), 3);
    assert_eq!(queue_update(&a[0]), Vec::<String>::new());
    assert!(matches!(&a[1], SupervisorAction::Spawn(u) if u == "http://x"));
    assert!(matches!(&a[2], SupervisorAction::ResetStallTimer));
    let mut tracker = Tracker::new();
    let mut events = Vec::new();
    for (i, l) in ["START|T", "DOWNLOAD|100|1000|NA|NA|", "DOWNLOAD|100|1000|NA|NA|"].iter().enumerate() {
        let a = line(&mut s, l);
        assert!(matches!(a[0], SupervisorAction::ResetStallTimer));
        match a.into_iter().nth(1) {
            Some(SupervisorAction::Emit(m)) => {
                events.push(format!("{:?}", m));
                tracker.update(2000 * i as u64, m);
            }
            other => panic!("unexpected {:?}", other),
        }
    }
    assert_eq!(events[0], "Starting(Some(\"T\"))");
    assert!(events[1].starts_with("Downloading { downloaded_bytes: 100, total_bytes: Some(1000)"));
    assert_eq!(tracker.progress, Some(100_000));
    assert_eq!(tracker.rate, Some(0));
    assert_eq!(tracker.eta, None);
    assert!(s.step(SupervisorEvent::OutputEnd).len() == 1);
    let a = s.step(SupervisorEvent::ChildExited(Some(0)));
    assert_eq!(a.len(), 1);
    assert!(is_idle(&a[0]));
    assert_eq!(s.phase, Phase::Idle);
    assert_eq!(s.current, None);
    if let SupervisorAction::Emit(m) = a.into_iter().next().unwrap() {
        tracker.update(5000, m);
    }
    assert_eq!(tracker.state, "Idle");
}

#[test]
fn pause_and_resume() {
    let mut s = downloading("u");
    let a = cmd(&mut s, DownloaderCommand::Pause);
    assert!(matches!(a[..], [SupervisorAction::Kill]));
    assert!(!s.reading_out);
    let a = s.step(SupervisorEvent::ChildExited(None));
    assert_eq!(hold_reason(&a[0]), "User hold");
    assert_eq!(s.current, Some("u".to_string()));
    let a = cmd(&mut s, DownloaderCommand::Resume);
    assert!(matches!(&a[0], SupervisorAction::Spawn(u) if u == "u"));
    let a = line(&mut s, "START|T");
    assert!(matches!(&a[1], SupervisorAction::Emit(DownloaderMsg::Starting(Some(t))) if t == "T"));
}

#[test]
fn cancel_while_downloading() {
    let mut s = downloading("u");
    let a = cmd(&mut s, DownloaderCommand::Cancel);
    assert!(matches!(a[..], [SupervisorAction::Kill]));
    let a = s.step(SupervisorEvent::ChildExited(Some(1)));
    assert_eq!(a.len(), 1);
    assert!(is_idle(&a[0]));
    assert_eq!(s.current, None);
    assert_eq!(s.phase, Phase::Idle);
}

#[test]
fn stuck_detection() {
    let mut s = downloading("u");
    line(&mut s, "START|T");
    let a = s.step(SupervisorEvent::StallTimeout);
    assert!(matches!(a[..], [SupervisorAction::Emit(DownloaderMsg::Stuck)]));
    assert!(s.step(SupervisorEvent::StallTimeout).is_empty());
    line(&mut s, "DOWNLOAD|1|NA|NA|NA|");
    assert!(!s.stuck);
    let a = s.step(SupervisorEvent::StallTimeout);
    assert!(matches!(a[..], [SupervisorAction::Emit(DownloaderMsg::Stuck)]));
}

#[test]
fn error_exit() {
    let mut s = downloading("u");
    s.step(SupervisorEvent::OutputEnd);
    let a = s.step(SupervisorEvent::ChildExited(Some(2)));
    assert_eq!(hold_reason(&a[0]), "Error code 2");
    let a = cmd(&mut s, DownloaderCommand::Resume);
    assert!(is_idle(&a[0]));
    assert_eq!(s.current, None);
    let mut t = downloading("v");
    t.step(SupervisorEvent::OutputEnd);
    let a = t.step(SupervisorEvent::ChildExited(Some(-1)));
    assert_eq!(hold_reason(&a[0]), "Error code -1");
}

#[test]
fn other_exit_reasons() {
    let mut s = downloading("u");
    s.step(SupervisorEvent::OutputEnd);
    let a = s.step(SupervisorEvent::ChildExited(None));
    assert_eq!(hold_reason(&a[0]), "Downloader killed");
    let mut s = downloading("u");
    let a = s.step(SupervisorEvent::LineError);
    assert!(matches!(a[..], [SupervisorAction::Kill]));
    let a = s.step(SupervisorEvent::ChildExited(Some(0)));
    assert_eq!(hold_reason(&a[0]), "IO Error!");
    let mut s = downloading("u");
    s.step(SupervisorEvent::OutputEnd);
    let a = s.step(SupervisorEvent::WaitFailed);
    assert_eq!(hold_reason(&a[0]), "IO Error!");
}

#[test]
fn queue_mutations_during_download() {
    let mut s = Supervisor::new();
    for u in ["a", "b", "c"] {
        cmd(&mut s, DownloaderCommand::AddUrl(u.to_string()));
    }
    let a = s.step(SupervisorEvent::QueueReady);
    assert_eq!(queue_update(&a[0]), vec!["b", "c"]);
    let a = cmd(&mut s, DownloaderCommand::MoveUp(2));
    assert_eq!(queue_update(&a[0]), vec!["b", "c"]);
    let a = cmd(&mut s, DownloaderCommand::MoveDown(0));
    assert_eq!(queue_update(&a[0]), vec!["c", "b"]);
    let a = cmd(&mut s, DownloaderCommand::Delete(0));
    assert_eq!(queue_update(&a[0]), vec!["b"]);
    assert_eq!(s.current, Some("a".to_string()));
}

#[test]
fn pause_while_idle_and_hold_cancel() {
    let mut s = Supervisor::new();
    let a = cmd(&mut s, DownloaderCommand::Pause);
    assert_eq!(hold_reason(&a[0]), "User hold");
    let a = cmd(&mut s, DownloaderCommand::AddUrl("x".to_string()));
    assert_eq!(queue_update(&a[0]), vec!["x"]);
    assert!(s.step(SupervisorEvent::QueueReady).is_empty());
    let a = cmd(&mut s, DownloaderCommand::Resume);
    assert!(is_idle(&a[0]));
    let mut s = downloading("u");
    cmd(&mut s, DownloaderCommand::Pause);
    s.step(SupervisorEvent::ChildExited(None));
    assert!(cmd(&mut s, DownloaderCommand::Cancel).is_empty());
    assert_eq!(s.current, None);
    let a = cmd(&mut s, DownloaderCommand::Resume);
    assert!(is_idle(&a[0]));
}

#[test]
fn closed_command_channel_stops() {
    let mut s = downloading("u");
    let a = s.step(SupervisorEvent::CommandsClosed);
    assert!(matches!(a[..], [SupervisorAction::Stop]));
    assert!(s.stopped);
    assert!(s.step(SupervisorEvent::QueueReady).is_empty());
}
