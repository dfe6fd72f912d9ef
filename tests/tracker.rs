use downd::{humanize_bytes, humanize_rate, DownloaderMsg, RollingRate, Tracker};

#[test]
fn humanized_sizes() {
    assert_eq!(humanize_bytes(0), "0.0 B");
    assert_eq!(humanize_bytes(999), "999.0 B");
    assert_eq!(humanize_bytes(1000), "1.0 KB");
    assert_eq!(humanize_bytes(1250), "1.2 KB");
    assert_eq!(humanize_bytes(1350), "1.4 KB");
    assert_eq!(humanize_bytes(1_234_567), "1.2 MB");
    assert_eq!(humanize_bytes(u64::MAX), "18.4 EB");
    assert_eq!(humanize_rate(Some(1500)), Some("1.5 KB/s".to_string()));
    assert_eq!(humanize_rate(None), None);
}

#[test]
fn rolling_rate_window() {
    let mut r = RollingRate::new(1500, 15000);
    assert_eq!(r.rate(0), None);
    r.push(0, 0);
    assert_eq!(r.rate(1000), None);
    r.push(1000, 1000);
    assert_eq!(r.rate(1000), None);
    assert_eq!(r.rate(2000), Some(1000));
    r.push(2000, 500);
    assert_eq!(r.rate(5000), None);
    r.push(4000, 2500);
    assert_eq!(r.rate(5000), Some(1000));
    assert_eq!(r.rate(17500), None);
    r.reset();
    r.push(0, 0);
    r.push(0, 10);
    assert_eq!(r.rate(2000), Some(u64::MAX));
}

#[test]
fn tracker_updates() {
    let mut t = Tracker::new();
    assert_eq!(t.state, "Idle");
    t.update(0, DownloaderMsg::Starting(Some("T".to_string())));
    assert_eq!(t.state, "Starting");
    assert_eq!(t.title, Some("T".to_string()));
    let d = |b| DownloaderMsg::Downloading { downloaded_bytes: b, total_bytes: Some(10_000), frag_index: None, frag_count: None };
    t.update(0, d(1000));
    assert_eq!(t.state, "Downloading");
    assert_eq!(t.progress, Some(100_000));
    assert_eq!(t.rate, None);
    assert_eq!(t.eta, None);
    t.update(2000, d(3000));
    assert_eq!(t.rate, Some(1000));
    assert_eq!(t.rate_h, Some("1.0 KB/s".to_string()));
    assert_eq!(t.eta, Some(7));
    t.update(2500, DownloaderMsg::Stuck);
    assert_eq!(t.state, "Stuck");
    assert_eq!(t.progress, None);
    assert_eq!(t.rate, None);
    assert_eq!(t.eta, None);
    t.update(3000, DownloaderMsg::Hold("User hold".to_string()));
    assert_eq!(t.state, "Holding: User hold");
    t.update(3000, DownloaderMsg::QueueUpdate(vec!["a".to_string()]));
    assert_eq!(t.queue, vec!["a"]);
    t.update(3000, DownloaderMsg::Moved(None));
    assert_eq!(t.state, "Holding: User hold");
    t.update(4000, DownloaderMsg::Idle);
    assert_eq!(t.state, "Idle");
    assert_eq!(t.title, None);
}

#[test]
fn tracker_eta_needs_total_within_reach() {
    let mut t = Tracker::new();
    let d = |b, tot| DownloaderMsg::Downloading { downloaded_bytes: b, total_bytes: tot, frag_index: None, frag_count: None };
    t.update(0, d(0, None));
    t.update(2000, d(2000, None));
    assert_eq!(t.rate, Some(1000));
    assert_eq!(t.eta, None);
    t.update(4000, d(5000, Some(4000)));
    assert_eq!(t.eta, None);
    assert_eq!(t.progress, Some(1_000_000));
}
