use downd::{parse_progress_update_line, DownloaderMsg};

fn download(line: &str) -> (u64, Option<u64>, Option<u64>, Option<u64>) {
    match parse_progress_update_line(line) {
        Ok(DownloaderMsg::Downloading { downloaded_bytes, total_bytes, frag_index, frag_count }) => {
            (downloaded_bytes, total_bytes, frag_index, frag_count)
        }
        other => panic!("unexpected {:?}", other),
    }
}

#[test]
fn download_lines() {
    assert_eq!(download("DOWNLOAD|100|1000|NA|NA|"), (100, Some(1000), None, None));
    assert_eq!(download("DOWNLOAD|5|NA|3|10|"), (5, None, Some(3), Some(10)));
    assert_eq!(download("DOWNLOAD|0|NA|NA|NA|trailing"), (0, None, None, None));
    assert_eq!(download("DOWNLOAD|1|99999999999999999999999|NA|NA|"), (1, None, None, None));
}

#[test]
fn download_round_trip() {
    for (b, t, i, c) in [
        (0u64, None, None, None),
        (u64::MAX, Some(u64::MAX), Some(0), Some(7)),
        (123, Some(456), None, Some(9)),
    ] {
        let f = |v: Option<u64>| v.map(|x| x.to_string()).unwrap_or_else(|| "NA".to_string());
        let line = format!("DOWNLOAD|{}|{}|{}|{}|", b, f(t), f(i), f(c));
        assert_eq!(download(&line), (b, t, i, c));
    }
}

#[test]
fn title_lines() {
    match parse_progress_update_line("START|Some Title") {
        Ok(DownloaderMsg::Starting(Some(t))) => assert_eq!(t, "Some Title"),
        other => panic!("unexpected {:?}", other),
    }
    assert!(matches!(parse_progress_update_line("START|NA"), Ok(DownloaderMsg::Starting(None))));
    match parse_progress_update_line("MOVED|Tïtle NA\r\n") {
        Ok(DownloaderMsg::Moved(Some(t))) => assert_eq!(t, "Tïtle NA"),
        other => panic!("unexpected {:?}", other),
    }
    assert!(matches!(parse_progress_update_line("MOVED|NA"), Ok(DownloaderMsg::Moved(None))));
}

#[test]
fn bad_progress_lines() {
    for line in ["", "DOWNLOAD|", "DOWNLOAD|x|NA|NA|NA|", "DOWNLOAD|1|NA|NA|", "DOWNLOAD|1|2|3|4", "download|1|NA|NA|NA|",
        "START|a\rb", "[download] 10%", "DOWNLOAD|99999999999999999999999|NA|NA|NA|"] {
        assert!(parse_progress_update_line(line).is_err(), "{}", line);
    }
}

#[test]
fn message_getters() {
    let m = DownloaderMsg::Downloading { downloaded_bytes: 100, total_bytes: Some(1000), frag_index: None, frag_count: None };
    assert_eq!(m.downloaded_bytes(), Some(100));
    assert_eq!(m.total_bytes(), Some(1000));
    assert_eq!(m.title(), None);
    assert_eq!(m.progress(), Some(100_000));
    let s = DownloaderMsg::Starting(Some("T".to_string()));
    assert_eq!(s.title(), Some(&"T".to_string()));
    assert_eq!(s.downloaded_bytes(), None);
    assert_eq!(DownloaderMsg::Idle.progress(), None);
}

#[test]
fn progress_formula() {
    let m = |b, t, i, c| DownloaderMsg::Downloading { downloaded_bytes: b, total_bytes: t, frag_index: i, frag_count: c };
    assert_eq!(m(500, Some(1000), Some(1), Some(4)).progress(), Some(375_000));
    assert_eq!(m(500, None, Some(1), Some(4)).progress(), Some(250_000));
    assert_eq!(m(3000, Some(1000), None, None).progress(), Some(1_000_000));
    assert_eq!(m(3000, Some(1000), Some(0), Some(4)).progress(), Some(1_000_000));
    assert_eq!(m(5, Some(0), None, None).progress(), None);
    assert_eq!(m(5, None, None, None).progress(), None);
}
