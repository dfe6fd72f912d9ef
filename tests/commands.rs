use downd::{parse_command, parse_int, DownloaderCommand};

#[test]
fn check_addurl() {
    let input = "add www.google.com\n";
    let cmd = DownloaderCommand::AddUrl("www.google.com".into());
    assert_eq!(input.parse(), Ok(cmd));
}

#[test]
fn check_pause() {
    let input = "Pause\n";
    let cmd = DownloaderCommand::Pause;
    assert_eq!(input.parse(), Ok(cmd));
}

#[test]
fn check_cancel() {
    let input = "cancel\n";
    let cmd = DownloaderCommand::Cancel;
    assert_eq!(input.parse(), Ok(cmd));
}

#[test]
fn check_resume() {
    let input = "RESUME\n";
    let cmd = DownloaderCommand::Resume;
    assert_eq!(input.parse(), Ok(cmd));
}

#[test]
fn check_uint_parse() {
    let input = "1234";
    assert_eq!(parse_int(input), Ok(("", 1234)));
    let input = "1234\n";
    assert_eq!(parse_int(input), Ok(("\n", 1234)));
}

#[test]
fn check_movedown() {
    let input = "down 4\n";
    let cmd = DownloaderCommand::MoveDown(4);
    assert_eq!(input.parse(), Ok(cmd));
}

#[test]
fn check_moveup() {
    let input = "Up 2\n";
    let cmd = DownloaderCommand::MoveUp(2);
    assert_eq!(input.parse(), Ok(cmd));
}

#[test]
fn check_delete() {
    let input = "DeLeTe 2\n";
    let cmd = DownloaderCommand::Delete(2);
    assert_eq!(input.parse(), Ok(cmd));
}

#[test]
fn add_keeps_url_bytes() {
    assert_eq!(parse_command("ADD  http://X/Ä?b=1\r\n"), Ok(DownloaderCommand::AddUrl("http://X/Ä?b=1".to_string())));
    assert_eq!(parse_command("add\tx y"), Ok(DownloaderCommand::AddUrl("x y".to_string())));
    assert_eq!(parse_command("add \n"), Ok(DownloaderCommand::AddUrl(String::new())));
}

#[test]
fn keyword_case_does_not_matter() {
    for line in ["pause", "PAUSE", "pAuSe"] {
        assert_eq!(parse_command(line), Ok(DownloaderCommand::Pause));
    }
    assert_eq!(parse_command("dOwN 7"), Ok(DownloaderCommand::MoveDown(7)));
}

#[test]
fn rejected_lines() {
    assert_eq!(parse_command(""), Err(()));
    assert_eq!(parse_command("addx"), Err(()));
    assert_eq!(parse_command("add x\ry"), Err(()));
    assert_eq!(parse_command("up"), Err(()));
    assert_eq!(parse_command("up x"), Err(()));
    assert_eq!(parse_command("delete 99999999999999999999999"), Err(()));
    assert_eq!(parse_command("hello"), Err(()));
}

#[test]
fn text_after_a_command_is_ignored() {
    assert_eq!(parse_command("cancel now"), Ok(DownloaderCommand::Cancel));
    assert_eq!(parse_command("up 3x"), Ok(DownloaderCommand::MoveUp(3)));
}

#[test]
fn parse_int_rejects() {
    assert_eq!(parse_int("x1"), Err(()));
    assert_eq!(parse_int("99999999999999999999999"), Err(()));
    assert_eq!(parse_int("12é"), Ok(("é", 12)));
}
