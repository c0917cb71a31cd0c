use rget::download::{Action, Download, DownloadRequest, Event, Phase, Step};
use rget::error::DownloadError;
use rget::metadata::ResponseHead;
use rget::output::OutputFile;
use rget::progress::ProgressMode;

fn request(target: &str, quiet: bool) -> DownloadRequest {
    DownloadRequest { target: String::from(target), quiet }
}

fn head(status: u16, length: Option<&str>, media_type: Option<&str>) -> ResponseHead {
    ResponseHead {
        status,
        content_length: length.map(|v| v.as_bytes().to_vec()),
        content_type: media_type.map(|v| v.as_bytes().to_vec()),
    }
}

fn texts(step: &Step) -> Vec<String> {
    step.report.iter().map(|line| line.plain_text()).collect()
}

fn respond(target: &str, quiet: bool, head: ResponseHead) -> Step {
    let first = Download::start(request(target, quiet));
    assert!(matches!(first.action, Action::Get { .. }));
    first.state.step(Event::Response(head))
}

#[test]
fn start_asks_for_the_parsed_url() {
    let first = Download::start(request("http://example.com/files/data.bin", false));
    assert_eq!(first.action, Action::Get { url: String::from("http://example.com/files/data.bin") });
    assert!(first.report.is_empty());
    assert_eq!(first.state.phase(), Phase::AwaitingResponse);
    assert_eq!(first.state.request(), &request("http://example.com/files/data.bin", false));
    assert_eq!(first.state.metadata(), None);
    assert_eq!(first.state.progress(), None);
}

#[test]
fn start_sends_the_url_as_the_parser_writes_it() {
    let first = Download::start(request("HTTP://EXAMPLE.com", true));
    assert_eq!(first.action, Action::Get { url: String::from("http://example.com/") });
    let first = Download::start(request("http://example.com/a/../b c", true));
    assert_eq!(first.action, Action::Get { url: String::from("http://example.com/b%20c") });
}

#[test]
fn unparsable_target_fails_with_invalid_url() {
    let first = Download::start(request("not a url", false));
    assert_eq!(
        first.action,
        Action::Finish(Err(DownloadError::InvalidUrl(url::ParseError::RelativeUrlWithoutBase)))
    );
    assert_eq!(first.state.phase(), Phase::Finished);
    assert!(first.report.is_empty());
}

#[test]
fn invalid_url_carries_the_reason() {
    let first = Download::start(request("http://", false));
    assert_eq!(
        first.action,
        Action::Finish(Err(DownloadError::InvalidUrl(url::ParseError::EmptyHost)))
    );
    let first = Download::start(request("http://example.com:99999/", false));
    assert_eq!(
        first.action,
        Action::Finish(Err(DownloadError::InvalidUrl(url::ParseError::InvalidPort)))
    );
    let first = Download::start(request("", false));
    assert_eq!(
        first.action,
        Action::Finish(Err(DownloadError::InvalidUrl(url::ParseError::RelativeUrlWithoutBase)))
    );
}

#[test]
fn nothing_is_sent_for_an_unparsable_target() {
    let first = Download::start(request("not a url", false));
    let state = first.state;
    let next = state.step(Event::Response(head(200, None, None)));
    assert_eq!(next.action, Action::Rejected);
    assert_eq!(next.state.phase(), Phase::Finished);
    let next = next.state.step(Event::Body(vec![1, 2, 3]));
    assert_eq!(next.action, Action::Rejected);
}

#[test]
fn begin_takes_the_outcome_of_parsing() {
    let first = Download::begin(request("anything", false), Ok(String::from("http://h/")));
    assert_eq!(first.action, Action::Get { url: String::from("http://h/") });
    assert_eq!(first.state.phase(), Phase::AwaitingResponse);
    let first = Download::begin(request("anything", false), Err(url::ParseError::InvalidPort));
    assert_eq!(
        first.action,
        Action::Finish(Err(DownloadError::InvalidUrl(url::ParseError::InvalidPort)))
    );
    assert_eq!(first.state.phase(), Phase::Finished);
}

#[test]
fn success_with_length_reports_and_fetches() {
    let next = respond(
        "http://example.com/files/data.bin",
        false,
        head(200, Some("1500"), Some("application/octet-stream")),
    );
    assert_eq!(next.action, Action::FetchBody);
    assert_eq!(
        texts(&next),
        vec![
            "HTTP request sent... 200 OK false",
            "Length: 1500 (1.46 KiB) false",
            "Type: application/octet-stream false",
            "Saving to: data.bin false",
        ]
    );
    assert_eq!(next.state.phase(), Phase::AwaitingBody);
    let metadata = next.state.metadata().unwrap();
    assert_eq!(metadata.status(), 200);
    assert_eq!(metadata.content_length(), Some(1500));
    assert_eq!(metadata.content_type(), Some("application/octet-stream"));
    let progress = next.state.progress().unwrap();
    assert_eq!(progress.mode(), ProgressMode::Bar(1500));
    assert_eq!(progress.label(), "data.bin");
    assert_eq!(progress.position(), 0);
    assert!(!progress.is_finished());
}

#[test]
fn readable_sizes_come_in_binary_units() {
    let cases = [
        ("15", "Length: 15 (15 B) false"),
        ("1024", "Length: 1024 (1.00 KiB) false"),
        ("1500000", "Length: 1500000 (1.43 MiB) false"),
        ("1500000000", "Length: 1500000000 (1.40 GiB) false"),
    ];
    for (length, line) in cases {
        let next = respond("http://example.com/f", false, head(200, Some(length), None));
        assert_eq!(texts(&next)[1], line);
    }
}

#[test]
fn status_is_shown_with_its_reason() {
    let cases = [
        (201, "HTTP request sent... 201 Created false"),
        (204, "HTTP request sent... 204 No Content false"),
        (301, "HTTP request sent... 301 Moved Permanently false"),
        (500, "HTTP request sent... 500 Internal Server Error false"),
        (299, "HTTP request sent... 299 <unknown status code> false"),
    ];
    for (status, line) in cases {
        let next = respond("http://example.com/f", false, head(status, None, None));
        assert_eq!(texts(&next)[0], line);
    }
}

#[test]
fn body_of_announced_length_is_written_whole() {
    let body = b"hello world".to_vec();
    let next = respond("http://example.com/files/data.bin", false, head(200, Some("11"), None));
    assert_eq!(next.state.progress().unwrap().mode(), ProgressMode::Bar(11));
    let written = next.state.step(Event::Body(body.clone()));
    assert_eq!(
        written.action,
        Action::Write(OutputFile { name: String::from("data.bin"), data: body })
    );
    assert!(written.report.is_empty());
    assert_eq!(written.state.phase(), Phase::AwaitingWrite);
    let progress = written.state.progress().unwrap();
    assert!(progress.is_finished());
    assert_eq!(progress.position(), 11);
    let done = written.state.step(Event::Written);
    assert_eq!(done.action, Action::Finish(Ok(())));
    assert_eq!(done.state.phase(), Phase::Finished);
    assert!(done.report.is_empty());
}

#[test]
fn round_trip_keeps_every_byte() {
    let served: Vec<u8> = (0..=255u8).cycle().take(70_000).collect();
    let length = served.len().to_string();
    let next = respond("http://127.0.0.1:8080/blob", false, head(200, Some(&length), None));
    assert_eq!(next.state.metadata().unwrap().content_length(), Some(70_000));
    let written = next.state.step(Event::Body(served.clone()));
    match written.action {
        Action::Write(file) => {
            assert_eq!(file.name, "blob");
            assert_eq!(file.data.len(), 70_000);
            assert_eq!(file.data, served);
        },
        other => panic!("{:?}", other),
    }
}

#[test]
fn missing_length_gives_a_spinner_and_the_file_is_written() {
    let next = respond("http://example.com/stream", false, head(200, None, Some("text/plain")));
    assert_eq!(next.action, Action::FetchBody);
    assert_eq!(
        texts(&next),
        vec![
            "HTTP request sent... 200 OK false",
            "Length: unknown false",
            "Type: text/plain false",
            "Saving to: stream false",
        ]
    );
    assert_eq!(next.state.progress().unwrap().mode(), ProgressMode::Spinner);
    let body = vec![7u8; 4096];
    let written = next.state.step(Event::Body(body.clone()));
    assert_eq!(
        written.action,
        Action::Write(OutputFile { name: String::from("stream"), data: body })
    );
    let progress = written.state.progress().unwrap();
    assert!(progress.is_finished());
    assert_eq!(progress.position(), 0);
}

#[test]
fn unparsable_length_counts_as_missing() {
    let next = respond("http://example.com/f", false, head(200, Some("12 bytes"), None));
    assert_eq!(texts(&next)[1], "Length: unknown false");
    assert_eq!(next.state.progress().unwrap().mode(), ProgressMode::Spinner);
    assert_eq!(next.state.metadata().unwrap().content_length(), None);
}

#[test]
fn missing_type_is_reported_as_unknown() {
    let next = respond("http://example.com/f", false, head(200, Some("1"), None));
    assert_eq!(texts(&next)[2], "Type: unknown false");
}

#[test]
fn empty_body_is_written_as_an_empty_file() {
    let next = respond("http://example.com/empty", false, head(200, Some("0"), None));
    assert_eq!(texts(&next)[1], "Length: 0 (0 B) false");
    let written = next.state.step(Event::Body(Vec::new()));
    assert_eq!(
        written.action,
        Action::Write(OutputFile { name: String::from("empty"), data: Vec::new() })
    );
}

#[test]
fn quiet_mode_hides_the_presenter_and_keeps_the_lines() {
    let quiet = respond("http://example.com/f.txt", true, head(200, Some("1500"), Some("text/plain")));
    let loud = respond("http://example.com/f.txt", false, head(200, Some("1500"), Some("text/plain")));
    assert_eq!(quiet.action, Action::FetchBody);
    let progress = quiet.state.progress().unwrap();
    assert_eq!(progress.mode(), ProgressMode::Hidden);
    assert!(!progress.is_visible());
    assert_eq!(
        texts(&quiet),
        vec![
            "HTTP request sent... 200 OK true",
            "Length: 1500 (1.46 KiB) true",
            "Type: text/plain true",
            "Saving to: f.txt true",
        ]
    );
    assert_eq!(quiet.report.len(), loud.report.len());
    for (q, l) in quiet.report.iter().zip(loud.report.iter()) {
        assert_eq!(q.spans[..q.spans.len() - 1], l.spans[..l.spans.len() - 1]);
    }
    let written = quiet.state.step(Event::Body(vec![1]));
    assert!(!written.state.progress().unwrap().is_visible());
    assert!(matches!(written.action, Action::Write(_)));
}

#[test]
fn not_found_ends_with_success_and_writes_nothing() {
    let next = respond("http://example.com/missing", false, head(404, Some("9"), Some("text/html")));
    assert_eq!(next.action, Action::Finish(Ok(())));
    assert_eq!(texts(&next), vec!["HTTP request sent... 404 Not Found false"]);
    assert_eq!(next.state.phase(), Phase::Finished);
    assert_eq!(next.state.metadata(), None);
    assert_eq!(next.state.progress(), None);
    let after = next.state.step(Event::Body(b"not found".to_vec()));
    assert_eq!(after.action, Action::Rejected);
    assert!(after.report.is_empty());
}

#[test]
fn every_status_outside_success_ends_the_download() {
    for status in [100, 101, 199, 300, 304, 400, 403, 500, 503, 999] {
        let next = respond("http://example.com/f", false, head(status, None, None));
        assert_eq!(next.action, Action::Finish(Ok(())), "{}", status);
        assert_eq!(next.report.len(), 1);
    }
    for status in [200, 201, 206, 299] {
        let next = respond("http://example.com/f", false, head(status, None, None));
        assert_eq!(next.action, Action::FetchBody, "{}", status);
        assert_eq!(next.report.len(), 4);
    }
}

#[test]
fn number_that_is_no_status_is_rejected() {
    for status in [0, 99, 1000, u16::MAX] {
        let next = respond("http://example.com/f", false, head(status, None, None));
        assert_eq!(next.action, Action::Rejected, "{}", status);
        assert!(next.report.is_empty());
        assert_eq!(next.state.phase(), Phase::AwaitingResponse);
    }
}

#[test]
fn transport_failure_before_the_response() {
    let first = Download::start(request("http://example.invalid/f", false));
    let next = first.state.step(Event::TransportFailure(String::from("dns error")));
    assert_eq!(
        next.action,
        Action::Finish(Err(DownloadError::TransportError(String::from("dns error"))))
    );
    assert_eq!(next.state.phase(), Phase::Finished);
    assert!(next.report.is_empty());
}

#[test]
fn transport_failure_while_the_body_arrives() {
    let next = respond("http://example.com/f", false, head(200, Some("10"), None));
    let failed = next.state.step(Event::TransportFailure(String::from("connection reset")));
    assert_eq!(
        failed.action,
        Action::Finish(Err(DownloadError::TransportError(String::from("connection reset"))))
    );
    assert_eq!(failed.state.phase(), Phase::Finished);
    assert!(!failed.state.progress().unwrap().is_finished());
}

#[test]
fn write_failure_ends_with_io_error() {
    let next = respond("http://example.com/dir/", false, head(200, None, None));
    assert_eq!(texts(&next)[3], "Saving to:  false");
    let written = next.state.step(Event::Body(vec![1, 2]));
    assert_eq!(
        written.action,
        Action::Write(OutputFile { name: String::new(), data: vec![1, 2] })
    );
    let failed = written.state.step(Event::WriteFailure(String::from("Is a directory")));
    assert_eq!(
        failed.action,
        Action::Finish(Err(DownloadError::IoError(String::from("Is a directory"))))
    );
    assert_eq!(failed.state.phase(), Phase::Finished);
}

#[test]
fn events_out_of_turn_are_rejected() {
    let first = Download::start(request("http://example.com/f", false));
    let next = first.state.step(Event::Body(vec![1]));
    assert_eq!(next.action, Action::Rejected);
    let next = next.state.step(Event::Written);
    assert_eq!(next.action, Action::Rejected);
    let next = next.state.step(Event::WriteFailure(String::from("x")));
    assert_eq!(next.action, Action::Rejected);
    assert_eq!(next.state.phase(), Phase::AwaitingResponse);

    let next = next.state.step(Event::Response(head(200, None, None)));
    assert_eq!(next.action, Action::FetchBody);
    let next = next.state.step(Event::Response(head(200, None, None)));
    assert_eq!(next.action, Action::Rejected);
    let next = next.state.step(Event::Written);
    assert_eq!(next.action, Action::Rejected);
    assert_eq!(next.state.phase(), Phase::AwaitingBody);

    let next = next.state.step(Event::Body(vec![1]));
    assert!(matches!(next.action, Action::Write(_)));
    let next = next.state.step(Event::Body(vec![1]));
    assert_eq!(next.action, Action::Rejected);
    let next = next.state.step(Event::TransportFailure(String::from("x")));
    assert_eq!(next.action, Action::Rejected);
    assert_eq!(next.state.phase(), Phase::AwaitingWrite);
}

#[test]
fn nothing_follows_the_end() {
    let next = respond("http://example.com/f", false, head(200, None, None));
    let next = next.state.step(Event::Body(vec![]));
    let done = next.state.step(Event::Written);
    assert_eq!(done.action, Action::Finish(Ok(())));
    let events = [
        Event::Response(head(200, None, None)),
        Event::TransportFailure(String::from("x")),
        Event::Body(vec![1]),
        Event::Written,
        Event::WriteFailure(String::from("x")),
    ];
    let mut state = done.state;
    for event in events {
        let next = state.step(event);
        assert_eq!(next.action, Action::Rejected);
        assert_eq!(next.state.phase(), Phase::Finished);
        state = next.state;
    }
}

#[test]
fn file_name_comes_from_the_target_as_given() {
    let next = respond("HTTP://EXAMPLE.com/a/../Some File.txt", false, head(200, None, None));
    assert_eq!(texts(&next)[3], "Saving to: Some File.txt false");
    let written = next.state.step(Event::Body(vec![0]));
    assert_eq!(
        written.action,
        Action::Write(OutputFile { name: String::from("Some File.txt"), data: vec![0] })
    );
}
