use bistro_native::printer::{
    tcp_address, Action, FailureKind, Outcome, PrintError, PrintJob, Stage, CONNECT_TIMEOUT_SECS,
};

fn failed(text: &str) -> Outcome {
    Outcome::Failed(text.to_string())
}

fn expect_fail(action: Action) -> PrintError {
    match action {
        Action::Fail(e) => e,
        other => panic!("expected a failure, got {:?}", other),
    }
}

#[test]
fn tcp_address_strips_prefix() {
    assert_eq!(tcp_address("tcp:192.168.1.50:9100"), Some("192.168.1.50:9100".to_string()));
}

#[test]
fn tcp_address_strips_repeated_prefix() {
    assert_eq!(tcp_address("tcp:tcp:10.0.0.2:9100"), Some("10.0.0.2:9100".to_string()));
}

#[test]
fn tcp_address_rejects_other_transports() {
    assert_eq!(tcp_address("usb:/dev/usb/lp0"), None);
    assert_eq!(tcp_address("serial:COM3"), None);
    assert_eq!(tcp_address("TCP:10.0.0.2:9100"), None);
    assert_eq!(tcp_address("tcp"), None);
    assert_eq!(tcp_address(""), None);
}

#[test]
fn tcp_address_of_bare_prefix_is_empty() {
    assert_eq!(tcp_address("tcp:"), Some(String::new()));
}

#[test]
fn unsupported_connection_fails_without_io() {
    let (job, action) = PrintJob::new("usb:EPSON-TM".to_string(), vec![1, 2, 3]);
    assert!(job.is_finished());
    let e = expect_fail(action);
    assert_eq!(e.kind, FailureKind::UnsupportedConnection);
    assert_eq!(e.message(), "Unsupported connection type: usb:EPSON-TM");
}

#[test]
fn unsupported_empty_connection() {
    let (job, action) = PrintJob::new(String::new(), vec![]);
    assert_eq!(job.stage, Stage::Finished);
    assert_eq!(expect_fail(action).message(), "Unsupported connection type: ");
}

#[test]
fn malformed_address_fails_before_connect() {
    let (mut job, action) = PrintJob::new("tcp:not-an-address".to_string(), vec![0x1b, 0x40]);
    match action {
        Action::ParseAddress(a) => assert_eq!(a, "not-an-address"),
        other => panic!("expected a parse request, got {:?}", other),
    }
    let e = expect_fail(job.advance(failed("invalid socket address syntax")));
    assert!(job.is_finished());
    assert_eq!(e.kind, FailureKind::InvalidAddress);
    assert_eq!(e.message(), "Invalid address: invalid socket address syntax");
}

#[test]
fn connect_uses_five_second_timeout_and_reports_failure() {
    let (mut job, _) = PrintJob::new("tcp:127.0.0.1:9".to_string(), vec![7]);
    match job.advance(Outcome::Succeeded) {
        Action::Connect { timeout_secs } => {
            assert_eq!(timeout_secs, 5);
            assert_eq!(timeout_secs, CONNECT_TIMEOUT_SECS);
        }
        other => panic!("expected a connect request, got {:?}", other),
    }
    let e = expect_fail(job.advance(failed("Connection refused (os error 111)")));
    assert_eq!(e.kind, FailureKind::Connect);
    assert_eq!(e.message(), "Failed to connect: Connection refused (os error 111)");
    assert!(job.is_finished());
}

#[test]
fn successful_job_writes_payload_unchanged() {
    let payload: Vec<u8> = vec![0x1b, 0x40, b'H', b'i', 0x0a, 0x00, 0xff, 0x1d, 0x56, 0x00];
    let (mut job, first) = PrintJob::new("tcp:192.168.1.50:9100".to_string(), payload.clone());
    match first {
        Action::ParseAddress(a) => assert_eq!(a, "192.168.1.50:9100"),
        other => panic!("expected a parse request, got {:?}", other),
    }
    assert!(matches!(job.advance(Outcome::Succeeded), Action::Connect { timeout_secs: 5 }));
    match job.advance(Outcome::Succeeded) {
        Action::Write(bytes) => assert_eq!(bytes, payload),
        other => panic!("expected a write request, got {:?}", other),
    }
    assert!(matches!(job.advance(Outcome::Succeeded), Action::Flush));
    assert!(matches!(job.advance(Outcome::Succeeded), Action::Done));
    assert!(job.is_finished());
    assert_eq!(job.data, payload);
}

#[test]
fn empty_payload_is_still_written() {
    let (mut job, _) = PrintJob::new("tcp:10.0.0.9:9100".to_string(), vec![]);
    job.advance(Outcome::Succeeded);
    match job.advance(Outcome::Succeeded) {
        Action::Write(bytes) => assert!(bytes.is_empty()),
        other => panic!("expected a write request, got {:?}", other),
    }
}

#[test]
fn write_failure_is_reported() {
    let (mut job, _) = PrintJob::new("tcp:10.0.0.9:9100".to_string(), vec![1]);
    job.advance(Outcome::Succeeded);
    job.advance(Outcome::Succeeded);
    let e = expect_fail(job.advance(failed("Broken pipe (os error 32)")));
    assert_eq!(e.kind, FailureKind::Write);
    assert_eq!(e.message(), "Failed to write: Broken pipe (os error 32)");
}

#[test]
fn flush_failure_is_reported() {
    let (mut job, _) = PrintJob::new("tcp:10.0.0.9:9100".to_string(), vec![1]);
    job.advance(Outcome::Succeeded);
    job.advance(Outcome::Succeeded);
    job.advance(Outcome::Succeeded);
    let e = expect_fail(job.advance(failed("Connection reset by peer (os error 104)")));
    assert_eq!(e.kind, FailureKind::Flush);
    assert_eq!(e.message(), "Failed to flush: Connection reset by peer (os error 104)");
    assert!(job.is_finished());
}

#[test]
fn interleaved_jobs_keep_their_own_targets() {
    let (mut a, first_a) = PrintJob::new("tcp:10.0.0.1:9100".to_string(), vec![b'A', b'A']);
    let (mut b, first_b) = PrintJob::new("tcp:10.0.0.2:9100".to_string(), vec![b'B']);
    match (first_a, first_b) {
        (Action::ParseAddress(x), Action::ParseAddress(y)) => {
            assert_eq!(x, "10.0.0.1:9100");
            assert_eq!(y, "10.0.0.2:9100");
        }
        other => panic!("expected two parse requests, got {:?}", other),
    }
    a.advance(Outcome::Succeeded);
    b.advance(Outcome::Succeeded);
    let wb = b.advance(Outcome::Succeeded);
    let wa = a.advance(Outcome::Succeeded);
    match (wa, wb) {
        (Action::Write(x), Action::Write(y)) => {
            assert_eq!(x, vec![b'A', b'A']);
            assert_eq!(y, vec![b'B']);
        }
        other => panic!("expected two write requests, got {:?}", other),
    }
    let e = expect_fail(b.advance(failed("Broken pipe")));
    assert_eq!(e.kind, FailureKind::Write);
    assert!(matches!(a.advance(Outcome::Succeeded), Action::Flush));
    assert!(matches!(a.advance(Outcome::Succeeded), Action::Done));
}
