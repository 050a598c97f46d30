use regmail::errors::CycleError;
use regmail::errors::MailboxError;
use regmail::mailbox::InMemoryMailbox;
use regmail::tracker::WatermarkTracker;
use regmail::tracker::POLL_ATTEMPTS;

fn bv(s: &str) -> Vec<u8> {
    s.as_bytes().to_vec()
}

#[test]
fn poll_at_watermark_reports_nothing_and_never_fetches() {
    let mut mb = InMemoryMailbox::new(12, bv("eaeaea x>482913</span>"), vec![]);
    // A fetch would fail loudly; the poll must not perform one.
    mb.fail_fetches = true;
    let mut tr = WatermarkTracker::new();
    tr.known_message_count = 12;
    assert_eq!(tr.poll_for_code(&mut mb), Ok(None));
    assert_eq!(tr.known_message_count, 12);
}

#[test]
fn poll_below_watermark_reports_nothing() {
    let mut mb = InMemoryMailbox::new(7, bv("eaeaea x>482913</span>"), vec![]);
    mb.fail_fetches = true;
    let mut tr = WatermarkTracker::new();
    tr.known_message_count = 9;
    assert_eq!(tr.poll_for_code(&mut mb), Ok(None));
    assert_eq!(tr.known_message_count, 9);
}

#[test]
fn poll_above_watermark_advances_even_without_code() {
    let mut mb = InMemoryMailbox::new(13, bv("no code in here"), vec![]);
    let mut tr = WatermarkTracker::new();
    tr.known_message_count = 12;
    assert_eq!(tr.poll_for_code(&mut mb), Ok(None));
    assert_eq!(tr.known_message_count, 13);
    // Idempotence: an immediate second poll of the unchanged mailbox.
    assert_eq!(tr.poll_for_code(&mut mb), Ok(None));
    assert_eq!(tr.known_message_count, 13);
}

#[test]
fn refresh_then_quiet_poll_reports_nothing() {
    let mut mb = InMemoryMailbox::new(12, bv("eaeaea x>482913</span>"), vec![]);
    let mut tr = WatermarkTracker::new();
    assert_eq!(tr.refresh_watermark(&mut mb), Ok(()));
    assert_eq!(tr.known_message_count, 12);
    assert_eq!(tr.poll_for_code(&mut mb), Ok(None));
    assert_eq!(tr.known_message_count, 12);
}

#[test]
fn new_mail_with_code_is_returned_and_watermark_advances() {
    let mut mb = InMemoryMailbox::new(12, bv("older mail"), vec![]);
    let mut tr = WatermarkTracker::new();
    assert_eq!(tr.refresh_watermark(&mut mb), Ok(()));
    // Registration submitted; one mail arrives.
    mb.total = 13;
    mb.newest_body = bv("<td bgcolor=eaeaea style=\"x\">482913</span></td>");
    let got = tr.poll_for_code(&mut mb).unwrap();
    assert_eq!(got, Some(bv("482913")));
    assert_eq!(tr.known_message_count, 13);
}

#[test]
fn refresh_failure_leaves_watermark() {
    let mut mb = InMemoryMailbox::new(4, bv(""), vec![]);
    mb.fail_queries = true;
    let mut tr = WatermarkTracker::new();
    tr.known_message_count = 2;
    assert_eq!(tr.refresh_watermark(&mut mb), Err(MailboxError::Protocol));
    assert_eq!(tr.known_message_count, 2);
}

#[test]
fn poll_fetch_failure_leaves_watermark() {
    let mut mb = InMemoryMailbox::new(13, bv("eaeaea x>482913</span>"), vec![]);
    mb.fail_fetches = true;
    let mut tr = WatermarkTracker::new();
    tr.known_message_count = 12;
    assert_eq!(tr.poll_for_code(&mut mb), Err(MailboxError::Protocol));
    assert_eq!(tr.known_message_count, 12);
}

#[test]
fn code_wait_stops_at_first_code() {
    // The code mail arrives during the second pause, so the third poll
    // finds it and no further poll runs: the later arrivals stay pending.
    let arrivals = vec![
        bv("unrelated mail"),
        bv("x eaeaea y>654321</span>"),
        bv("later one"),
        bv("later two"),
    ];
    let mut mb = InMemoryMailbox::new(5, bv("seed"), arrivals);
    let mut tr = WatermarkTracker::new();
    assert_eq!(tr.refresh_watermark(&mut mb), Ok(()));
    let got = tr.wait_for_code(&mut mb, POLL_ATTEMPTS).unwrap();
    assert_eq!(got, bv("654321"));
    assert_eq!(mb.pending(), 2);
}

#[test]
fn code_wait_times_out_when_no_mail_comes() {
    let mut mb = InMemoryMailbox::new(3, bv("quiet"), vec![]);
    let mut tr = WatermarkTracker::new();
    assert_eq!(tr.refresh_watermark(&mut mb), Ok(()));
    assert_eq!(tr.wait_for_code(&mut mb, 3), Err(CycleError::VerificationTimeout));
}

#[test]
fn code_wait_times_out_on_codeless_mail() {
    let arrivals = vec![bv("spam one"), bv("spam two")];
    let mut mb = InMemoryMailbox::new(0, bv(""), arrivals);
    let mut tr = WatermarkTracker::new();
    assert_eq!(tr.refresh_watermark(&mut mb), Ok(()));
    assert_eq!(tr.wait_for_code(&mut mb, 4), Err(CycleError::VerificationTimeout));
    assert_eq!(mb.pending(), 0);
}

#[test]
fn failure_kind_is_passed_through() {
    let mut mb = InMemoryMailbox::new(6, bv(""), vec![]);
    mb.fail_queries = true;
    mb.failure_kind = MailboxError::Connection;
    let mut tr = WatermarkTracker::new();
    assert_eq!(tr.refresh_watermark(&mut mb), Err(MailboxError::Connection));
    mb.failure_kind = MailboxError::Auth;
    assert_eq!(tr.poll_for_code(&mut mb), Err(MailboxError::Auth));
    assert_eq!(
        tr.wait_for_code(&mut mb, 2),
        Err(CycleError::Mailbox(MailboxError::Auth))
    );
}

#[test]
fn code_wait_propagates_mailbox_failure() {
    let mut mb = InMemoryMailbox::new(3, bv(""), vec![]);
    mb.fail_queries = true;
    let mut tr = WatermarkTracker::new();
    assert_eq!(
        tr.wait_for_code(&mut mb, 5),
        Err(CycleError::Mailbox(MailboxError::Protocol))
    );
}
