use mail_fetch::account::ConnectionDetails;
use mail_fetch::session::{AbortReason, Action, Event, FetchSession, Stage, MAILBOX, QUERY, SEQUENCE};

fn details(account_id: i64, imap_port: i64) -> ConnectionDetails {
    ConnectionDetails {
        account_id,
        name: "Work".to_string(),
        email: "a@example.com".to_string(),
        password: "secret".to_string(),
        imap_server: "imap.example.com".to_string(),
        imap_port,
        smtp_server: "smtp.example.com".to_string(),
        smtp_port: 465,
    }
}

fn fetching(account_id: i64) -> FetchSession {
    let (mut session, _) = FetchSession::start(details(account_id, 993));
    session.on_event(Event::Connected);
    session.on_event(Event::LoggedIn);
    session.on_event(Event::Selected);
    session
}

#[test]
fn first_message_is_returned_and_stored() {
    let (mut session, action) = FetchSession::start(details(7, 993));
    assert_eq!(
        action,
        Action::Connect { host: "imap.example.com".to_string(), port: 993 }
    );
    assert_eq!(
        session.on_event(Event::Connected),
        Action::Login { user: "a@example.com".to_string(), password: "secret".to_string() }
    );
    assert_eq!(session.on_event(Event::LoggedIn), Action::Select { mailbox: "INBOX" });
    assert_eq!(
        session.on_event(Event::Selected),
        Action::Fetch { sequence: "1", query: "RFC822" }
    );
    let raw = b"Subject: hi\r\n\r\nbody".to_vec();
    assert_eq!(
        session.on_event(Event::Fetched { first: Some(Some(raw)) }),
        Action::Logout
    );
    assert_eq!(
        session.on_event(Event::LoggedOut),
        Action::Store { account: 7, body: "Subject: hi\r\n\r\nbody".to_string() }
    );
    assert_eq!(
        session.on_event(Event::Stored),
        Action::Finish { body: Some("Subject: hi\r\n\r\nbody".to_string()) }
    );
    assert_eq!(session.stage, Stage::Finished);
}

#[test]
fn empty_inbox_returns_nothing_and_stores_nothing() {
    let mut session = fetching(7);
    assert_eq!(
        session.on_event(Event::Fetched { first: None }),
        Action::Finish { body: None }
    );
    assert_eq!(session.on_event(Event::LoggedOut), Action::Idle);
    assert_eq!(session.on_event(Event::Stored), Action::Idle);
    assert_eq!(session.stage, Stage::Finished);
}

#[test]
fn invalid_utf8_body_aborts_before_storing() {
    let mut session = fetching(7);
    assert_eq!(
        session.on_event(Event::Fetched { first: Some(Some(vec![0x66, 0xff, 0xfe])) }),
        Action::Abort { reason: AbortReason::InvalidUtf8 }
    );
    assert_eq!(session.on_event(Event::LoggedOut), Action::Idle);
    assert_eq!(session.stage, Stage::Aborted);
}

#[test]
fn missing_body_aborts() {
    let mut session = fetching(7);
    assert_eq!(
        session.on_event(Event::Fetched { first: Some(None) }),
        Action::Abort { reason: AbortReason::MissingBody }
    );
}

#[test]
fn multibyte_body_is_decoded() {
    let mut session = fetching(2);
    let raw = "caf\u{e9} \u{1f600}".as_bytes().to_vec();
    assert_eq!(raw.len(), 10);
    assert_eq!(session.on_event(Event::Fetched { first: Some(Some(raw)) }), Action::Logout);
    assert_eq!(
        session.on_event(Event::LoggedOut),
        Action::Store { account: 2, body: "caf\u{e9} \u{1f600}".to_string() }
    );
}

#[test]
fn empty_body_is_stored_as_empty_text() {
    let mut session = fetching(4);
    session.on_event(Event::Fetched { first: Some(Some(Vec::new())) });
    assert_eq!(
        session.on_event(Event::LoggedOut),
        Action::Store { account: 4, body: String::new() }
    );
}

#[test]
fn port_out_of_range_aborts_at_start() {
    let (mut session, action) = FetchSession::start(details(7, 65536));
    assert_eq!(action, Action::Abort { reason: AbortReason::PortOutOfRange });
    assert_eq!(session.on_event(Event::Connected), Action::Idle);
    let (_, action) = FetchSession::start(details(7, -1));
    assert_eq!(action, Action::Abort { reason: AbortReason::PortOutOfRange });
}

#[test]
fn largest_port_is_accepted() {
    let (_, action) = FetchSession::start(details(7, 65535));
    assert_eq!(
        action,
        Action::Connect { host: "imap.example.com".to_string(), port: 65535 }
    );
}

#[test]
fn connect_failure_is_reported() {
    let (mut session, _) = FetchSession::start(details(7, 143));
    assert_eq!(session.on_event(Event::ImapFailed), Action::Fail);
    assert_eq!(session.stage, Stage::Failed);
    assert_eq!(session.on_event(Event::Connected), Action::Idle);
}

#[test]
fn imap_error_is_reported() {
    let (mut session, _) = FetchSession::start(details(7, 143));
    session.on_event(Event::Connected);
    assert_eq!(session.on_event(Event::ImapFailed), Action::Fail);
    assert_eq!(session.stage, Stage::Failed);
    assert_eq!(session.on_event(Event::LoggedIn), Action::Idle);
}

#[test]
fn logout_error_prevents_store() {
    let mut session = fetching(7);
    session.on_event(Event::Fetched { first: Some(Some(b"x".to_vec())) });
    assert_eq!(session.on_event(Event::ImapFailed), Action::Fail);
    assert_eq!(session.on_event(Event::LoggedOut), Action::Idle);
}

#[test]
fn store_failure_aborts() {
    let mut session = fetching(7);
    session.on_event(Event::Fetched { first: Some(Some(b"x".to_vec())) });
    session.on_event(Event::LoggedOut);
    assert_eq!(
        session.on_event(Event::StoreFailed),
        Action::Abort { reason: AbortReason::StoreFailed }
    );
}

#[test]
fn out_of_order_outcome_aborts() {
    let (mut session, _) = FetchSession::start(details(7, 993));
    assert_eq!(
        session.on_event(Event::Stored),
        Action::Abort { reason: AbortReason::OutOfOrder }
    );
}

#[test]
fn protocol_constants() {
    assert_eq!(MAILBOX, "INBOX");
    assert_eq!(SEQUENCE, "1");
    assert_eq!(QUERY, "RFC822");
}
