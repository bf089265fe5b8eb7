use vstd::prelude::*;
use vstd::utf8::{decode_utf8, valid_utf8};

use crate::account::ConnectionDetails;
use crate::text::utf8_text;

verus! {

/// The mailbox that the cycle reads.
pub const MAILBOX: &'static str = "INBOX";

/// The message that the cycle fetches, by sequence number.
pub const SEQUENCE: &'static str = "1";

/// The fetch attribute asked for: the whole raw message.
pub const QUERY: &'static str = "RFC822";

/// Why a cycle stopped without a result or an IMAP error to report.
#[derive(PartialEq, Eq, Structural, Clone, Copy, Debug)]
pub enum AbortReason {
    /// The account's IMAP port does not fit in a TCP port number.
    PortOutOfRange,
    /// The fetched message came without a body.
    MissingBody,
    /// The fetched body is not UTF-8 text.
    InvalidUtf8,
    /// The body could not be written to the `emails` table.
    StoreFailed,
    /// An outcome arrived that the current step does not wait for.
    OutOfOrder,
}

/// Where a cycle stands.
#[derive(Debug, PartialEq, Eq)]
pub enum Stage {
    Connecting,
    Authenticating,
    Selecting,
    Fetching,
    LoggingOut { body: String },
    Storing { body: String },
    Finished,
    Failed,
    Aborted,
}

/// An outcome of the work that the previous action asked for.
#[derive(Debug, PartialEq, Eq)]
pub enum Event {
    /// The STARTTLS session is open.
    Connected,
    /// Login succeeded.
    LoggedIn,
    /// The mailbox is selected.
    Selected,
    /// The fetch returned: `None` when the mailbox holds no message, else the
    /// first message returned, with its body if it has one.
    Fetched { first: Option<Option<Vec<u8>>> },
    /// Logout succeeded.
    LoggedOut,
    /// The row was inserted into `emails`.
    Stored,
    /// The row could not be inserted.
    StoreFailed,
    /// Opening the STARTTLS session, or an IMAP command, failed with an
    /// error; the caller keeps it.
    ImapFailed,
}

/// The work that the caller must do next.
#[derive(Debug, PartialEq, Eq)]
pub enum Action {
    /// Open a STARTTLS-negotiated TLS session to this server.
    Connect { host: String, port: u16 },
    /// Log in with these credentials.
    Login { user: String, password: String },
    /// Select this mailbox.
    Select { mailbox: &'static str },
    /// Fetch this sequence set with this attribute.
    Fetch { sequence: &'static str, query: &'static str },
    /// Log out of the session.
    Logout,
    /// Open a writable database connection and insert this row into `emails`.
    Store { account: i64, body: String },
    /// The cycle is over: return this result.
    Finish { body: Option<String> },
    /// The cycle is over: return the IMAP error that was reported.
    Fail,
    /// The cycle is over and cannot go on.
    Abort { reason: AbortReason },
    /// Nothing is left to do: the cycle was already over.
    Idle,
}

/// One fetch-and-store cycle for one account.
pub struct FetchSession {
    pub details: ConnectionDetails,
    pub stage: Stage,
}

/// The mathematical model of a stage.
pub enum StageView {
    Connecting,
    Authenticating,
    Selecting,
    Fetching,
    LoggingOut { body: Seq<char> },
    Storing { body: Seq<char> },
    Finished,
    Failed,
    Aborted,
}

/// The mathematical model of an event.
pub enum EventView {
    Connected,
    LoggedIn,
    Selected,
    Fetched { first: Option<Option<Seq<u8>>> },
    LoggedOut,
    Stored,
    StoreFailed,
    ImapFailed,
}

/// The mathematical model of an action.
pub enum ActionView {
    Connect { host: Seq<char>, port: u16 },
    Login { user: Seq<char>, password: Seq<char> },
    Select { mailbox: Seq<char> },
    Fetch { sequence: Seq<char>, query: Seq<char> },
    Logout,
    Store { account: i64, body: Seq<char> },
    Finish { body: Option<Seq<char>> },
    Fail,
    Abort { reason: AbortReason },
    Idle,
}

/// The mathematical model of a cycle: whose account it serves, with which
/// credentials, and where it stands.
pub struct SessionView {
    pub account: i64,
    pub user: Seq<char>,
    pub password: Seq<char>,
    pub stage: StageView,
}

impl View for Stage {
    type V = StageView;

    open spec fn view(&self) -> StageView {
        match self {
            Stage::Connecting => StageView::Connecting,
            Stage::Authenticating => StageView::Authenticating,
            Stage::Selecting => StageView::Selecting,
            Stage::Fetching => StageView::Fetching,
            Stage::LoggingOut { body } => StageView::LoggingOut { body: body@ },
            Stage::Storing { body } => StageView::Storing { body: body@ },
            Stage::Finished => StageView::Finished,
            Stage::Failed => StageView::Failed,
            Stage::Aborted => StageView::Aborted,
        }
    }
}

impl View for Event {
    type V = EventView;

    open spec fn view(&self) -> EventView {
        match self {
            Event::Connected => EventView::Connected,
            Event::LoggedIn => EventView::LoggedIn,
            Event::Selected => EventView::Selected,
            Event::Fetched { first } => EventView::Fetched {
                first: match first {
                    None => None,
                    Some(None) => Some(None),
                    Some(Some(b)) => Some(Some(b@)),
                },
            },
            Event::LoggedOut => EventView::LoggedOut,
            Event::Stored => EventView::Stored,
            Event::StoreFailed => EventView::StoreFailed,
            Event::ImapFailed => EventView::ImapFailed,
        }
    }
}

impl View for Action {
    type V = ActionView;

    open spec fn view(&self) -> ActionView {
        match self {
            Action::Connect { host, port } => ActionView::Connect { host: host@, port: *port },
            Action::Login { user, password } => ActionView::Login {
                user: user@,
                password: password@,
            },
            Action::Select { mailbox } => ActionView::Select { mailbox: mailbox@ },
            Action::Fetch { sequence, query } => ActionView::Fetch {
                sequence: sequence@,
                query: query@,
            },
            Action::Logout => ActionView::Logout,
            Action::Store { account, body } => ActionView::Store { account: *account, body: body@ },
            Action::Finish { body } => ActionView::Finish {
                body: match body {
                    None => None,
                    Some(b) => Some(b@),
                },
            },
            Action::Fail => ActionView::Fail,
            Action::Abort { reason } => ActionView::Abort { reason: *reason },
            Action::Idle => ActionView::Idle,
        }
    }
}

impl View for FetchSession {
    type V = SessionView;

    open spec fn view(&self) -> SessionView {
        SessionView {
            account: self.details.account_id,
            user: self.details.email@,
            password: self.details.password@,
            stage: self.stage@,
        }
    }
}

/// Whether a port number fits a TCP port.
pub open spec fn port_in_range(port: i64) -> bool {
    0 <= port <= u16::MAX
}

/// A cycle that is over: whatever comes, it does nothing more.
pub open spec fn is_over(stage: StageView) -> bool {
    stage is Finished || stage is Failed || stage is Aborted
}

/// The cycle as it starts for the given account, and its first action.
pub open spec fn start_spec(d: ConnectionDetails) -> (SessionView, ActionView) {
    let s = SessionView {
        account: d.account_id,
        user: d.email@,
        password: d.password@,
        stage: StageView::Connecting,
    };
    if port_in_range(d.imap_port) {
        (s, ActionView::Connect { host: d.imap_server@, port: d.imap_port as u16 })
    } else {
        (
            SessionView { stage: StageView::Aborted, ..s },
            ActionView::Abort { reason: AbortReason::PortOutOfRange },
        )
    }
}

/// The session moved to another stage, with the action that goes with it.
pub open spec fn moved(s: SessionView, stage: StageView, a: ActionView) -> (
    SessionView,
    ActionView,
) {
    (SessionView { stage, ..s }, a)
}

/// What one outcome does to a cycle: its next state and the action that the
/// caller must take.
pub open spec fn step(s: SessionView, e: EventView) -> (SessionView, ActionView) {
    if is_over(s.stage) {
        (s, ActionView::Idle)
    } else {
        match (s.stage, e) {
            (StageView::Connecting, EventView::Connected) => moved(
                s,
                StageView::Authenticating,
                ActionView::Login { user: s.user, password: s.password },
            ),
            (StageView::Authenticating, EventView::LoggedIn) => moved(
                s,
                StageView::Selecting,
                ActionView::Select { mailbox: MAILBOX@ },
            ),
            (StageView::Selecting, EventView::Selected) => moved(
                s,
                StageView::Fetching,
                ActionView::Fetch { sequence: SEQUENCE@, query: QUERY@ },
            ),
            (StageView::Fetching, EventView::Fetched { first }) => match first {
                None => moved(s, StageView::Finished, ActionView::Finish { body: None }),
                Some(None) => moved(
                    s,
                    StageView::Aborted,
                    ActionView::Abort { reason: AbortReason::MissingBody },
                ),
                Some(Some(bytes)) => if valid_utf8(bytes) {
                    moved(s, StageView::LoggingOut { body: decode_utf8(bytes) }, ActionView::Logout)
                } else {
                    moved(
                        s,
                        StageView::Aborted,
                        ActionView::Abort { reason: AbortReason::InvalidUtf8 },
                    )
                },
            },
            (StageView::LoggingOut { body }, EventView::LoggedOut) => moved(
                s,
                StageView::Storing { body },
                ActionView::Store { account: s.account, body },
            ),
            (StageView::Storing { body }, EventView::Stored) => moved(
                s,
                StageView::Finished,
                ActionView::Finish { body: Some(body) },
            ),
            (StageView::Storing { .. }, EventView::StoreFailed) => moved(
                s,
                StageView::Aborted,
                ActionView::Abort { reason: AbortReason::StoreFailed },
            ),
            (StageView::Storing { .. }, _) => moved(
                s,
                StageView::Aborted,
                ActionView::Abort { reason: AbortReason::OutOfOrder },
            ),
            (_, EventView::ImapFailed) => moved(s, StageView::Failed, ActionView::Fail),
            _ => moved(
                s,
                StageView::Aborted,
                ActionView::Abort { reason: AbortReason::OutOfOrder },
            ),
        }
    }
}

impl FetchSession {
    /// Starts a cycle for the given account: connect to its IMAP server, or
    /// abort at once when its port cannot be a TCP port.
    pub fn start(details: ConnectionDetails) -> (r: (FetchSession, Action))
        ensures
            r.0@ == start_spec(details).0,
            r.1@ == start_spec(details).1,
    {
        if 0 <= details.imap_port && details.imap_port <= 65535 {
            let port = details.imap_port as u16;
            let host = details.imap_server.clone();
            (FetchSession { details, stage: Stage::Connecting }, Action::Connect { host, port })
        } else {
            (
                FetchSession { details, stage: Stage::Aborted },
                Action::Abort { reason: AbortReason::PortOutOfRange },
            )
        }
    }

    /// Takes the outcome of the last action and returns the next one.
    pub fn on_event(&mut self, event: Event) -> (a: Action)
        ensures
            final(self)@ == step(old(self)@, event@).0,
            a@ == step(old(self)@, event@).1,
            final(self).details == old(self).details,
    {
        let (stage, action) = match (&self.stage, event) {
            (Stage::Finished, _) => { return Action::Idle; },
            (Stage::Failed, _) => { return Action::Idle; },
            (Stage::Aborted, _) => { return Action::Idle; },
            (Stage::Connecting, Event::Connected) => (
                Stage::Authenticating,
                Action::Login {
                    user: self.details.email.clone(),
                    password: self.details.password.clone(),
                },
            ),
            (Stage::Authenticating, Event::LoggedIn) => (
                Stage::Selecting,
                Action::Select { mailbox: MAILBOX },
            ),
            (Stage::Selecting, Event::Selected) => (
                Stage::Fetching,
                Action::Fetch { sequence: SEQUENCE, query: QUERY },
            ),
            (Stage::Fetching, Event::Fetched { first }) => match first {
                None => (Stage::Finished, Action::Finish { body: None }),
                Some(None) => (Stage::Aborted, Action::Abort { reason: AbortReason::MissingBody }),
                Some(Some(bytes)) => match utf8_text(bytes.as_slice()) {
                    Some(text) => (Stage::LoggingOut { body: text.to_owned() }, Action::Logout),
                    None => (Stage::Aborted, Action::Abort { reason: AbortReason::InvalidUtf8 }),
                },
            },
            (Stage::LoggingOut { body }, Event::LoggedOut) => (
                Stage::Storing { body: body.clone() },
                Action::Store { account: self.details.account_id, body: body.clone() },
            ),
            (Stage::Storing { body }, Event::Stored) => (
                Stage::Finished,
                Action::Finish { body: Some(body.clone()) },
            ),
            (Stage::Storing { .. }, Event::StoreFailed) => (
                Stage::Aborted,
                Action::Abort { reason: AbortReason::StoreFailed },
            ),
            (Stage::Storing { .. }, _) => (
                Stage::Aborted,
                Action::Abort { reason: AbortReason::OutOfOrder },
            ),
            (_, Event::ImapFailed) => (Stage::Failed, Action::Fail),
            _ => (Stage::Aborted, Action::Abort { reason: AbortReason::OutOfOrder }),
        };
        self.stage = stage;
        action
    }
}

} // verus!
