//! The resilience manager: the state machine that decides, event by event,
//! what the stream client does next.
//!
//! The manager owns the session state and the cursor. It performs no I/O. Its
//! caller carries out each [`Action`] (open a session, wait for the next
//! batch, append a record to the log, sleep until a deadline) and reports the
//! outcome as an [`Event`], together with whether cancellation was requested
//! and what the clock shows. A non-empty batch is first handed out to be
//! appended; the cursor moves to its token only when the append is reported.

use vstd::prelude::*;
use crate::cursor::{copy_opt, opt_text, Batch, BatchView, Cursor, CursorView, ErrorKind};

verus! {

/// The state of the connection.
#[derive(Debug, Clone, Copy, PartialEq, Eq, Structural)]
pub enum SessionState {
    /// No session is open; the next thing to do is to open one.
    Disconnected,
    /// A session is open.
    Connected,
    /// The session was lost or could not be opened; a new attempt is due at
    /// the deadline.
    ReconnectPending(u64),
    /// The run has ended. Nothing follows.
    Terminated,
}

/// What the caller reports to the manager.
#[derive(Debug, Clone, PartialEq, Eq)]
pub enum Event {
    /// The session was opened.
    Opened,
    /// The session could not be opened.
    ConnectFailed,
    /// The server delivered a batch.
    Batch(Batch),
    /// The server closed the stream.
    EndOfStream,
    /// The transport failed in the middle of the stream.
    TransportFailed,
    /// The record was appended to the log and is durable.
    Appended,
    /// The record could not be appended to the log.
    AppendFailed,
    /// The wait for the reconnect deadline is over.
    DeadlineElapsed,
}

/// An event as plain values.
pub enum EventView {
    Opened,
    ConnectFailed,
    Batch(BatchView),
    EndOfStream,
    TransportFailed,
    Appended,
    AppendFailed,
    DeadlineElapsed,
}

impl View for Event {
    type V = EventView;

    open spec fn view(&self) -> EventView {
        match *self {
            Event::Opened => EventView::Opened,
            Event::ConnectFailed => EventView::ConnectFailed,
            Event::Batch(b) => EventView::Batch(b@),
            Event::EndOfStream => EventView::EndOfStream,
            Event::TransportFailed => EventView::TransportFailed,
            Event::Appended => EventView::Appended,
            Event::AppendFailed => EventView::AppendFailed,
            Event::DeadlineElapsed => EventView::DeadlineElapsed,
        }
    }
}

/// What the manager asks its caller to do next.
#[derive(Debug, Clone, PartialEq, Eq)]
pub enum Action {
    /// Open a session on the stream, continuing from the token where there
    /// is one. The credential is fetched anew for every open.
    Open { stream_id: String, page_token: Option<String> },
    /// Wait for what the session delivers next.
    Receive,
    /// Append the record to the log and make it durable.
    Append { record: String },
    /// Sleep until the deadline.
    Wait { deadline: u64 },
    /// The run has ended cleanly.
    Stop,
    /// The run has ended with a failure that is not recovered from.
    Fail(ErrorKind),
}

/// An action as plain values.
pub enum ActionView {
    Open { cursor: CursorView },
    Receive,
    Append { record: Seq<char> },
    Wait { deadline: u64 },
    Stop,
    Fail(ErrorKind),
}

impl View for Action {
    type V = ActionView;

    open spec fn view(&self) -> ActionView {
        match *self {
            Action::Open { stream_id, page_token } => ActionView::Open {
                cursor: CursorView { stream_id: stream_id@, page_token: opt_text(page_token) },
            },
            Action::Receive => ActionView::Receive,
            Action::Append { record } => ActionView::Append { record: record@ },
            Action::Wait { deadline } => ActionView::Wait { deadline },
            Action::Stop => ActionView::Stop,
            Action::Fail(kind) => ActionView::Fail(kind),
        }
    }
}

/// The manager as plain values.
pub struct ManagerModel {
    pub state: SessionState,
    pub cursor: CursorView,
    /// The fixed wait before a reconnect, in the unit of the caller's clock.
    pub wait: u64,
    /// A non-empty batch that was handed out to be appended and whose append
    /// has not been reported yet.
    pub pending: Option<BatchView>,
}

impl ManagerModel {
    /// Whether the manager is in order: a batch is outstanding only while a
    /// session is open, and only a batch that carries a message.
    pub open spec fn well_formed(self) -> bool {
        self.pending matches Some(b) ==> self.state == SessionState::Connected && !b.is_empty()
    }
}

/// The manager at the start of a run.
pub open spec fn initial(cursor: CursorView, wait: u64) -> ManagerModel {
    ManagerModel { state: SessionState::Disconnected, cursor, wait, pending: None }
}

/// The deadline of a reconnect that is scheduled at `now`: the fixed wait
/// later, and the last instant of the clock where that is out of its range.
pub open spec fn deadline_after(now: u64, wait: u64) -> u64 {
    if now + wait > u64::MAX {
        u64::MAX
    } else {
        (now + wait) as u64
    }
}

/// What the manager asks for while nothing new is reported: the action that
/// belongs to its state.
pub open spec fn due_action(m: ManagerModel) -> ActionView {
    match m.state {
        SessionState::Disconnected => ActionView::Open { cursor: m.cursor },
        SessionState::Connected => match m.pending {
            Some(b) => ActionView::Append { record: b.record },
            None => ActionView::Receive,
        },
        SessionState::ReconnectPending(deadline) => ActionView::Wait { deadline },
        SessionState::Terminated => ActionView::Stop,
    }
}

/// The manager with a reconnect scheduled at `now`.
pub open spec fn scheduled(m: ManagerModel, now: u64) -> ManagerModel {
    ManagerModel { state: SessionState::ReconnectPending(deadline_after(now, m.wait)), ..m }
}

/// The manager with its cursor moved to a token.
pub open spec fn advanced(m: ManagerModel, page_token: Option<Seq<char>>) -> ManagerModel {
    ManagerModel {
        cursor: CursorView { stream_id: m.cursor.stream_id, page_token },
        pending: None,
        ..m
    }
}

/// The manager after the run has ended.
pub open spec fn ended(m: ManagerModel) -> ManagerModel {
    ManagerModel { state: SessionState::Terminated, pending: None, ..m }
}

/// One step without cancellation, from a state that is not `Terminated`.
pub open spec fn react(m: ManagerModel, event: EventView, now: u64) -> (ManagerModel, ActionView) {
    match m.state {
        SessionState::Disconnected => match event {
            EventView::Opened => (
                ManagerModel { state: SessionState::Connected, ..m },
                ActionView::Receive,
            ),
            EventView::ConnectFailed => (
                scheduled(m, now),
                ActionView::Wait { deadline: deadline_after(now, m.wait) },
            ),
            _ => (m, due_action(m)),
        },
        SessionState::Connected => match m.pending {
            None => match event {
                EventView::Batch(b) => if b.is_empty() {
                    (advanced(m, b.page_token), ActionView::Receive)
                } else {
                    (
                        ManagerModel { pending: Some(b), ..m },
                        ActionView::Append { record: b.record },
                    )
                },
                EventView::EndOfStream => (
                    scheduled(m, now),
                    ActionView::Wait { deadline: deadline_after(now, m.wait) },
                ),
                EventView::TransportFailed => (
                    scheduled(m, now),
                    ActionView::Wait { deadline: deadline_after(now, m.wait) },
                ),
                _ => (m, due_action(m)),
            },
            Some(b) => match event {
                EventView::Appended => (advanced(m, b.page_token), ActionView::Receive),
                EventView::AppendFailed => (ended(m), ActionView::Fail(ErrorKind::IoError)),
                _ => (m, due_action(m)),
            },
        },
        SessionState::ReconnectPending(deadline) => match event {
            EventView::DeadlineElapsed => if now >= deadline {
                (
                    ManagerModel { state: SessionState::Disconnected, ..m },
                    ActionView::Open { cursor: m.cursor },
                )
            } else {
                (m, due_action(m))
            },
            _ => (m, due_action(m)),
        },
        SessionState::Terminated => (m, ActionView::Stop),
    }
}

/// One step of the manager: the state after it and the action it asks for.
///
/// `Terminated` is absorbing. Cancellation is looked at before the event: a
/// cancelled step ends the run whatever was reported.
pub open spec fn step_of(m: ManagerModel, cancelled: bool, event: EventView, now: u64) -> (
    ManagerModel,
    ActionView,
) {
    if m.state == SessionState::Terminated {
        (m, ActionView::Stop)
    } else if cancelled {
        (ended(m), ActionView::Stop)
    } else {
        react(m, event, now)
    }
}

/// The resilience manager.
pub struct Manager {
    state: SessionState,
    cursor: Cursor,
    wait: u64,
    pending: Option<Batch>,
}

impl View for Manager {
    type V = ManagerModel;

    closed spec fn view(&self) -> ManagerModel {
        ManagerModel {
            state: self.state,
            cursor: self.cursor@,
            wait: self.wait,
            pending: match self.pending {
                Some(b) => Some(b@),
                None => None,
            },
        }
    }
}

impl Manager {
    #[verifier::type_invariant]
    closed spec fn in_order(self) -> bool {
        self@.well_formed()
    }

    /// A manager at the start of a run: disconnected, at the given cursor,
    /// with the given wait before each reconnect.
    pub fn new(cursor: Cursor, wait: u64) -> (m: Manager)
        ensures
            m@ == initial(cursor@, wait),
            m@.well_formed(),
    {
        Manager { state: SessionState::Disconnected, cursor, wait, pending: None }
    }

    /// The state of the connection.
    pub fn state(&self) -> (s: SessionState)
        ensures
            s == self@.state,
    {
        self.state
    }

    /// The cursor as it stands.
    pub fn cursor(&self) -> (c: Cursor)
        ensures
            c@ == self@.cursor,
    {
        self.cursor.copy()
    }

    /// The fixed wait before a reconnect.
    pub fn wait(&self) -> (w: u64)
        ensures
            w == self@.wait,
    {
        self.wait
    }

    /// Whether the run has ended.
    pub fn is_terminated(&self) -> (r: bool)
        ensures
            r == (self@.state == SessionState::Terminated),
    {
        match self.state {
            SessionState::Terminated => true,
            _ => false,
        }
    }

    /// The action that belongs to the state as it stands. At the start of a
    /// run this is the first open.
    pub fn due(&self) -> (a: Action)
        ensures
            a@ == due_action(self@),
    {
        match self.state {
            SessionState::Disconnected => self.open_action(),
            SessionState::Connected => match &self.pending {
                Some(b) => Action::Append { record: b.record.clone() },
                None => Action::Receive,
            },
            SessionState::ReconnectPending(deadline) => Action::Wait { deadline },
            SessionState::Terminated => Action::Stop,
        }
    }

    fn open_action(&self) -> (a: Action)
        ensures
            a@ == (ActionView::Open { cursor: self@.cursor }),
    {
        Action::Open {
            stream_id: self.cursor.stream_id.clone(),
            page_token: copy_opt(&self.cursor.page_token),
        }
    }

    fn schedule(&mut self, now: u64) -> (a: Action)
        requires
            old(self)@.pending is None,
        ensures
            final(self)@ == scheduled(old(self)@, now),
            a@ == (ActionView::Wait { deadline: deadline_after(now, old(self)@.wait) }),
    {
        let deadline: u64 = match now.checked_add(self.wait) {
            Some(d) => d,
            None => u64::MAX,
        };
        self.state = SessionState::ReconnectPending(deadline);
        Action::Wait { deadline }
    }

    /// Takes one step: looks at cancellation first, then at the event, and
    /// says what to do next.
    pub fn step(&mut self, cancelled: bool, event: Event, now: u64) -> (a: Action)
        ensures
            final(self)@ == step_of(old(self)@, cancelled, event@, now).0,
            a@ == step_of(old(self)@, cancelled, event@, now).1,
            final(self)@.well_formed(),
    {
        proof {
            use_type_invariant(&*self);
        }
        match self.state {
            SessionState::Terminated => {
                return Action::Stop;
            },
            _ => {},
        }
        if cancelled {
            self.pending = None;
            self.state = SessionState::Terminated;
            return Action::Stop;
        }
        match self.state {
            SessionState::Disconnected => match event {
                Event::Opened => {
                    self.state = SessionState::Connected;
                    Action::Receive
                },
                Event::ConnectFailed => self.schedule(now),
                _ => self.due(),
            },
            SessionState::Connected => {
                let outstanding: Option<Option<String>> = match &self.pending {
                    Some(b) => Some(copy_opt(&b.page_token)),
                    None => None,
                };
                match outstanding {
                    None => match event {
                        Event::Batch(b) => {
                            if b.is_empty() {
                                self.cursor.page_token = b.page_token;
                                Action::Receive
                            } else {
                                let record = b.record.clone();
                                self.pending = Some(b);
                                Action::Append { record }
                            }
                        },
                        Event::EndOfStream => self.schedule(now),
                        Event::TransportFailed => self.schedule(now),
                        _ => self.due(),
                    },
                    Some(page_token) => match event {
                        Event::Appended => {
                            self.cursor.page_token = page_token;
                            self.pending = None;
                            Action::Receive
                        },
                        Event::AppendFailed => {
                            self.pending = None;
                            self.state = SessionState::Terminated;
                            Action::Fail(ErrorKind::IoError)
                        },
                        _ => self.due(),
                    },
                }
            },
            SessionState::ReconnectPending(deadline) => match event {
                Event::DeadlineElapsed => {
                    if now >= deadline {
                        self.state = SessionState::Disconnected;
                        self.open_action()
                    } else {
                        self.due()
                    }
                },
                _ => self.due(),
            },
            SessionState::Terminated => Action::Stop,
        }
    }
}

} // verus!
