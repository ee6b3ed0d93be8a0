//! The data that flows through the stream client: cursors, batches and the
//! kinds of failure.

use vstd::prelude::*;

verus! {

/// The kinds of failure that the stream client distinguishes.
///
/// `ConnectError` and `TransportError` belong to the life of a stream and are
/// recovered from by reconnecting. `IoError` is a failure of the local log,
/// `ConfigError` a start that was asked for and cannot be made; both are fatal.
#[derive(Debug, Clone, Copy, PartialEq, Eq, Structural)]
pub enum ErrorKind {
    ConnectError,
    TransportError,
    IoError,
    ConfigError,
}

impl ErrorKind {
    /// Whether the failure ends the run. The others are retried.
    pub open spec fn fatal(self) -> bool {
        self == ErrorKind::IoError || self == ErrorKind::ConfigError
    }

    /// Whether the failure ends the run.
    pub fn is_fatal(&self) -> (r: bool)
        ensures
            r == self.fatal(),
    {
        match self {
            ErrorKind::IoError => true,
            ErrorKind::ConfigError => true,
            ErrorKind::ConnectError => false,
            ErrorKind::TransportError => false,
        }
    }
}

/// The characters of an optional text.
pub open spec fn opt_text(o: Option<String>) -> Option<Seq<char>> {
    match o {
        Some(s) => Some(s@),
        None => None,
    }
}

/// A copy of an optional text.
pub fn copy_opt(o: &Option<String>) -> (r: Option<String>)
    ensures
        opt_text(r) == opt_text(*o),
{
    match o {
        Some(s) => Some(s.clone()),
        None => None,
    }
}

/// A resumable position in a paginated stream.
#[derive(Debug, Clone, PartialEq, Eq)]
pub struct Cursor {
    /// The stream that the position belongs to.
    pub stream_id: String,
    /// The continuation token of the server; absent before the first batch.
    pub page_token: Option<String>,
}

/// A cursor as plain values.
pub struct CursorView {
    pub stream_id: Seq<char>,
    pub page_token: Option<Seq<char>>,
}

impl View for Cursor {
    type V = CursorView;

    open spec fn view(&self) -> CursorView {
        CursorView { stream_id: self.stream_id@, page_token: opt_text(self.page_token) }
    }
}

impl Cursor {
    /// The cursor of a fresh start on a stream: no token yet.
    pub fn fresh(stream_id: String) -> (c: Cursor)
        ensures
            c@ == (CursorView { stream_id: stream_id@, page_token: None }),
    {
        Cursor { stream_id, page_token: None }
    }

    /// A copy of the cursor.
    pub fn copy(&self) -> (c: Cursor)
        ensures
            c@ == self@,
    {
        Cursor { stream_id: self.stream_id.clone(), page_token: copy_opt(&self.page_token) }
    }
}

/// One message of a batch, as far as the client reads it.
#[derive(Debug, Clone, PartialEq, Eq)]
pub struct Message {
    /// The stream that the message says it belongs to.
    pub stream_id: Option<String>,
}

/// One unit that the server delivered.
#[derive(Debug, Clone, PartialEq, Eq)]
pub struct Batch {
    /// The messages of the batch, in the order of delivery. May be empty.
    pub items: Vec<Message>,
    /// The token to continue after this batch.
    pub page_token: Option<String>,
    /// The batch as one line of text, as it is written to the log.
    pub record: String,
}

/// A batch as plain values.
pub struct BatchView {
    pub stream_ids: Seq<Option<Seq<char>>>,
    pub page_token: Option<Seq<char>>,
    pub record: Seq<char>,
}

impl BatchView {
    /// Whether the batch carries no message.
    pub open spec fn is_empty(self) -> bool {
        self.stream_ids.len() == 0
    }

    /// The position from which a restart continues after this batch: the
    /// stream of its first message and its token. `None` where the batch has
    /// no message or the first message names no stream.
    pub open spec fn resume_point(self) -> Option<CursorView> {
        if self.stream_ids.len() > 0 {
            match self.stream_ids[0] {
                Some(id) => Some(CursorView { stream_id: id, page_token: self.page_token }),
                None => None,
            }
        } else {
            None
        }
    }
}

impl View for Batch {
    type V = BatchView;

    open spec fn view(&self) -> BatchView {
        BatchView {
            stream_ids: Seq::new(self.items@.len(), |i: int| opt_text(self.items@[i].stream_id)),
            page_token: opt_text(self.page_token),
            record: self.record@,
        }
    }
}

impl Batch {
    /// Whether the batch carries no message.
    pub fn is_empty(&self) -> (r: bool)
        ensures
            r == self@.is_empty(),
    {
        self.items.len() == 0
    }

    /// The position from which a restart continues after this batch.
    pub fn resume_point(&self) -> (r: Option<Cursor>)
        ensures
            match r {
                Some(c) => self@.resume_point() == Some(c@),
                None => self@.resume_point() is None,
            },
    {
        if self.items.len() > 0 {
            match &self.items[0].stream_id {
                Some(id) => Some(
                    Cursor { stream_id: id.clone(), page_token: copy_opt(&self.page_token) },
                ),
                None => None,
            }
        } else {
            None
        }
    }
}

} // verus!
