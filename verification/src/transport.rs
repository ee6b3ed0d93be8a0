//! What is asked of the streaming endpoint when a session is opened.
//!
//! A session is bound to one cursor: the request names the stream, and the
//! token to continue from where there is one. The caller makes the connection
//! and sends the request.

use vstd::prelude::*;
use crate::cursor::{copy_opt, opt_text, Cursor, CursorView, ErrorKind};
use crate::text::{chars_of, joined, owned};

verus! {

/// The request that opens a stream of chat messages.
#[derive(Debug, Clone, PartialEq, Eq)]
pub struct StreamRequest {
    /// The stream to read.
    pub live_chat_id: Option<String>,
    /// The token to continue from; absent on a fresh start.
    pub page_token: Option<String>,
    /// The parts of each message that are asked for.
    pub part: Vec<String>,
    /// The API key to send along as `x-goog-api-key`, where there is one.
    pub api_key: Option<String>,
}

/// A request as plain values.
pub struct StreamRequestView {
    pub live_chat_id: Option<Seq<char>>,
    pub page_token: Option<Seq<char>>,
    pub part: Seq<Seq<char>>,
    pub api_key: Option<Seq<char>>,
}

impl View for StreamRequest {
    type V = StreamRequestView;

    open spec fn view(&self) -> StreamRequestView {
        StreamRequestView {
            live_chat_id: opt_text(self.live_chat_id),
            page_token: opt_text(self.page_token),
            part: Seq::new(self.part@.len(), |i: int| self.part@[i]@),
            api_key: opt_text(self.api_key),
        }
    }
}

/// Whether `tonic` takes a text as an ASCII metadata value.
pub uninterp spec fn is_metadata_value(text: Seq<char>) -> bool;

/// `AsciiMetadataValue::try_from` for a text, kept as whether it succeeds.
/// Trusted: the conversion is a function of the text alone.
#[verifier::external_body]
fn metadata_accepts(text: &str) -> (r: bool)
    ensures
        r == is_metadata_value(text@),
{
    tonic::metadata::AsciiMetadataValue::try_from(text).is_ok()
}

/// The request that opens a session at a cursor.
pub open spec fn request_of(cursor: CursorView, api_key: Option<Seq<char>>) -> StreamRequestView {
    StreamRequestView {
        live_chat_id: Some(cursor.stream_id),
        page_token: cursor.page_token,
        part: seq!["snippet"@, "authorDetails"@],
        api_key,
    }
}

/// Builds the request that opens a session at a cursor: it names the stream,
/// carries the token where the cursor has one, and asks for the snippet and
/// the author details of each message. Fails with `ConnectError` exactly where
/// there is an API key that cannot be sent as metadata.
pub fn stream_request(cursor: &Cursor, api_key: &Option<String>) -> (r: Result<
    StreamRequest,
    ErrorKind,
>)
    ensures
        match r {
            Ok(request) => request@ == request_of(cursor@, opt_text(*api_key)) && (
            api_key matches Some(key) ==> is_metadata_value(key@)),
            Err(e) => e == ErrorKind::ConnectError && (api_key matches Some(key)
                && !is_metadata_value(key@)),
        },
{
    match api_key {
        Some(key) => {
            if !metadata_accepts(key.as_str()) {
                return Err(ErrorKind::ConnectError);
            }
        },
        None => {},
    }
    let mut part: Vec<String> = Vec::new();
    part.push(owned("snippet"));
    part.push(owned("authorDetails"));
    let request = StreamRequest {
        live_chat_id: Some(cursor.stream_id.clone()),
        page_token: copy_opt(&cursor.page_token),
        part,
        api_key: copy_opt(api_key),
    };
    assert(request@.part =~= seq!["snippet"@, "authorDetails"@]);
    Ok(request)
}

/// Whether a text starts with another.
pub open spec fn starts_with(text: Seq<char>, prefix: Seq<char>) -> bool {
    prefix.len() <= text.len() && text.subrange(0, prefix.len() as int) == prefix
}

/// Whether a text starts with another.
pub fn has_prefix(text: &str, prefix: &str) -> (r: bool)
    ensures
        r == starts_with(text@, prefix@),
{
    let t = chars_of(text);
    let p = chars_of(prefix);
    if p.len() > t.len() {
        return false;
    }
    let mut i: usize = 0;
    while i < p.len()
        invariant
            t@ == text@,
            p@ == prefix@,
            p.len() <= t.len(),
            i <= p.len(),
            forall|j: int| 0 <= j < i ==> t@[j] == p@[j],
        decreases p.len() - i,
    {
        if t[i] != p[i] {
            assert(t@.subrange(0, p.len() as int)[i as int] == t@[i as int]);
            return false;
        }
        i = i + 1;
    }
    assert(t@.subrange(0, p.len() as int) =~= p@);
    true
}

/// The address of the server with its scheme: an address that names `http`
/// or `https` stands as it is, any other gets `https://` in front.
pub open spec fn server_url_of(address: Seq<char>) -> Seq<char> {
    if starts_with(address, "http://"@) || starts_with(address, "https://"@) {
        address
    } else {
        "https://"@ + address
    }
}

/// The address of the server with its scheme.
pub fn server_url(address: &str) -> (url: String)
    ensures
        url@ == server_url_of(address@),
{
    if has_prefix(address, "http://") || has_prefix(address, "https://") {
        owned(address)
    } else {
        joined("https://", address)
    }
}

} // verus!
