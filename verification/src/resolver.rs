//! Resolving a video to the stream of its live chat: the address to ask, and
//! what the answer says.
//!
//! The caller sends the request and hands back the status and the body. Every
//! failure here is fatal at startup: nothing is retried at this layer.

use vstd::prelude::*;
use vstd::string::StringExecFns;
use crate::json::{
    json_model, json_parse, parse_value, then_text, value_as_array, value_as_str, value_get,
    JsonModel,
};
use crate::text::owned;

verus! {

/// Why a video could not be resolved to a stream.
#[derive(Debug, Clone, Copy, PartialEq, Eq, Structural)]
pub enum ResolveError {
    /// The video has no active live chat.
    NotLive,
    /// There is no such video.
    NotFound,
    /// The lookup failed: the status was no success, or the answer is not of
    /// the expected form.
    TransportError,
}

/// The text of an optional borrowed text.
pub open spec fn opt_str(o: Option<&str>) -> Option<Seq<char>> {
    match o {
        Some(s) => Some(s@),
        None => None,
    }
}

/// The address of the lookup of a video: the videos endpoint below the base
/// address, asking for the live streaming details of the video, with the API
/// key as a further parameter where there is one.
pub open spec fn lookup_url_of(base: Seq<char>, video_id: Seq<char>, api_key: Option<Seq<char>>) -> Seq<
    char,
> {
    let url = base + "/youtube/v3/videos?part=liveStreamingDetails&id="@ + video_id;
    match api_key {
        Some(key) => url + "&key="@ + key,
        None => url,
    }
}

/// The address of the lookup of a video.
pub fn video_lookup_url(rest_api_address: &str, video_id: &str, api_key: Option<&str>) -> (url:
    String)
    ensures
        url@ == lookup_url_of(rest_api_address@, video_id@, opt_str(api_key)),
{
    let mut url = String::from_str(rest_api_address);
    url.append("/youtube/v3/videos?part=liveStreamingDetails&id=");
    url.append(video_id);
    match api_key {
        Some(key) => {
            url.append("&key=");
            url.append(key);
        },
        None => {},
    }
    url
}

/// What the answer to a lookup says. The document must hold an array
/// `items`; an empty array means that there is no such video; the first
/// video must hold `liveStreamingDetails` with a text `activeLiveChatId`,
/// else it has no active live chat.
pub open spec fn resolve_outcome(doc: JsonModel) -> Result<Seq<char>, ResolveError> {
    match doc.member("items"@) {
        None => Err(ResolveError::TransportError),
        Some(items) => match items.elements() {
            None => Err(ResolveError::TransportError),
            Some(videos) => if videos.len() == 0 {
                Err(ResolveError::NotFound)
            } else {
                match videos[0].member("liveStreamingDetails"@) {
                    None => Err(ResolveError::NotLive),
                    Some(details) => match then_text(details.member("activeLiveChatId"@)) {
                        None => Err(ResolveError::NotLive),
                        Some(id) => Ok(id),
                    },
                }
            },
        },
    }
}

/// What a lookup comes to: a status that is no success and a body that is no
/// JSON document are failures of the lookup; otherwise the document decides.
pub open spec fn lookup_outcome(success: bool, body: Seq<char>) -> Result<Seq<char>, ResolveError> {
    if !success {
        Err(ResolveError::TransportError)
    } else {
        match json_parse(body) {
            None => Err(ResolveError::TransportError),
            Some(doc) => resolve_outcome(doc),
        }
    }
}

/// Whether a result holds the stream, or the error, that an outcome names.
pub open spec fn resolves_to(
    r: Result<String, ResolveError>,
    outcome: Result<Seq<char>, ResolveError>,
) -> bool {
    match r {
        Ok(id) => outcome == Ok::<Seq<char>, ResolveError>(id@),
        Err(e) => outcome == Err::<Seq<char>, ResolveError>(e),
    }
}

/// Reads the stream of the live chat out of the parsed answer to a lookup.
pub fn chat_id_from_reply(doc: &serde_json::Value) -> (r: Result<String, ResolveError>)
    ensures
        resolves_to(r, resolve_outcome(json_model(*doc))),
{
    let items = match value_get(doc, "items") {
        Some(items) => items,
        None => {
            return Err(ResolveError::TransportError);
        },
    };
    let videos = match value_as_array(items) {
        Some(videos) => videos,
        None => {
            return Err(ResolveError::TransportError);
        },
    };
    if videos.len() == 0 {
        return Err(ResolveError::NotFound);
    }
    let details = match value_get(&videos[0], "liveStreamingDetails") {
        Some(details) => details,
        None => {
            return Err(ResolveError::NotLive);
        },
    };
    match value_get(details, "activeLiveChatId") {
        Some(id) => match value_as_str(id) {
            Some(s) => Ok(owned(s)),
            None => Err(ResolveError::NotLive),
        },
        None => Err(ResolveError::NotLive),
    }
}

/// The stream of the live chat of a video, from the answer to its lookup.
/// `success` says whether the status was a success, `body` is the body of the
/// answer.
pub fn chat_id_from_response(success: bool, body: &str) -> (r: Result<String, ResolveError>)
    ensures
        resolves_to(r, lookup_outcome(success, body@)),
{
    if !success {
        return Err(ResolveError::TransportError);
    }
    match parse_value(body) {
        Ok(doc) => chat_id_from_reply(&doc),
        Err(_) => Err(ResolveError::TransportError),
    }
}

} // verus!
