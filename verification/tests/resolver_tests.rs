use yt_comment_fetcher::resolver::{
    chat_id_from_reply, chat_id_from_response, video_lookup_url, ResolveError,
};

#[test]
fn lookup_url_without_key() {
    assert_eq!(
        video_lookup_url("https://www.googleapis.com", "abc123", None),
        "https://www.googleapis.com/youtube/v3/videos?part=liveStreamingDetails&id=abc123"
            .to_string()
    );
}

#[test]
fn lookup_url_with_key() {
    assert_eq!(
        video_lookup_url("http://localhost:9000", "v", Some("K E&Y")),
        "http://localhost:9000/youtube/v3/videos?part=liveStreamingDetails&id=v&key=K E&Y"
            .to_string()
    );
}

#[test]
fn active_chat_is_resolved() {
    let body = "{\"items\":[{\"id\":\"v\",\"liveStreamingDetails\":{\"activeLiveChatId\":\"chat-42\",\"x\":1}},{\"liveStreamingDetails\":{\"activeLiveChatId\":\"second\"}}]}";
    assert_eq!(chat_id_from_response(true, body), Ok("chat-42".to_string()));
}

#[test]
fn failed_status_is_a_transport_error() {
    let body = "{\"items\":[{\"liveStreamingDetails\":{\"activeLiveChatId\":\"c\"}}]}";
    assert_eq!(chat_id_from_response(false, body), Err(ResolveError::TransportError));
}

#[test]
fn unreadable_answer_is_a_transport_error() {
    assert_eq!(chat_id_from_response(true, "<html>"), Err(ResolveError::TransportError));
    assert_eq!(chat_id_from_response(true, "{}"), Err(ResolveError::TransportError));
    assert_eq!(chat_id_from_response(true, "{\"items\":{}}"), Err(ResolveError::TransportError));
    assert_eq!(chat_id_from_response(true, "{\"items\":null}"), Err(ResolveError::TransportError));
    assert_eq!(chat_id_from_response(true, "[]"), Err(ResolveError::TransportError));
}

#[test]
fn no_video_is_not_found() {
    assert_eq!(chat_id_from_response(true, "{\"items\":[]}"), Err(ResolveError::NotFound));
}

#[test]
fn video_without_active_chat_is_not_live() {
    assert_eq!(
        chat_id_from_response(true, "{\"items\":[{\"id\":\"v\"}]}"),
        Err(ResolveError::NotLive)
    );
    assert_eq!(
        chat_id_from_response(true, "{\"items\":[{\"liveStreamingDetails\":{}}]}"),
        Err(ResolveError::NotLive)
    );
    assert_eq!(
        chat_id_from_response(true, "{\"items\":[{\"liveStreamingDetails\":{\"activeLiveChatId\":5}}]}"),
        Err(ResolveError::NotLive)
    );
    assert_eq!(
        chat_id_from_response(true, "{\"items\":[\"text\"]}"),
        Err(ResolveError::NotLive)
    );
}

#[test]
fn parsed_answer_is_read_the_same_way() {
    let doc: serde_json::Value =
        serde_json::from_str("{\"items\":[{\"liveStreamingDetails\":{\"activeLiveChatId\":\"c\"}}]}")
            .unwrap();
    assert_eq!(chat_id_from_reply(&doc), Ok("c".to_string()));
    let doc: serde_json::Value = serde_json::from_str("{\"items\":[]}").unwrap();
    assert_eq!(chat_id_from_reply(&doc), Err(ResolveError::NotFound));
}
