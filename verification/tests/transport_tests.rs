use yt_comment_fetcher::cursor::{Cursor, ErrorKind};
use yt_comment_fetcher::transport::{has_prefix, server_url, stream_request, StreamRequest};

#[test]
fn fresh_request_has_no_token() {
    let r = stream_request(&Cursor::fresh("chat".to_string()), &None);
    assert_eq!(
        r,
        Ok(StreamRequest {
            live_chat_id: Some("chat".to_string()),
            page_token: None,
            part: vec!["snippet".to_string(), "authorDetails".to_string()],
            api_key: None,
        })
    );
}

#[test]
fn resumed_request_carries_the_token_and_the_key() {
    let c = Cursor { stream_id: "chat".to_string(), page_token: Some("tok".to_string()) };
    let r = stream_request(&c, &Some("AIza-key_123".to_string()));
    assert_eq!(
        r,
        Ok(StreamRequest {
            live_chat_id: Some("chat".to_string()),
            page_token: Some("tok".to_string()),
            part: vec!["snippet".to_string(), "authorDetails".to_string()],
            api_key: Some("AIza-key_123".to_string()),
        })
    );
}

#[test]
fn key_that_is_no_metadata_is_a_connect_error() {
    let c = Cursor::fresh("chat".to_string());
    assert_eq!(stream_request(&c, &Some("line\nbreak".to_string())), Err(ErrorKind::ConnectError));
    assert_eq!(stream_request(&c, &Some("nul\0".to_string())), Err(ErrorKind::ConnectError));
}

#[test]
fn prefix_is_compared_character_by_character() {
    assert!(has_prefix("https://x", "https://"));
    assert!(has_prefix("abc", ""));
    assert!(has_prefix("", ""));
    assert!(has_prefix("abc", "abc"));
    assert!(!has_prefix("ab", "abc"));
    assert!(!has_prefix("abd", "abc"));
    assert!(has_prefix("éa", "é"));
}

#[test]
fn address_with_scheme_stands() {
    assert_eq!(server_url("https://youtube.googleapis.com"), "https://youtube.googleapis.com");
    assert_eq!(server_url("http://localhost:50051"), "http://localhost:50051");
    assert_eq!(server_url("http://"), "http://");
}

#[test]
fn address_without_scheme_gets_https() {
    assert_eq!(server_url("youtube.googleapis.com"), "https://youtube.googleapis.com");
    assert_eq!(server_url("localhost:50051"), "https://localhost:50051");
    assert_eq!(server_url(""), "https://");
    assert_eq!(server_url("HTTP://x"), "https://HTTP://x");
    assert_eq!(server_url("ftp://x"), "https://ftp://x");
    assert_eq!(server_url("http:/x"), "https://http:/x");
}
