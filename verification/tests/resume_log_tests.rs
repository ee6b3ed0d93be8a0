use yt_comment_fetcher::cursor::{Cursor, ErrorKind};
use yt_comment_fetcher::resume_log::{
    cursor_from_line, frame_record, last_nonblank_line, parse_resume_info, recover_last, space,
    LogRead, MalformedRecord,
};
use yt_comment_fetcher::text::{chars_of, joined, owned, text_of};

#[test]
fn empty_log_has_no_last_line() {
    assert_eq!(last_nonblank_line(""), None);
}

#[test]
fn blank_lines_are_skipped() {
    assert_eq!(last_nonblank_line("\n\n  \n\t\n"), None);
    assert_eq!(last_nonblank_line("first\n\n   \n"), Some("first".to_string()));
    assert_eq!(last_nonblank_line("first\nsecond\n\n"), Some("second".to_string()));
}

#[test]
fn last_line_without_line_feed_counts() {
    assert_eq!(last_nonblank_line("first\nsecond"), Some("second".to_string()));
    assert_eq!(last_nonblank_line("only"), Some("only".to_string()));
}

#[test]
fn carriage_return_before_line_feed_is_dropped() {
    assert_eq!(last_nonblank_line("first\r\nsecond\r\n"), Some("second".to_string()));
    assert_eq!(last_nonblank_line("a\r\n\r\n"), Some("a".to_string()));
}

#[test]
fn carriage_return_elsewhere_is_kept() {
    assert_eq!(last_nonblank_line("abc\r"), Some("abc\r".to_string()));
    assert_eq!(last_nonblank_line("a\rb\n"), Some("a\rb".to_string()));
    assert_eq!(last_nonblank_line("x\r\r\n"), Some("x\r".to_string()));
}

#[test]
fn line_is_returned_with_its_inner_and_outer_spaces() {
    assert_eq!(last_nonblank_line("  a b  \n"), Some("  a b  ".to_string()));
}

#[test]
fn unicode_white_space_is_blank() {
    assert_eq!(last_nonblank_line("line\n\u{a0}\u{2003}\u{3000}\n"), Some("line".to_string()));
    assert_eq!(last_nonblank_line("\u{85}\u{1680}\u{2028}\u{2029}\u{202f}\u{205f}"), None);
}

#[test]
fn non_ascii_lines_are_returned_whole() {
    assert_eq!(last_nonblank_line("héllo wörld ✓\nnächste Zeile ✓\n"), Some("nächste Zeile ✓".to_string()));
}

#[test]
fn space_agrees_with_the_standard_library_on_every_character() {
    let mut c = 0u32;
    while c <= 0x10ffff {
        if let Some(ch) = char::from_u32(c) {
            assert_eq!(space(ch), ch.is_whitespace(), "U+{:04X}", c);
        }
        c += 1;
    }
}

#[test]
fn last_line_agrees_with_reading_lines_one_by_one() {
    let samples = [
        "", "\n", "a", "a\n", "a\nb", "a\n\nb\n", "a\r\nb\r\n", " \n \n", "a\n \r\n", "\r\n\r\n",
        "x\ry\n", "one\ntwo\nthree", "one\ntwo\n   ", "\u{a0}\n", "a\u{a0}\n", "\r", "a\r",
    ];
    for s in samples {
        let mut expected: Option<String> = None;
        for line in std::io::BufRead::lines(s.as_bytes()) {
            let line = line.unwrap();
            if !line.trim().is_empty() {
                expected = Some(line);
            }
        }
        assert_eq!(last_nonblank_line(s), expected, "{:?}", s);
    }
}

#[test]
fn record_with_stream_and_token_is_parsed() {
    let line = "{\"kind\":\"x\",\"items\":[{\"snippet\":{\"liveChatId\":\"chat-9\",\"type\":\"t\"}},{\"snippet\":{\"liveChatId\":\"other\"}}],\"nextPageToken\":\"tok-1\"}";
    assert_eq!(
        parse_resume_info(line),
        Ok((Some("chat-9".to_string()), Some("tok-1".to_string())))
    );
}

#[test]
fn record_without_items_has_no_stream() {
    assert_eq!(
        parse_resume_info("{\"nextPageToken\":\"t\"}"),
        Ok((None, Some("t".to_string())))
    );
    assert_eq!(
        parse_resume_info("{\"items\":[],\"nextPageToken\":\"t\"}"),
        Ok((None, Some("t".to_string())))
    );
    assert_eq!(
        parse_resume_info("{\"items\":{\"snippet\":{\"liveChatId\":\"c\"}},\"nextPageToken\":\"t\"}"),
        Ok((None, Some("t".to_string())))
    );
}

#[test]
fn record_fields_of_the_wrong_type_are_absent() {
    assert_eq!(
        parse_resume_info("{\"items\":[{\"snippet\":{\"liveChatId\":7}}],\"nextPageToken\":12}"),
        Ok((None, None))
    );
    assert_eq!(
        parse_resume_info("{\"items\":[{\"snippet\":\"s\"}],\"nextPageToken\":null}"),
        Ok((None, None))
    );
    assert_eq!(parse_resume_info("[1,2,3]"), Ok((None, None)));
    assert_eq!(parse_resume_info("\"text\""), Ok((None, None)));
}

#[test]
fn record_without_token_has_no_token() {
    assert_eq!(
        parse_resume_info("{\"items\":[{\"snippet\":{\"liveChatId\":\"c\"}}]}"),
        Ok((Some("c".to_string()), None))
    );
}

#[test]
fn record_with_escapes_is_unescaped() {
    assert_eq!(
        parse_resume_info("{\"items\":[{\"snippet\":{\"liveChatId\":\"a\\\"b\\u00e9\"}}],\"nextPageToken\":\"x\\ny\"}"),
        Ok((Some("a\"bé".to_string()), Some("x\ny".to_string())))
    );
}

#[test]
fn malformed_line_is_rejected() {
    assert_eq!(parse_resume_info("{\"items\":[{\"snip"), Err(MalformedRecord));
    assert_eq!(parse_resume_info("not json"), Err(MalformedRecord));
    assert_eq!(parse_resume_info(""), Err(MalformedRecord));
    assert_eq!(parse_resume_info("{} trailing"), Err(MalformedRecord));
}

#[test]
fn parsed_record_value_gives_resume_info() {
    let doc: serde_json::Value = serde_json::from_str(
        "{\"items\":[{\"snippet\":{\"liveChatId\":\"c1\"}}],\"nextPageToken\":\"n1\"}",
    )
    .unwrap();
    assert_eq!(
        yt_comment_fetcher::resume_log::resume_info_of(&doc),
        (Some("c1".to_string()), Some("n1".to_string()))
    );
}

#[test]
fn cursor_of_a_line_needs_a_stream() {
    assert_eq!(
        cursor_from_line("{\"items\":[{\"snippet\":{\"liveChatId\":\"c\"}}],\"nextPageToken\":\"t\"}"),
        Some(Cursor { stream_id: "c".to_string(), page_token: Some("t".to_string()) })
    );
    assert_eq!(
        cursor_from_line("{\"items\":[{\"snippet\":{\"liveChatId\":\"c\"}}]}"),
        Some(Cursor { stream_id: "c".to_string(), page_token: None })
    );
    assert_eq!(cursor_from_line("{\"nextPageToken\":\"t\"}"), None);
    assert_eq!(cursor_from_line("garbage"), None);
}

#[test]
fn missing_log_is_an_empty_log() {
    assert_eq!(recover_last(&LogRead::Absent), Ok(None));
}

#[test]
fn unreadable_log_is_an_io_error() {
    assert_eq!(recover_last(&LogRead::Failed), Err(ErrorKind::IoError));
}

#[test]
fn empty_or_blank_log_recovers_nothing() {
    assert_eq!(recover_last(&LogRead::Contents(String::new())), Ok(None));
    assert_eq!(recover_last(&LogRead::Contents("\n \n".to_string())), Ok(None));
}

#[test]
fn recovery_reads_the_last_record() {
    let log = "{\"items\":[{\"snippet\":{\"liveChatId\":\"c\"}}],\"nextPageToken\":\"one\"}\n\
               {\"items\":[{\"snippet\":{\"liveChatId\":\"c\"}}],\"nextPageToken\":\"two\"}\n\n";
    assert_eq!(
        recover_last(&LogRead::Contents(log.to_string())),
        Ok(Some(Cursor { stream_id: "c".to_string(), page_token: Some("two".to_string()) }))
    );
}

#[test]
fn malformed_last_line_recovers_nothing() {
    let log = "{\"items\":[{\"snippet\":{\"liveChatId\":\"c\"}}],\"nextPageToken\":\"one\"}\n\
               {\"items\":[{\"snippet\":{\"liveCh";
    assert_eq!(recover_last(&LogRead::Contents(log.to_string())), Ok(None));
}

#[test]
fn last_record_without_stream_recovers_nothing() {
    let log = "{\"items\":[{\"snippet\":{\"liveChatId\":\"c\"}}],\"nextPageToken\":\"one\"}\n\
               {\"items\":[],\"nextPageToken\":\"two\"}\n";
    assert_eq!(recover_last(&LogRead::Contents(log.to_string())), Ok(None));
}

#[test]
fn recovery_equals_replaying_every_line() {
    let records = [
        "{\"items\":[{\"snippet\":{\"liveChatId\":\"c\"}}],\"nextPageToken\":\"one\"}",
        "   ",
        "{\"items\":[],\"nextPageToken\":\"two\"}",
        "{\"items\":[{\"snippet\":{\"liveChatId\":\"d\"}}],\"nextPageToken\":\"three\"}",
        "",
        "broken {",
        "{\"items\":[{\"snippet\":{\"liveChatId\":\"e\"}}]}",
    ];
    let mut log = String::new();
    let mut replayed: Option<Cursor> = None;
    for r in records {
        log.push_str(&frame_record(r));
        if !r.trim().is_empty() {
            replayed = cursor_from_line(r);
        }
        assert_eq!(recover_last(&LogRead::Contents(log.clone())), Ok(replayed.clone()), "{:?}", r);
    }
}

#[test]
fn framed_record_ends_in_one_line_feed() {
    assert_eq!(frame_record("{\"a\":1}"), "{\"a\":1}\n".to_string());
    assert_eq!(frame_record(""), "\n".to_string());
}

#[test]
fn text_helpers_keep_every_character() {
    assert_eq!(chars_of("aé✓"), vec!['a', 'é', '✓']);
    assert_eq!(chars_of(""), Vec::<char>::new());
    let v = vec!['h', 'é', 'l', 'l', 'o'];
    assert_eq!(text_of(&v, 1, 4), "éll".to_string());
    assert_eq!(text_of(&v, 2, 2), String::new());
    assert_eq!(text_of(&v, 0, 5), "héllo".to_string());
    assert_eq!(owned("x y"), "x y".to_string());
    assert_eq!(joined("ab", "cd"), "abcd".to_string());
}
