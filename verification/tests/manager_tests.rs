use yt_comment_fetcher::cursor::{Batch, Cursor, ErrorKind, Message};
use yt_comment_fetcher::manager::{Action, Event, Manager, SessionState};
use yt_comment_fetcher::resume_log::{
    frame_record, last_nonblank_line, parse_resume_info, recover_last, LogRead,
};

fn record(chat: &str, token: &str) -> String {
    format!(
        "{{\"items\":[{{\"snippet\":{{\"liveChatId\":\"{}\"}}}}],\"nextPageToken\":\"{}\"}}",
        chat, token
    )
}

fn full_batch(chat: &str, token: &str) -> Batch {
    Batch {
        items: vec![Message { stream_id: Some(chat.to_string()) }],
        page_token: Some(token.to_string()),
        record: record(chat, token),
    }
}

fn empty_batch(token: &str) -> Batch {
    Batch {
        items: vec![],
        page_token: Some(token.to_string()),
        record: format!("{{\"items\":[],\"nextPageToken\":\"{}\"}}", token),
    }
}

fn open_at(chat: &str, token: Option<&str>) -> Action {
    Action::Open { stream_id: chat.to_string(), page_token: token.map(|t| t.to_string()) }
}

/// Feeds one batch and performs the append that the manager asks for, if any.
fn deliver(m: &mut Manager, log: &mut String, batch: Batch, now: u64) {
    match m.step(false, Event::Batch(batch), now) {
        Action::Append { record } => {
            log.push_str(&frame_record(&record));
            assert_eq!(m.step(false, Event::Appended, now), Action::Receive);
        }
        Action::Receive => {}
        other => panic!("unexpected action {:?}", other),
    }
}

#[test]
fn fresh_start_scenario_logs_three_lines_and_recovers_last_token() {
    let mut m = Manager::new(Cursor::fresh("chat-1".to_string()), 5);
    let mut log = String::new();
    assert_eq!(m.due(), open_at("chat-1", None));
    assert_eq!(m.step(false, Event::Opened, 0), Action::Receive);

    deliver(&mut m, &mut log, full_batch("chat-1", "a"), 1);
    deliver(&mut m, &mut log, empty_batch("b"), 2);
    deliver(&mut m, &mut log, full_batch("chat-1", "c"), 3);

    assert_eq!(m.step(false, Event::EndOfStream, 10), Action::Wait { deadline: 15 });
    assert_eq!(m.state(), SessionState::ReconnectPending(15));
    assert_eq!(m.step(false, Event::DeadlineElapsed, 15), open_at("chat-1", Some("c")));
    assert_eq!(m.step(false, Event::Opened, 15), Action::Receive);

    deliver(&mut m, &mut log, full_batch("chat-1", "d"), 16);

    let lines: Vec<&str> = log.lines().collect();
    assert_eq!(lines.len(), 3);
    let tokens: Vec<Option<String>> =
        lines.iter().map(|l| parse_resume_info(l).unwrap().1).collect();
    assert_eq!(
        tokens,
        vec![Some("a".to_string()), Some("c".to_string()), Some("d".to_string())]
    );

    let recovered = recover_last(&LogRead::Contents(log)).unwrap().unwrap();
    assert_eq!(recovered.page_token, Some("d".to_string()));
    assert_eq!(recovered.stream_id, "chat-1".to_string());
    assert_eq!(m.cursor(), recovered);
}

#[test]
fn new_manager_is_disconnected_and_asks_to_open() {
    let cursor = Cursor { stream_id: "s".to_string(), page_token: Some("t0".to_string()) };
    let m = Manager::new(cursor.clone(), 7);
    assert_eq!(m.state(), SessionState::Disconnected);
    assert_eq!(m.cursor(), cursor);
    assert_eq!(m.wait(), 7);
    assert!(!m.is_terminated());
    assert_eq!(m.due(), open_at("s", Some("t0")));
}

#[test]
fn connect_failure_schedules_a_retry_after_the_fixed_wait() {
    let mut m = Manager::new(Cursor::fresh("s".to_string()), 5);
    assert_eq!(m.step(false, Event::ConnectFailed, 100), Action::Wait { deadline: 105 });
    assert_eq!(m.state(), SessionState::ReconnectPending(105));
    assert_eq!(m.due(), Action::Wait { deadline: 105 });
}

#[test]
fn deadline_that_has_not_passed_keeps_waiting() {
    let mut m = Manager::new(Cursor::fresh("s".to_string()), 5);
    m.step(false, Event::ConnectFailed, 100);
    assert_eq!(m.step(false, Event::DeadlineElapsed, 104), Action::Wait { deadline: 105 });
    assert_eq!(m.state(), SessionState::ReconnectPending(105));
    assert_eq!(m.step(false, Event::DeadlineElapsed, 105), open_at("s", None));
    assert_eq!(m.state(), SessionState::Disconnected);
}

#[test]
fn retry_deadline_saturates_at_the_end_of_the_clock() {
    let mut m = Manager::new(Cursor::fresh("s".to_string()), 10);
    assert_eq!(
        m.step(false, Event::ConnectFailed, u64::MAX - 3),
        Action::Wait { deadline: u64::MAX }
    );
}

#[test]
fn non_empty_batch_is_appended_before_the_cursor_moves() {
    let mut m = Manager::new(Cursor::fresh("s".to_string()), 5);
    m.step(false, Event::Opened, 0);
    let a = m.step(false, Event::Batch(full_batch("s", "a")), 1);
    assert_eq!(a, Action::Append { record: record("s", "a") });
    assert_eq!(m.cursor().page_token, None);
    assert_eq!(m.due(), Action::Append { record: record("s", "a") });
    assert_eq!(m.step(false, Event::Appended, 1), Action::Receive);
    assert_eq!(m.cursor().page_token, Some("a".to_string()));
}

#[test]
fn empty_batch_moves_the_cursor_without_an_append() {
    let mut m = Manager::new(Cursor::fresh("s".to_string()), 5);
    m.step(false, Event::Opened, 0);
    assert_eq!(m.step(false, Event::Batch(empty_batch("b")), 1), Action::Receive);
    assert_eq!(m.cursor().page_token, Some("b".to_string()));
    assert_eq!(m.state(), SessionState::Connected);
}

#[test]
fn batch_without_token_clears_the_cursor_token() {
    let mut m = Manager::new(
        Cursor { stream_id: "s".to_string(), page_token: Some("t".to_string()) },
        5,
    );
    m.step(false, Event::Opened, 0);
    let b = Batch { items: vec![], page_token: None, record: String::new() };
    assert_eq!(m.step(false, Event::Batch(b), 1), Action::Receive);
    assert_eq!(m.cursor().page_token, None);
}

#[test]
fn failed_append_is_fatal_and_leaves_the_cursor() {
    let mut m = Manager::new(Cursor::fresh("s".to_string()), 5);
    m.step(false, Event::Opened, 0);
    m.step(false, Event::Batch(full_batch("s", "a")), 1);
    assert_eq!(m.step(false, Event::AppendFailed, 1), Action::Fail(ErrorKind::IoError));
    assert!(m.is_terminated());
    assert_eq!(m.cursor().page_token, None);
    assert_eq!(m.step(false, Event::Opened, 2), Action::Stop);
}

#[test]
fn transport_failure_reconnects_with_the_token_of_the_last_batch() {
    let mut m = Manager::new(Cursor::fresh("s".to_string()), 3);
    let mut log = String::new();
    m.step(false, Event::Opened, 0);
    deliver(&mut m, &mut log, full_batch("s", "a"), 1);
    deliver(&mut m, &mut log, empty_batch("b"), 2);
    assert_eq!(m.step(false, Event::TransportFailed, 5), Action::Wait { deadline: 8 });
    assert_eq!(m.step(false, Event::DeadlineElapsed, 9), open_at("s", Some("b")));
    assert_eq!(log.lines().count(), 1);
}

#[test]
fn failure_before_any_batch_reconnects_without_a_token() {
    let mut m = Manager::new(Cursor::fresh("s".to_string()), 3);
    m.step(false, Event::Opened, 0);
    m.step(false, Event::TransportFailed, 1);
    assert_eq!(m.step(false, Event::DeadlineElapsed, 4), open_at("s", None));
}

#[test]
fn cancellation_wins_over_a_batch_that_is_ready() {
    let mut m = Manager::new(Cursor::fresh("s".to_string()), 5);
    m.step(false, Event::Opened, 0);
    let a = m.step(true, Event::Batch(full_batch("s", "a")), 1);
    assert_eq!(a, Action::Stop);
    assert_eq!(m.state(), SessionState::Terminated);
    assert_eq!(m.cursor().page_token, None);
    assert_eq!(m.due(), Action::Stop);
}

#[test]
fn cancellation_wins_over_an_elapsed_deadline() {
    let mut m = Manager::new(Cursor::fresh("s".to_string()), 1000000);
    m.step(false, Event::ConnectFailed, 0);
    assert_eq!(m.step(true, Event::DeadlineElapsed, 1000000), Action::Stop);
    assert!(m.is_terminated());
}

#[test]
fn cancellation_drops_a_batch_whose_append_is_outstanding() {
    let mut m = Manager::new(Cursor::fresh("s".to_string()), 5);
    m.step(false, Event::Opened, 0);
    m.step(false, Event::Batch(full_batch("s", "a")), 1);
    assert_eq!(m.step(true, Event::Appended, 1), Action::Stop);
    assert_eq!(m.cursor().page_token, None);
    assert_eq!(m.due(), Action::Stop);
}

#[test]
fn cancelling_twice_is_cancelling_once() {
    let mut m = Manager::new(Cursor::fresh("s".to_string()), 5);
    assert_eq!(m.step(true, Event::Opened, 0), Action::Stop);
    let after_first = (m.state(), m.cursor());
    assert_eq!(m.step(true, Event::Opened, 1), Action::Stop);
    assert_eq!((m.state(), m.cursor()), after_first);
}

#[test]
fn terminated_is_absorbing_for_every_event() {
    let events = vec![
        Event::Opened,
        Event::ConnectFailed,
        Event::Batch(full_batch("s", "z")),
        Event::EndOfStream,
        Event::TransportFailed,
        Event::Appended,
        Event::AppendFailed,
        Event::DeadlineElapsed,
    ];
    for e in events {
        let mut m = Manager::new(Cursor::fresh("s".to_string()), 5);
        m.step(true, Event::Opened, 0);
        assert_eq!(m.step(false, e, 1), Action::Stop);
        assert!(m.is_terminated());
        assert_eq!(m.cursor().page_token, None);
    }
}

#[test]
fn unexpected_events_repeat_the_due_action() {
    let mut m = Manager::new(Cursor::fresh("s".to_string()), 5);
    assert_eq!(m.step(false, Event::Batch(full_batch("s", "a")), 0), open_at("s", None));
    assert_eq!(m.state(), SessionState::Disconnected);
    m.step(false, Event::Opened, 0);
    assert_eq!(m.step(false, Event::Appended, 1), Action::Receive);
    assert_eq!(m.step(false, Event::DeadlineElapsed, 1), Action::Receive);
    m.step(false, Event::Batch(full_batch("s", "a")), 2);
    assert_eq!(
        m.step(false, Event::Batch(full_batch("s", "b")), 3),
        Action::Append { record: record("s", "a") }
    );
    assert_eq!(
        m.step(false, Event::TransportFailed, 3),
        Action::Append { record: record("s", "a") }
    );
    assert_eq!(m.cursor().page_token, None);
}

#[test]
fn every_delivered_batch_is_logged_in_order_across_failures() {
    let mut m = Manager::new(Cursor::fresh("s".to_string()), 2);
    let mut log = String::new();
    let mut now = 0;
    m.step(false, Event::Opened, now);
    let tokens = ["t1", "t2", "t3", "t4", "t5", "t6"];
    for (i, t) in tokens.iter().enumerate() {
        now += 1;
        deliver(&mut m, &mut log, full_batch("s", t), now);
        if i % 2 == 1 {
            let failure = if i % 4 == 1 { Event::TransportFailed } else { Event::EndOfStream };
            assert_eq!(m.step(false, failure, now), Action::Wait { deadline: now + 2 });
            if i == 3 {
                now += 2;
                m.step(false, Event::DeadlineElapsed, now);
                assert_eq!(m.step(false, Event::ConnectFailed, now), Action::Wait { deadline: now + 2 });
            }
            now += 2;
            assert_eq!(m.step(false, Event::DeadlineElapsed, now), open_at("s", Some(t)));
            assert_eq!(m.step(false, Event::Opened, now), Action::Receive);
        }
    }
    let logged: Vec<String> =
        log.lines().map(|l| parse_resume_info(l).unwrap().1.unwrap()).collect();
    assert_eq!(logged, tokens.iter().map(|t| t.to_string()).collect::<Vec<String>>());
    assert_eq!(last_nonblank_line(&log), Some(record("s", "t6")));
}

#[test]
fn resume_after_each_append_matches_the_cursor_at_that_point() {
    let mut m = Manager::new(Cursor::fresh("s".to_string()), 2);
    let mut log = String::new();
    m.step(false, Event::Opened, 0);
    for t in ["p", "q", "r"] {
        deliver(&mut m, &mut log, full_batch("s", t), 1);
        let recovered = recover_last(&LogRead::Contents(log.clone())).unwrap().unwrap();
        assert_eq!(recovered, m.cursor());
        assert_eq!(recovered.page_token, Some(t.to_string()));
    }
}

#[test]
fn batch_reports_emptiness_and_resume_point() {
    assert!(empty_batch("b").is_empty());
    assert_eq!(empty_batch("b").resume_point(), None);
    let b = full_batch("chat", "tok");
    assert!(!b.is_empty());
    assert_eq!(
        b.resume_point(),
        Some(Cursor { stream_id: "chat".to_string(), page_token: Some("tok".to_string()) })
    );
    let anonymous = Batch {
        items: vec![Message { stream_id: None }, Message { stream_id: Some("x".to_string()) }],
        page_token: None,
        record: String::new(),
    };
    assert_eq!(anonymous.resume_point(), None);
}

#[test]
fn error_kinds_split_into_fatal_and_retried() {
    assert!(ErrorKind::IoError.is_fatal());
    assert!(ErrorKind::ConfigError.is_fatal());
    assert!(!ErrorKind::ConnectError.is_fatal());
    assert!(!ErrorKind::TransportError.is_fatal());
}
