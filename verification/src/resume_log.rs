//! The resume log: an append-only text, one record per line, from which the
//! cursor of a restart is recovered.
//!
//! The log is read as lines. A line ends at a line feed; a carriage return just
//! before that line feed is not part of the line. The last line that is not
//! blank is the one that counts: the document on it names the stream (in the
//! first of its `items`) and the token to continue from.

use vstd::prelude::*;
use crate::cursor::{opt_text, Cursor, CursorView, ErrorKind};
use crate::json::{
    json_model, json_parse, parse_value, then_first, then_member, then_text, value_as_str,
    value_first, value_get, JsonModel,
};
use crate::text::{chars_of, joined, owned, text_of};

verus! {

/// Whether a character is white space.
pub open spec fn is_space(c: char) -> bool {
    let n = c as u32;
    ||| 0x09 <= n <= 0x0d
    ||| n == 0x20
    ||| n == 0x85
    ||| n == 0xa0
    ||| n == 0x1680
    ||| 0x2000 <= n <= 0x200a
    ||| n == 0x2028
    ||| n == 0x2029
    ||| n == 0x202f
    ||| n == 0x205f
    ||| n == 0x3000
}

/// Whether a text holds nothing but white space.
pub open spec fn is_blank(s: Seq<char>) -> bool {
    forall|i: int| 0 <= i < s.len() ==> is_space(#[trigger] s[i])
}

/// The position of the first line feed of a text, or its length where it has
/// none.
pub open spec fn first_newline(s: Seq<char>) -> int
    decreases s.len(),
{
    if s.len() == 0 {
        0
    } else if s[0] == '\n' {
        0
    } else {
        1 + first_newline(s.drop_first())
    }
}

/// A line without the carriage return that stood before its line feed.
pub open spec fn strip_cr(s: Seq<char>) -> Seq<char> {
    if s.len() > 0 && s.last() == '\r' {
        s.drop_last()
    } else {
        s
    }
}

/// The lines of a text. A text that does not end in a line feed has a last
/// line that runs to its end.
pub open spec fn lines_of(text: Seq<char>) -> Seq<Seq<char>>
    decreases text.len(),
{
    if text.len() == 0 {
        Seq::empty()
    } else {
        let n = first_newline(text);
        if n < 0 || n >= text.len() {
            seq![text]
        } else {
            seq![strip_cr(text.subrange(0, n))] + lines_of(text.subrange(n + 1, text.len() as int))
        }
    }
}

/// The last of the lines that is not blank.
pub open spec fn last_nonblank(lines: Seq<Seq<char>>) -> Option<Seq<char>>
    decreases lines.len(),
{
    if lines.len() == 0 {
        None
    } else if !is_blank(lines.last()) {
        Some(lines.last())
    } else {
        last_nonblank(lines.drop_last())
    }
}

/// The last line of a text that is not blank.
pub open spec fn last_line_of(text: Seq<char>) -> Option<Seq<char>> {
    last_nonblank(lines_of(text))
}

/// The stream that a record names: the text at `items[0].snippet.liveChatId`.
pub open spec fn record_stream_id(doc: JsonModel) -> Option<Seq<char>> {
    then_text(
        then_member(
            then_member(then_first(doc.member("items"@)), "snippet"@),
            "liveChatId"@,
        ),
    )
}

/// The token that a record carries: the text at `nextPageToken`.
pub open spec fn record_page_token(doc: JsonModel) -> Option<Seq<char>> {
    then_text(doc.member("nextPageToken"@))
}

/// The cursor that a record implies. A record that names no stream implies
/// none.
pub open spec fn cursor_of_record(doc: JsonModel) -> Option<CursorView> {
    match record_stream_id(doc) {
        Some(id) => Some(CursorView { stream_id: id, page_token: record_page_token(doc) }),
        None => None,
    }
}

/// The cursor that one line of the log implies. A line that is no JSON
/// document implies none.
pub open spec fn cursor_of_line(line: Seq<char>) -> Option<CursorView> {
    match json_parse(line) {
        Some(doc) => cursor_of_record(doc),
        None => None,
    }
}

/// The cursor that a log implies: that of its last line that is not blank.
pub open spec fn recovered(text: Seq<char>) -> Option<CursorView> {
    match last_line_of(text) {
        Some(line) => cursor_of_line(line),
        None => None,
    }
}

/// What a line does to the cursor when the log is replayed line by line: a
/// blank line leaves it, any other line replaces it by what the line implies.
pub open spec fn apply_line(c: Option<CursorView>, line: Seq<char>) -> Option<CursorView> {
    if is_blank(line) {
        c
    } else {
        cursor_of_line(line)
    }
}

/// The cursor after replaying lines in order, starting from `c`.
pub open spec fn replay_from(c: Option<CursorView>, lines: Seq<Seq<char>>) -> Option<CursorView>
    decreases lines.len(),
{
    if lines.len() == 0 {
        c
    } else {
        replay_from(apply_line(c, lines[0]), lines.drop_first())
    }
}

/// The cursor after replaying a whole log from its start.
pub open spec fn replayed(text: Seq<char>) -> Option<CursorView> {
    replay_from(None, lines_of(text))
}

/// The text that is written to the log for a record: the record and a line
/// feed.
pub open spec fn framed(record: Seq<char>) -> Seq<char> {
    record.push('\n')
}

/// Whether a text can stand as one record: it holds no line feed.
pub open spec fn is_single_line(record: Seq<char>) -> bool {
    forall|i: int| 0 <= i < record.len() ==> #[trigger] record[i] != '\n'
}

/// The first line feed is where the text before it has none and a line feed
/// stands, or at the end.
proof fn lemma_first_newline(s: Seq<char>, k: int)
    requires
        0 <= k <= s.len(),
        forall|i: int| 0 <= i < k ==> #[trigger] s[i] != '\n',
        k < s.len() ==> s[k] == '\n',
    ensures
        first_newline(s) == k,
    decreases s.len(),
{
    if s.len() == 0 {
    } else if k == 0 {
    } else {
        let t = s.drop_first();
        assert(s[0] != '\n');
        assert forall|i: int| 0 <= i < k - 1 implies #[trigger] t[i] != '\n' by {
            assert(t[i] == s[i + 1]);
        }
        lemma_first_newline(t, k - 1);
    }
}

/// Adding a line at the end: it counts if it is not blank, and otherwise the
/// lines before it decide.
proof fn lemma_last_nonblank_push(lines: Seq<Seq<char>>, line: Seq<char>)
    ensures
        last_nonblank(lines.push(line)) == if is_blank(line) {
            last_nonblank(lines)
        } else {
            Some(line)
        },
{
    let l = lines.push(line);
    assert(l.last() == line);
    assert(l.drop_last() =~= lines);
}

/// Whether a character is white space.
pub fn space(c: char) -> (r: bool)
    ensures
        r == is_space(c),
{
    let n: u32 = c as u32;
    (0x09 <= n && n <= 0x0d) || n == 0x20 || n == 0x85 || n == 0xa0 || n == 0x1680 || (0x2000 <= n
        && n <= 0x200a) || n == 0x2028 || n == 0x2029 || n == 0x202f || n == 0x205f || n == 0x3000
}

/// Whether `v[from..to]` holds nothing but white space.
fn blank_range(v: &Vec<char>, from: usize, to: usize) -> (r: bool)
    requires
        from <= to <= v.len(),
    ensures
        r == is_blank(v@.subrange(from as int, to as int)),
{
    let mut i: usize = from;
    while i < to
        invariant
            from <= i <= to <= v.len(),
            forall|j: int| from <= j < i ==> is_space(#[trigger] v@[j]),
        decreases to - i,
    {
        if !space(v[i]) {
            assert(v@.subrange(from as int, to as int)[i - from] == v@[i as int]);
            return false;
        }
        i = i + 1;
    }
    assert forall|j: int| 0 <= j < to - from implies is_space(
        #[trigger] v@.subrange(from as int, to as int)[j],
    ) by {
        assert(v@.subrange(from as int, to as int)[j] == v@[from + j]);
    }
    true
}

/// The position of the first line feed at or after `from`, or the length.
fn find_newline(v: &Vec<char>, from: usize) -> (n: usize)
    requires
        from <= v.len(),
    ensures
        from <= n <= v.len(),
        n - from == first_newline(v@.subrange(from as int, v.len() as int)),
{
    let mut n: usize = from;
    while n < v.len() && v[n] != '\n'
        invariant
            from <= n <= v.len(),
            forall|j: int| from <= j < n ==> #[trigger] v@[j] != '\n',
        decreases v.len() - n,
    {
        n = n + 1;
    }
    proof {
        let s = v@.subrange(from as int, v.len() as int);
        assert forall|i: int| 0 <= i < n - from implies #[trigger] s[i] != '\n' by {
            assert(s[i] == v@[from + i]);
        }
        lemma_first_newline(s, n - from);
    }
    n
}

/// The last line of a log that is not blank, if there is one.
pub fn last_nonblank_line(contents: &str) -> (r: Option<String>)
    ensures
        opt_text(r) == last_line_of(contents@),
{
    let v = chars_of(contents);
    let len = v.len();
    let mut pos: usize = 0;
    let mut found: bool = false;
    let mut from: usize = 0;
    let mut to: usize = 0;
    let ghost mut done: Seq<Seq<char>> = Seq::empty();
    assert(v@.subrange(0, len as int) =~= v@);
    while pos < len
        invariant
            len == v.len(),
            pos <= len,
            lines_of(v@) == done + lines_of(v@.subrange(pos as int, len as int)),
            from <= to <= len,
            found ==> last_nonblank(done) == Some(v@.subrange(from as int, to as int)),
            !found ==> last_nonblank(done) is None,
        decreases len - pos,
    {
        let ghost rest = v@.subrange(pos as int, len as int);
        let n = find_newline(&v, pos);
        let end: usize = if n < len && n > pos && v[n - 1] == '\r' {
            n - 1
        } else {
            n
        };
        let ghost line = v@.subrange(pos as int, end as int);
        proof {
            if n < len {
                assert(rest.subrange(0, n - pos) =~= v@.subrange(pos as int, n as int));
                assert(rest.subrange(n - pos + 1, rest.len() as int) =~= v@.subrange(
                    n + 1,
                    len as int,
                ));
                let whole = v@.subrange(pos as int, n as int);
                if n > pos && v@[n - 1] == '\r' {
                    assert(whole.last() == '\r');
                    assert(whole.drop_last() =~= line);
                } else {
                    if whole.len() > 0 {
                        assert(whole.last() == v@[n - 1]);
                    }
                    assert(whole =~= line);
                }
                assert(strip_cr(whole) == line);
                assert(lines_of(rest) == seq![line] + lines_of(v@.subrange(n + 1, len as int)));
                assert(done + (seq![line] + lines_of(v@.subrange(n + 1, len as int)))
                    =~= done.push(line) + lines_of(v@.subrange(n + 1, len as int)));
            } else {
                assert(line =~= rest);
                assert(lines_of(rest) == seq![rest]);
                assert(v@.subrange(len as int, len as int) =~= Seq::<char>::empty());
                assert(done + seq![rest] =~= done.push(line) + Seq::<Seq<char>>::empty());
            }
            lemma_last_nonblank_push(done, line);
        }
        if !blank_range(&v, pos, end) {
            found = true;
            from = pos;
            to = end;
        }
        proof {
            done = done.push(line);
        }
        pos = if n < len {
            n + 1
        } else {
            len
        };
    }
    assert(lines_of(v@.subrange(len as int, len as int)) =~= Seq::<Seq<char>>::empty());
    assert(done + Seq::<Seq<char>>::empty() =~= done);
    if found {
        Some(text_of(&v, from, to))
    } else {
        None
    }
}

/// A line of the log that could not be read as a record.
#[derive(Debug, Clone, Copy, PartialEq, Eq, Structural)]
pub struct MalformedRecord;

/// What a parsed record says of the position to resume from: the stream, at
/// `items[0].snippet.liveChatId`, and the token, at `nextPageToken`.
pub fn resume_info_of(doc: &serde_json::Value) -> (r: (Option<String>, Option<String>))
    ensures
        opt_text(r.0) == record_stream_id(json_model(*doc)),
        opt_text(r.1) == record_page_token(json_model(*doc)),
{
    let stream_id = match value_get(doc, "items") {
        Some(items) => match value_first(items) {
            Some(item) => match value_get(item, "snippet") {
                Some(snippet) => match value_get(snippet, "liveChatId") {
                    Some(id) => match value_as_str(id) {
                        Some(s) => Some(owned(s)),
                        None => None,
                    },
                    None => None,
                },
                None => None,
            },
            None => None,
        },
        None => None,
    };
    let page_token = match value_get(doc, "nextPageToken") {
        Some(token) => match value_as_str(token) {
            Some(s) => Some(owned(s)),
            None => None,
        },
        None => None,
    };
    (stream_id, page_token)
}

/// Reads one line of the log as a record. Fails exactly where the line is no
/// JSON document; a document that lacks the stream or the token gives `None`
/// in its place.
pub fn parse_resume_info(json_line: &str) -> (r: Result<
    (Option<String>, Option<String>),
    MalformedRecord,
>)
    ensures
        match json_parse(json_line@) {
            Some(doc) => r matches Ok(info) && opt_text(info.0) == record_stream_id(doc)
                && opt_text(info.1) == record_page_token(doc),
            None => r is Err,
        },
{
    match parse_value(json_line) {
        Ok(doc) => Ok(resume_info_of(&doc)),
        Err(_) => Err(MalformedRecord),
    }
}

/// The cursor that one line of the log implies.
pub fn cursor_from_line(line: &str) -> (r: Option<Cursor>)
    ensures
        match r {
            Some(c) => cursor_of_line(line@) == Some(c@),
            None => cursor_of_line(line@) is None,
        },
{
    match parse_resume_info(line) {
        Ok(info) => match info.0 {
            Some(stream_id) => Some(Cursor { stream_id, page_token: info.1 }),
            None => None,
        },
        Err(_) => None,
    }
}

/// What reading the log file gave.
#[derive(Debug, Clone, PartialEq, Eq)]
pub enum LogRead {
    /// There is no log file.
    Absent,
    /// The file is there and could not be read.
    Failed,
    /// The whole text of the file.
    Contents(String),
}

/// Recovers the cursor from what reading the log gave.
///
/// A missing file is an empty log. A read failure is an `IoError`. Otherwise
/// the last line that is not blank decides; where that line is malformed or
/// names no stream, there is nothing to resume from.
pub fn recover_last(read: &LogRead) -> (r: Result<Option<Cursor>, ErrorKind>)
    ensures
        match *read {
            LogRead::Absent => r matches Ok(None),
            LogRead::Failed => r matches Err(ErrorKind::IoError),
            LogRead::Contents(text) => match r {
                Ok(Some(c)) => recovered(text@) == Some(c@),
                Ok(None) => recovered(text@) is None,
                Err(_) => false,
            },
        },
{
    match read {
        LogRead::Absent => Ok(None),
        LogRead::Failed => Err(ErrorKind::IoError),
        LogRead::Contents(text) => match last_nonblank_line(text.as_str()) {
            Some(line) => Ok(cursor_from_line(line.as_str())),
            None => Ok(None),
        },
    }
}

/// Where the first line feed stands: nothing before it is a line feed, and a
/// line feed stands there unless the text has none.
proof fn lemma_first_newline_bounds(s: Seq<char>)
    ensures
        0 <= first_newline(s) <= s.len(),
        forall|i: int| 0 <= i < first_newline(s) ==> #[trigger] s[i] != '\n',
        first_newline(s) < s.len() ==> s[first_newline(s)] == '\n',
    decreases s.len(),
{
    if s.len() == 0 {
    } else if s[0] == '\n' {
    } else {
        let t = s.drop_first();
        lemma_first_newline_bounds(t);
        assert forall|i: int| 0 <= i < first_newline(s) implies #[trigger] s[i] != '\n' by {
            if i > 0 {
                assert(s[i] == t[i - 1]);
            }
        }
        if first_newline(s) < s.len() {
            assert(s[first_newline(s)] == t[first_newline(t)]);
        }
    }
}

/// Putting a line in front: the last line that counts is still found among the
/// lines behind it, and the new line counts only where none of them does.
proof fn lemma_last_nonblank_front(line: Seq<char>, lines: Seq<Seq<char>>)
    ensures
        last_nonblank(seq![line] + lines) == match last_nonblank(lines) {
            Some(l) => Some(l),
            None => if is_blank(line) {
                None
            } else {
                Some(line)
            },
        },
    decreases lines.len(),
{
    let all = seq![line] + lines;
    if lines.len() == 0 {
        assert(all =~= seq![line]);
        assert(all.last() == line);
        assert(all.drop_last() =~= Seq::<Seq<char>>::empty());
    } else {
        assert(all.last() == lines.last());
        assert(all.drop_last() =~= seq![line] + lines.drop_last());
        if is_blank(lines.last()) {
            lemma_last_nonblank_front(line, lines.drop_last());
        }
    }
}

/// Replaying lines in order ends with what the last line that is not blank
/// implies, and with the cursor it started from where every line is blank.
proof fn lemma_replay_ends_at_last(c: Option<CursorView>, lines: Seq<Seq<char>>)
    ensures
        replay_from(c, lines) == match last_nonblank(lines) {
            Some(l) => cursor_of_line(l),
            None => c,
        },
    decreases lines.len(),
{
    if lines.len() == 0 {
    } else {
        let rest = lines.drop_first();
        lemma_replay_ends_at_last(apply_line(c, lines[0]), rest);
        assert(seq![lines[0]] + rest =~= lines);
        lemma_last_nonblank_front(lines[0], rest);
    }
}

/// Resuming is replaying: the cursor recovered from the last line of a log is
/// the cursor that replaying the whole log from its start arrives at. This
/// holds of every text, so of the log as it stands after any append.
pub proof fn resume_is_replay(text: Seq<char>)
    ensures
        recovered(text) == replayed(text),
{
    lemma_replay_ends_at_last(None, lines_of(text));
}

/// One append adds one line: on a log that is empty or ends in a line feed,
/// appending a framed record leaves the lines that were there and adds the
/// record as the last line.
pub proof fn append_adds_one_line(log: Seq<char>, record: Seq<char>)
    requires
        log.len() == 0 || log.last() == '\n',
        is_single_line(record),
    ensures
        lines_of(log + framed(record)) == lines_of(log).push(strip_cr(record)),
    decreases log.len(),
{
    let fr = framed(record);
    let all = log + fr;
    if log.len() == 0 {
        assert(all =~= fr);
        assert forall|i: int| 0 <= i < record.len() implies #[trigger] fr[i] != '\n' by {
            assert(fr[i] == record[i]);
        }
        lemma_first_newline(fr, record.len() as int);
        assert(fr.subrange(0, record.len() as int) =~= record);
        assert(fr.subrange(record.len() as int + 1, fr.len() as int) =~= Seq::<char>::empty());
        assert(lines_of(Seq::<char>::empty()) =~= Seq::<Seq<char>>::empty());
        assert(lines_of(fr) == seq![strip_cr(record)] + lines_of(Seq::<char>::empty()));
        assert(lines_of(fr) =~= seq![strip_cr(record)]);
        assert(lines_of(log) =~= Seq::<Seq<char>>::empty());
        assert(lines_of(log).push(strip_cr(record)) =~= seq![strip_cr(record)]);
    } else {
        lemma_first_newline_bounds(log);
        let n = first_newline(log);
        if n >= log.len() {
            assert(log[log.len() - 1] != '\n');
        }
        assert(n < log.len());
        assert forall|i: int| 0 <= i < n implies #[trigger] all[i] != '\n' by {
            assert(all[i] == log[i]);
        }
        assert(all[n] == log[n]);
        lemma_first_newline(all, n);
        let rest = log.subrange(n + 1, log.len() as int);
        assert(all.subrange(0, n) =~= log.subrange(0, n));
        assert(all.subrange(n + 1, all.len() as int) =~= rest + fr);
        if rest.len() > 0 {
            assert(rest.last() == log.last());
        }
        append_adds_one_line(rest, record);
        let head = strip_cr(log.subrange(0, n));
        assert(lines_of(all) == seq![head] + lines_of(rest + fr));
        assert(lines_of(log) == seq![head] + lines_of(rest));
        assert(seq![head] + lines_of(rest).push(strip_cr(record)) =~= (seq![head] + lines_of(
            rest,
        )).push(strip_cr(record)));
    }
}

/// Resuming after an append: on a log that is empty or ends in a line feed, a
/// record that is not blank becomes the line that decides, and a blank one
/// changes nothing.
pub proof fn resume_after_append(log: Seq<char>, record: Seq<char>)
    requires
        log.len() == 0 || log.last() == '\n',
        is_single_line(record),
    ensures
        recovered(log + framed(record)) == if is_blank(strip_cr(record)) {
            recovered(log)
        } else {
            cursor_of_line(strip_cr(record))
        },
{
    append_adds_one_line(log, record);
    lemma_last_nonblank_push(lines_of(log), strip_cr(record));
}

/// The log that appending records one after another to an empty log leaves.
pub open spec fn log_of(records: Seq<Seq<char>>) -> Seq<char>
    decreases records.len(),
{
    if records.len() == 0 {
        Seq::empty()
    } else {
        log_of(records.drop_last()) + framed(records.last())
    }
}

/// A log that was only ever appended to is empty or ends in a line feed.
proof fn lemma_log_ends_in_newline(records: Seq<Seq<char>>)
    ensures
        log_of(records).len() == 0 || log_of(records).last() == '\n',
{
    if records.len() > 0 {
        let log = log_of(records.drop_last()) + framed(records.last());
        assert(log.last() == framed(records.last()).last());
    }
}

/// A restart reads what the last append wrote. In the log left by appending
/// records that each hold no line feed, the lines are the records in order,
/// and the cursor recovered is what the last record that is not blank implies.
/// This holds after every append, so a stop at any point between two appends
/// gives the cursor of the last record that reached the log.
pub proof fn resume_reads_last_record(records: Seq<Seq<char>>)
    requires
        forall|k: int| 0 <= k < records.len() ==> is_single_line(#[trigger] records[k]),
    ensures
        lines_of(log_of(records)) == records.map_values(|r: Seq<char>| strip_cr(r)),
        records.len() > 0 ==> recovered(log_of(records)) == if is_blank(
            strip_cr(records.last()),
        ) {
            recovered(log_of(records.drop_last()))
        } else {
            cursor_of_line(strip_cr(records.last()))
        },
    decreases records.len(),
{
    let stripped = records.map_values(|r: Seq<char>| strip_cr(r));
    if records.len() == 0 {
        assert(lines_of(log_of(records)) =~= stripped);
    } else {
        let before = records.drop_last();
        assert forall|k: int| 0 <= k < before.len() implies is_single_line(
            #[trigger] before[k],
        ) by {
            assert(before[k] == records[k]);
        }
        resume_reads_last_record(before);
        lemma_log_ends_in_newline(before);
        append_adds_one_line(log_of(before), records.last());
        resume_after_append(log_of(before), records.last());
        assert(before.map_values(|r: Seq<char>| strip_cr(r)).push(strip_cr(records.last()))
            =~= stripped);
    }
}

/// The text to append to the log for a record: the record and a line feed.
pub fn frame_record(record: &str) -> (r: String)
    ensures
        r@ == framed(record@),
{
    let r = joined(record, "\n");
    proof {
        reveal_strlit("\n");
        assert("\n"@ =~= seq!['\n']);
        assert(record@ + seq!['\n'] =~= record@.push('\n'));
    }
    r
}

} // verus!
