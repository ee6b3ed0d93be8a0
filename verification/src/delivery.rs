//! What holds of every run of the manager.
//!
//! A run is a sequence of inputs, each a report of the caller. The history of a
//! run keeps, beside the manager, the batches that it took from the session,
//! those that it has finished with, and those whose record reached the log.
//! The laws below are stated over histories and proved for every sequence of
//! inputs, whatever the caller reports and in whatever order.

use vstd::prelude::*;
use crate::cursor::{BatchView, CursorView, ErrorKind};
use crate::manager::{
    deadline_after, ended, initial, step_of, ActionView, EventView, ManagerModel, SessionState,
};
use crate::resume_log::{
    cursor_of_line, is_blank, is_single_line, lines_of, log_of, recovered,
    resume_reads_last_record, strip_cr,
};

verus! {

/// One report of the caller.
pub struct Input {
    /// Whether cancellation was requested.
    pub cancelled: bool,
    /// What happened.
    pub event: EventView,
    /// What the clock shows.
    pub now: u64,
}

/// A run so far.
pub struct History {
    /// The manager as it stands.
    pub model: ManagerModel,
    /// The batches that the manager took from the session, in order.
    pub received: Seq<BatchView>,
    /// The batches that it has finished with, in order: an empty batch as soon
    /// as it is taken, any other when its append is reported.
    pub completed: Seq<BatchView>,
    /// The batches whose record was appended to the log, in order.
    pub logged: Seq<BatchView>,
}

/// Whether the manager takes a batch from the session in this step.
pub open spec fn takes_batch(m: ManagerModel, i: Input) -> bool {
    &&& m.state == SessionState::Connected
    &&& m.pending is None
    &&& !i.cancelled
    &&& i.event is Batch
}

/// Whether this step reports the append that the manager is waiting for.
pub open spec fn append_reported(m: ManagerModel, i: Input) -> bool {
    &&& m.state == SessionState::Connected
    &&& m.pending is Some
    &&& !i.cancelled
    &&& i.event is Appended
}

/// The history after one more input.
pub open spec fn extend(h: History, i: Input) -> History {
    let m = h.model;
    History {
        model: step_of(m, i.cancelled, i.event, i.now).0,
        received: if takes_batch(m, i) {
            h.received.push(i.event->Batch_0)
        } else {
            h.received
        },
        completed: if takes_batch(m, i) && i.event->Batch_0.is_empty() {
            h.completed.push(i.event->Batch_0)
        } else if append_reported(m, i) {
            h.completed.push(m.pending->0)
        } else {
            h.completed
        },
        logged: if append_reported(m, i) {
            h.logged.push(m.pending->0)
        } else {
            h.logged
        },
    }
}

/// The history of a run from a given manager.
pub open spec fn history(start: ManagerModel, inputs: Seq<Input>) -> History
    decreases inputs.len(),
{
    if inputs.len() == 0 {
        History {
            model: start,
            received: Seq::empty(),
            completed: Seq::empty(),
            logged: Seq::empty(),
        }
    } else {
        extend(history(start, inputs.drop_last()), inputs.last())
    }
}

/// The batches of a sequence that carry a message, in order.
pub open spec fn non_empty(s: Seq<BatchView>) -> Seq<BatchView>
    decreases s.len(),
{
    if s.len() == 0 {
        Seq::empty()
    } else if s.last().is_empty() {
        non_empty(s.drop_last())
    } else {
        non_empty(s.drop_last()).push(s.last())
    }
}

/// A batch whose append is outstanding, as a sequence of at most one.
pub open spec fn outstanding(m: ManagerModel) -> Seq<BatchView> {
    match m.pending {
        Some(b) => seq![b],
        None => Seq::empty(),
    }
}

/// The token that the cursor holds after a sequence of finished batches: that
/// of the last of them, and the token of the start where there is none.
pub open spec fn token_after(start: CursorView, completed: Seq<BatchView>) -> Option<Seq<char>> {
    if completed.len() > 0 {
        completed.last().page_token
    } else {
        start.page_token
    }
}

/// What every history of a run from the start has.
pub open spec fn consistent(start: ManagerModel, h: History) -> bool {
    let m = h.model;
    &&& m.wait == start.wait
    &&& m.cursor.stream_id == start.cursor.stream_id
    &&& m.cursor.page_token == token_after(start.cursor, h.completed)
    &&& m.well_formed()
    &&& h.logged == non_empty(h.completed)
    &&& m.state != SessionState::Terminated ==> h.received == h.completed + outstanding(m)
    &&& m.state == SessionState::Terminated ==> {
        ||| h.received == h.completed
        ||| exists|b: BatchView| !b.is_empty() && h.received == #[trigger] h.completed.push(b)
    }
}

/// Taking one more batch: it counts among those that carry a message exactly
/// where it carries one.
proof fn lemma_non_empty_push(s: Seq<BatchView>, b: BatchView)
    ensures
        non_empty(s.push(b)) == if b.is_empty() {
            non_empty(s)
        } else {
            non_empty(s).push(b)
        },
{
    let t = s.push(b);
    assert(t.last() == b);
    assert(t.drop_last() =~= s);
}

/// One step keeps a history consistent.
proof fn lemma_extend_consistent(start: ManagerModel, h: History, i: Input)
    requires
        consistent(start, h),
    ensures
        consistent(start, extend(h, i)),
{
    let m = h.model;
    let n = extend(h, i);
    if takes_batch(m, i) {
        let b = i.event->Batch_0;
        lemma_non_empty_push(h.completed, b);
        assert(h.completed + Seq::<BatchView>::empty() =~= h.completed);
        if b.is_empty() {
            assert(n.completed + Seq::<BatchView>::empty() =~= n.completed);
        } else {
            assert(h.completed + seq![b] =~= h.completed.push(b));
        }
    } else if append_reported(m, i) {
        let b = m.pending->0;
        lemma_non_empty_push(h.completed, b);
        assert(h.completed + seq![b] =~= h.completed.push(b));
        assert(n.completed + Seq::<BatchView>::empty() =~= n.completed);
    } else if m.state == SessionState::Terminated {
    } else if n.model.state == SessionState::Terminated {
        match m.pending {
            Some(b) => {
                assert(h.completed + seq![b] =~= h.completed.push(b));
            },
            None => {
                assert(h.completed + Seq::<BatchView>::empty() =~= h.completed);
            },
        }
    } else {
        assert(outstanding(n.model) == outstanding(m));
    }
}

/// Every history of a run from the start is consistent.
proof fn lemma_history_consistent(cursor: CursorView, wait: u64, inputs: Seq<Input>)
    ensures
        consistent(initial(cursor, wait), history(initial(cursor, wait), inputs)),
    decreases inputs.len(),
{
    let start = initial(cursor, wait);
    if inputs.len() == 0 {
        assert(history(start, inputs).completed + Seq::<BatchView>::empty() =~= Seq::<
            BatchView,
        >::empty());
    } else {
        lemma_history_consistent(cursor, wait, inputs.drop_last());
        lemma_extend_consistent(start, history(start, inputs.drop_last()), inputs.last());
    }
}

/// Delivery at least once. In every run, the log holds the non-empty batches
/// that the manager has finished with, in the order of delivery. While the run
/// goes on, the non-empty batches taken from the session are those in the log
/// and, behind them, the one whose append is outstanding, if any: none is
/// skipped, and none is logged out of order. When the run has ended, at most
/// the last batch taken is missing from the log.
pub proof fn every_batch_is_logged(cursor: CursorView, wait: u64, inputs: Seq<Input>)
    ensures
        ({
            let h = history(initial(cursor, wait), inputs);
            &&& h.logged == non_empty(h.completed)
            &&& h.model.state != SessionState::Terminated ==> non_empty(h.received) == h.logged
                + outstanding(h.model)
            &&& h.model.state == SessionState::Terminated ==> {
                ||| non_empty(h.received) == h.logged
                ||| non_empty(h.received).len() > 0 && non_empty(h.received).drop_last()
                    == h.logged
            }
        }),
{
    let start = initial(cursor, wait);
    let h = history(start, inputs);
    lemma_history_consistent(cursor, wait, inputs);
    if h.model.state != SessionState::Terminated {
        match h.model.pending {
            Some(b) => {
                assert(h.completed + seq![b] =~= h.completed.push(b));
                lemma_non_empty_push(h.completed, b);
                assert(h.logged + seq![b] =~= h.logged.push(b));
            },
            None => {
                assert(h.completed + Seq::<BatchView>::empty() =~= h.completed);
                assert(h.logged + Seq::<BatchView>::empty() =~= h.logged);
            },
        }
    } else {
        if h.received != h.completed {
            let b = choose|b: BatchView| !b.is_empty() && h.received == #[trigger] h.completed.push(b);
            lemma_non_empty_push(h.completed, b);
            assert(h.logged.push(b).drop_last() =~= h.logged);
        }
    }
}

/// The log comes before the cursor. In every run, the cursor holds the token
/// of the last batch that the manager has finished with (the token of the start
/// before the first), and a non-empty batch is finished with only when it is in
/// the log: where the cursor holds the token of a non-empty batch, that batch
/// is the last entry of the log.
pub proof fn cursor_never_passes_log(cursor: CursorView, wait: u64, inputs: Seq<Input>)
    ensures
        ({
            let h = history(initial(cursor, wait), inputs);
            &&& h.model.cursor.stream_id == cursor.stream_id
            &&& h.model.cursor.page_token == token_after(cursor, h.completed)
            &&& h.completed.len() > 0 && !h.completed.last().is_empty() ==> h.logged.len() > 0
                && h.logged.last() == h.completed.last()
        }),
{
    let h = history(initial(cursor, wait), inputs);
    lemma_history_consistent(cursor, wait, inputs);
    if h.completed.len() > 0 {
        assert(h.completed.drop_last().push(h.completed.last()) =~= h.completed);
        lemma_non_empty_push(h.completed.drop_last(), h.completed.last());
    }
}

/// The log comes before the advance. A non-empty batch that is taken on an
/// open session is handed out to be appended and the cursor stays where it
/// was; the cursor moves to the token of the batch when the append is
/// reported, and stays for good when the append is reported as failed.
pub proof fn log_comes_before_advance(m: ManagerModel, b: BatchView, now: u64)
    requires
        m.state == SessionState::Connected,
        m.pending is None,
        !b.is_empty(),
    ensures
        ({
            let (taken, first) = step_of(m, false, EventView::Batch(b), now);
            let (done, second) = step_of(taken, false, EventView::Appended, now);
            let (failed, third) = step_of(taken, false, EventView::AppendFailed, now);
            &&& first == (ActionView::Append { record: b.record })
            &&& taken.cursor == m.cursor
            &&& taken.pending == Some(b)
            &&& second == ActionView::Receive
            &&& done.cursor == (CursorView {
                stream_id: m.cursor.stream_id,
                page_token: b.page_token,
            })
            &&& done.pending is None
            &&& third == ActionView::Fail(ErrorKind::IoError)
            &&& failed.state == SessionState::Terminated
            &&& failed.cursor == m.cursor
        }),
{
}

/// An empty batch leaves no line in the log: no entry of the log of any run is
/// an empty batch.
pub proof fn empty_batches_are_not_logged(cursor: CursorView, wait: u64, inputs: Seq<Input>)
    ensures
        forall|k: int|
            0 <= k < history(initial(cursor, wait), inputs).logged.len() ==> !(
            #[trigger] history(initial(cursor, wait), inputs).logged[k]).is_empty(),
    decreases inputs.len(),
{
    if inputs.len() > 0 {
        empty_batches_are_not_logged(cursor, wait, inputs.drop_last());
        lemma_history_consistent(cursor, wait, inputs.drop_last());
    }
}

/// An empty batch moves the cursor and nothing else: taken on an open session,
/// it is not handed out to be appended, the manager goes on receiving, and the
/// cursor holds the token of the batch for the next request.
pub proof fn empty_batch_moves_cursor_only(m: ManagerModel, b: BatchView, now: u64)
    requires
        m.state == SessionState::Connected,
        m.pending is None,
        b.is_empty(),
    ensures
        ({
            let (after, action) = step_of(m, false, EventView::Batch(b), now);
            &&& action == ActionView::Receive
            &&& after.state == SessionState::Connected
            &&& after.pending is None
            &&& after.cursor.stream_id == m.cursor.stream_id
            &&& after.cursor.page_token == b.page_token
        }),
{
}

/// Reconnect continuity. Whenever the manager asks to open a session, it asks
/// with its cursor; and whenever it is disconnected or waiting to reconnect,
/// that cursor holds the token of the last batch taken from the session,
/// logged or not, and the token of the start where no batch was taken yet.
pub proof fn reconnect_continues_from_last_batch(
    cursor: CursorView,
    wait: u64,
    inputs: Seq<Input>,
    next: Input,
)
    ensures
        ({
            let h = history(initial(cursor, wait), inputs);
            let (after, action) = step_of(h.model, next.cancelled, next.event, next.now);
            &&& action is Open ==> action == (ActionView::Open { cursor: h.model.cursor })
            &&& (h.model.state == SessionState::Disconnected
                || h.model.state is ReconnectPending) ==> {
                &&& h.model.cursor == (CursorView {
                    stream_id: cursor.stream_id,
                    page_token: token_after(cursor, h.received),
                })
                &&& h.received.len() > 0 && h.received.last().page_token is Some
                    ==> h.model.cursor.page_token is Some
            }
        }),
{
    let h = history(initial(cursor, wait), inputs);
    lemma_history_consistent(cursor, wait, inputs);
    assert(h.completed + Seq::<BatchView>::empty() =~= h.completed);
}

/// A lost session is followed by a wait and then by an open from the cursor:
/// after a transport failure or the end of the stream the manager waits for the
/// deadline, and when the deadline has passed it asks to open with the cursor
/// it had when the session was lost.
pub proof fn failure_leads_to_reopen(m: ManagerModel, lost: EventView, now: u64, later: u64)
    requires
        m.state == SessionState::Connected,
        m.pending is None,
        lost == EventView::TransportFailed || lost == EventView::EndOfStream,
        later >= deadline_after(now, m.wait),
    ensures
        ({
            let (waiting, first) = step_of(m, false, lost, now);
            let (after, second) = step_of(waiting, false, EventView::DeadlineElapsed, later);
            &&& first == (ActionView::Wait { deadline: deadline_after(now, m.wait) })
            &&& waiting.cursor == m.cursor
            &&& second == (ActionView::Open { cursor: m.cursor })
            &&& after.state == SessionState::Disconnected
            &&& after.cursor == m.cursor
        }),
{
}

/// The records of a sequence of batches, in order.
pub open spec fn records_of(batches: Seq<BatchView>) -> Seq<Seq<char>> {
    batches.map_values(|b: BatchView| b.record)
}

/// Whether the record of a batch says what the batch holds: it is one line
/// that is not blank, and the cursor it implies is the stream of the first
/// message of the batch and the token of the batch.
pub open spec fn faithful(b: BatchView) -> bool {
    &&& is_single_line(b.record)
    &&& !is_blank(strip_cr(b.record))
    &&& cursor_of_line(strip_cr(b.record)) == b.resume_point()
}

/// A restart continues after the last batch in the log. Where the records of
/// the logged batches are faithful, the cursor recovered from the log that a
/// run has written is the position after the last batch that reached the log:
/// its stream and its token. A batch that was taken but did not reach the log
/// lies behind that position and is delivered again.
pub proof fn restart_resumes_after_last_logged_batch(
    cursor: CursorView,
    wait: u64,
    inputs: Seq<Input>,
)
    requires
        forall|k: int|
            0 <= k < history(initial(cursor, wait), inputs).logged.len() ==> faithful(
                #[trigger] history(initial(cursor, wait), inputs).logged[k],
            ),
    ensures
        ({
            let h = history(initial(cursor, wait), inputs);
            if h.logged.len() == 0 {
                recovered(log_of(records_of(h.logged))) is None
            } else {
                recovered(log_of(records_of(h.logged))) == h.logged.last().resume_point()
            }
        }),
{
    let h = history(initial(cursor, wait), inputs);
    let records = records_of(h.logged);
    assert forall|k: int| 0 <= k < records.len() implies is_single_line(#[trigger] records[k]) by {
        assert(faithful(h.logged[k]));
    }
    resume_reads_last_record(records);
    if h.logged.len() == 0 {
        assert(log_of(records) =~= Seq::<char>::empty());
        assert(lines_of(Seq::<char>::empty()) =~= Seq::<Seq<char>>::empty());
    } else {
        assert(faithful(h.logged.last()));
        assert(records.last() == h.logged.last().record);
    }
}

/// Cancellation comes first. A cancelled step ends the run whatever else is
/// reported: the manager is `Terminated` after this one step, the action is
/// `Stop`, the cursor is as it was, and a batch that was reported in the same
/// step is neither taken nor logged.
pub proof fn cancellation_preempts(h: History, event: EventView, now: u64)
    requires
        h.model.state != SessionState::Terminated,
    ensures
        ({
            let i = Input { cancelled: true, event, now };
            let after = extend(h, i);
            &&& step_of(h.model, true, event, now) == (ended(h.model), ActionView::Stop)
            &&& after.model.state == SessionState::Terminated
            &&& after.model.cursor == h.model.cursor
            &&& after.received == h.received
            &&& after.completed == h.completed
            &&& after.logged == h.logged
        }),
{
}

/// `Terminated` is absorbing: from it every step stays there, asks for nothing
/// but `Stop`, and adds nothing to the history.
pub proof fn terminated_is_absorbing(h: History, i: Input)
    requires
        h.model.state == SessionState::Terminated,
    ensures
        extend(h, i) == h,
        step_of(h.model, i.cancelled, i.event, i.now) == (h.model, ActionView::Stop),
{
}

/// Only a failed append is fatal: the manager asks to fail only when an append
/// that it was waiting for is reported as failed, and then with `IoError`.
/// Failures of the session never surface.
pub proof fn only_log_failure_is_fatal(m: ManagerModel, i: Input)
    ensures
        ({
            let action = step_of(m, i.cancelled, i.event, i.now).1;
            action is Fail ==> {
                &&& action == ActionView::Fail(ErrorKind::IoError)
                &&& m.state == SessionState::Connected
                &&& m.pending is Some
                &&& !i.cancelled
                &&& i.event is AppendFailed
            }
        }),
{
}

} // verus!
