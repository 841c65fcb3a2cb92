//! Session-level laws.
//!
//! The session is modeled as a fold of events over the empty buffer: each
//! event is a submitted code line together with the outcome its build
//! reported, one of the buffer-changing control commands, or anything that
//! leaves the buffer unchanged. The lemmas here state the commit/rollback
//! discipline: the buffer only ever holds lines whose build reported
//! success at the moment they were committed, and a failed submission is
//! rolled back exactly, so retrying it hands the build tool the identical
//! program text.

use vstd::prelude::*;
use crate::session::{build_step, code_step, command_step, normalized_line};

verus! {

/// One processed input at the level of the session model.
pub enum Event {
    /// A code line was submitted and its build reported `built_ok`.
    Code { line: Seq<char>, built_ok: bool },
    /// The buffer-clearing control command.
    Clear,
    /// The control command removing the last committed line.
    PopLast,
    /// Any input that leaves the buffer unchanged.
    Other,
}

/// How one event transforms the committed buffer: a successfully built
/// candidate is kept in its normalized form, a failed one leaves no trace,
/// and the two removal commands shrink the buffer.
pub open spec fn apply_event(buf: Seq<Seq<char>>, ev: Event) -> Seq<Seq<char>> {
    match ev {
        Event::Code { line, built_ok } => if built_ok {
            buf.push(normalized_line(line))
        } else {
            buf
        },
        Event::Clear => Seq::empty(),
        Event::PopLast => if buf.len() > 0 {
            buf.drop_last()
        } else {
            buf
        },
        Event::Other => buf,
    }
}

/// The buffer after a whole session: the events folded, in order, over the
/// empty buffer a fresh session starts from.
pub open spec fn run_session(events: Seq<Event>) -> Seq<Seq<char>>
    decreases events.len(),
{
    if events.len() == 0 {
        Seq::empty()
    } else {
        apply_event(run_session(events.drop_last()), events.last())
    }
}

/// The event committed the line `l`: it submitted a code line whose
/// normalized form is `l`, and the build of the resulting program reported
/// success.
pub open spec fn event_commits(ev: Event, l: Seq<char>) -> bool {
    ev matches Event::Code { line, built_ok } && built_ok && l == normalized_line(line)
}

/// Some event of the session committed the line `l`.
pub open spec fn committed_by_some_success(events: Seq<Event>, l: Seq<char>) -> bool {
    exists|j: int| 0 <= j < events.len() && event_commits(#[trigger] events[j], l)
}

/// Every line of `buf` was committed by a successfully built submission.
pub open spec fn all_lines_committed(events: Seq<Event>, buf: Seq<Seq<char>>) -> bool {
    forall|i: int| 0 <= i < buf.len() ==> committed_by_some_success(events, #[trigger] buf[i])
}

/// Buffer-validity invariant: after any sequence of processed inputs, every
/// line the buffer holds was committed by a submission whose build reported
/// success — a line whose build failed is never retained.
pub proof fn lemma_buffer_only_holds_built_lines(events: Seq<Event>)
    ensures
        all_lines_committed(events, run_session(events)),
    decreases events.len(),
{
    if events.len() == 0 {
    } else {
        let prefix = events.drop_last();
        let ev = events.last();
        lemma_buffer_only_holds_built_lines(prefix);
        let pbuf = run_session(prefix);
        let buf = run_session(events);
        assert forall|l: Seq<char>|
            committed_by_some_success(prefix, l) implies committed_by_some_success(
            events,
            l,
        ) by {
            let j = choose|j: int| 0 <= j < prefix.len() && event_commits(#[trigger] prefix[j], l);
            assert(events[j] == prefix[j]);
            assert(event_commits(events[j], l));
        }
        match ev {
            Event::Code { line, built_ok } => {
                if built_ok {
                    let n = normalized_line(line);
                    assert(event_commits(events[events.len() - 1], n));
                    assert forall|i: int| 0 <= i < buf.len() implies committed_by_some_success(
                        events,
                        buf[i],
                    ) by {
                        if i < pbuf.len() {
                            assert(buf[i] == pbuf[i]);
                        } else {
                            assert(buf[i] == n);
                        }
                    }
                } else {
                    assert(buf == pbuf);
                }
            },
            Event::Clear => {
                assert(buf.len() == 0);
            },
            Event::PopLast => {
                assert forall|i: int| 0 <= i < buf.len() implies committed_by_some_success(
                    events,
                    buf[i],
                ) by {
                    assert(buf[i] == pbuf[i]);
                }
            },
            Event::Other => {
                assert(buf == pbuf);
            },
        }
    }
}

/// Rollback idempotence: a failed submission leaves the buffer exactly as
/// it was, and resubmitting the very same line afterwards appends the same
/// candidate and materializes the identical program text, so the build tool
/// is handed the same input — and reports the same diagnostic — both times.
pub proof fn lemma_rollback_idempotent(buf: Seq<Seq<char>>, line: Seq<char>)
    ensures
        build_step(code_step(buf, line).0, false) == buf,
        code_step(build_step(code_step(buf, line).0, false), line) == code_step(buf, line),
{
    assert(buf.push(normalized_line(line)).drop_last() =~= buf);
}

/// Appending a candidate and then applying the observed build outcome is
/// exactly one event of the session model: success keeps the normalized
/// line, failure restores the previous buffer.
pub proof fn lemma_submission_is_one_event(buf: Seq<Seq<char>>, line: Seq<char>, built_ok: bool)
    ensures
        build_step(code_step(buf, line).0, built_ok) == apply_event(
            buf,
            Event::Code { line, built_ok },
        ),
{
    if !built_ok {
        assert(buf.push(normalized_line(line)).drop_last() =~= buf);
    }
}

/// Every control command other than the two removal commands leaves the
/// buffer unchanged, like the model's `Other` event: printing the buffer or
/// the help text, quitting, and unrecognized commands never edit the
/// committed lines.
pub proof fn lemma_other_commands_preserve_buffer(buf: Seq<Seq<char>>, l: Seq<char>)
    requires
        l != ":clear"@,
        l != ":pop"@,
    ensures
        command_step(buf, l).0 == apply_event(buf, Event::Other),
{
}

/// The two buffer-changing control commands are exactly the two removal
/// events of the session model.
pub proof fn lemma_commands_match_events(buf: Seq<Seq<char>>)
    ensures
        command_step(buf, ":clear"@).0 == apply_event(buf, Event::Clear),
        command_step(buf, ":pop"@).0 == apply_event(buf, Event::PopLast),
{
    reveal_strlit(":clear");
    reveal_strlit(":pop");
    reveal_strlit(":q");
    reveal_strlit(":quit");
    reveal_strlit(":exit");
    reveal_strlit(":buffer");
    assert(":q"@.len() == 2);
    assert(":quit"@.len() == 5);
    assert(":exit"@.len() == 5);
    assert(":buffer"@.len() == 7);
    assert(":clear"@.len() == 6);
    assert(":pop"@.len() == 4);
    assert(command_step(buf, ":clear"@).0 =~= Seq::<Seq<char>>::empty());
}

} // verus!
