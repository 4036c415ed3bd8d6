//! Output events of a child process, and the fold that a whole run performs
//! over them.

use vstd::prelude::*;

verus! {

/// Exit code recorded when the child terminated without reporting one (killed
/// by a signal, or the platform could not report a code).  Documented as "code
/// unknown"; it is also what a run reports when its event stream closes before
/// any termination event arrives.
pub const UNKNOWN_EXIT_CODE: i32 = -1;

/// One notification from a running child: a line of standard output, a line of
/// standard error, termination with an optional exit code, or an event this
/// component does not interpret (kept as a variant so that new event kinds are
/// ignored rather than rejected).
pub enum OutputEvent {
    StdoutLine(String),
    StderrLine(String),
    Terminated(Option<i32>),
    Other,
}

/// The recorded stdout lines after one more event arrives: a stdout line is
/// appended, every other event leaves them unchanged.
pub open spec fn stdout_step(lines: Seq<Seq<char>>, event: OutputEvent) -> Seq<Seq<char>> {
    match event {
        OutputEvent::StdoutLine(line) => lines.push(line@),
        _ => lines,
    }
}

/// The recorded stderr lines after one more event arrives.
pub open spec fn stderr_step(lines: Seq<Seq<char>>, event: OutputEvent) -> Seq<Seq<char>> {
    match event {
        OutputEvent::StderrLine(line) => lines.push(line@),
        _ => lines,
    }
}

/// The recorded exit code after one more event arrives: a termination event
/// overwrites it with the reported code, or with the unknown-code sentinel
/// when no code was reported; other events leave it unchanged.
pub open spec fn code_step(code: int, event: OutputEvent) -> int {
    match event {
        OutputEvent::Terminated(reported) => match reported {
            Some(c) => c as int,
            None => UNKNOWN_EXIT_CODE as int,
        },
        _ => code,
    }
}

/// The stdout lines of a whole run: the payloads of the stdout events, in
/// arrival order.
pub open spec fn stdout_lines(events: Seq<OutputEvent>) -> Seq<Seq<char>>
    decreases events.len(),
{
    if events.len() == 0 {
        Seq::empty()
    } else {
        stdout_step(stdout_lines(events.drop_last()), events.last())
    }
}

/// The stderr lines of a whole run, in arrival order.
pub open spec fn stderr_lines(events: Seq<OutputEvent>) -> Seq<Seq<char>>
    decreases events.len(),
{
    if events.len() == 0 {
        Seq::empty()
    } else {
        stderr_step(stderr_lines(events.drop_last()), events.last())
    }
}

/// The exit code of a whole run: what the last termination event reported, the
/// unknown-code sentinel if it reported nothing or no termination event came.
pub open spec fn exit_code(events: Seq<OutputEvent>) -> int
    decreases events.len(),
{
    if events.len() == 0 {
        UNKNOWN_EXIT_CODE as int
    } else {
        code_step(exit_code(events.drop_last()), events.last())
    }
}

/// Appending one event to a run extends each fold by one step.
pub proof fn lemma_fold_push(events: Seq<OutputEvent>, event: OutputEvent)
    ensures
        stdout_lines(events.push(event)) == stdout_step(stdout_lines(events), event),
        stderr_lines(events.push(event)) == stderr_step(stderr_lines(events), event),
        exit_code(events.push(event)) == code_step(exit_code(events), event),
{
    assert(events.push(event).drop_last() =~= events);
}

/// Law: within each stream the lines are recorded in emission order, and the
/// two streams are independent.  A stdout line arriving appends exactly that
/// line at the end of the stdout record and leaves the stderr record
/// unchanged; a stderr line, symmetrically.
pub proof fn lemma_stream_order_independent(events: Seq<OutputEvent>, event: OutputEvent)
    ensures
        (event matches OutputEvent::StdoutLine(line) ==> stdout_lines(events.push(event))
            == stdout_lines(events).push(line@) && stderr_lines(events.push(event))
            == stderr_lines(events)),
        (event matches OutputEvent::StderrLine(line) ==> stderr_lines(events.push(event))
            == stderr_lines(events).push(line@) && stdout_lines(events.push(event))
            == stdout_lines(events)),
{
    lemma_fold_push(events, event);
}

/// Law: a run in which no termination event reported a code — the child was
/// killed, or its stream closed before any termination event — has the
/// unknown-code sentinel as its exit code.
pub proof fn lemma_unknown_exit_code(events: Seq<OutputEvent>)
    requires
        forall|i: int|
            0 <= i < events.len() ==> !(#[trigger] events[i] matches OutputEvent::Terminated(
                Some(_),
            )),
    ensures
        exit_code(events) == UNKNOWN_EXIT_CODE as int,
    decreases events.len(),
{
    if events.len() > 0 {
        let pre = events.drop_last();
        assert forall|i: int|
            0 <= i < pre.len() implies !(#[trigger] pre[i] matches OutputEvent::Terminated(
            Some(_),
        )) by {
            assert(pre[i] == events[i]);
        }
        lemma_unknown_exit_code(pre);
        assert(events.last() == events[events.len() - 1]);
    }
}

} // verus!
