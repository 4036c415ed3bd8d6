//! The per-invocation runner: accumulates a child's output events and settles
//! them into one aggregated result.

use vstd::prelude::*;

use crate::event::{
    code_step, exit_code, lemma_fold_push, stderr_lines, stderr_step, stdout_lines, stdout_step,
    OutputEvent, UNKNOWN_EXIT_CODE,
};
use crate::lines::{join_lines, joined};

verus! {

/// The aggregated outcome of one invocation: the child's exit code and its
/// newline-joined stdout and stderr lines.
pub struct JiraSelectResult {
    pub code: i32,
    pub stdout: String,
    pub stderr: String,
}

/// The child process could not be started: missing binary, permission denied,
/// or a platform resolution failure.  The one condition that fails a run.
pub struct LaunchError {
    pub message: String,
}

/// Accumulates the events of one invocation while its stream drains.  Each
/// invocation owns its own collector; nothing is shared between runs.
pub struct Collector {
    stdout: Vec<String>,
    stderr: Vec<String>,
    code: i32,
}

impl Collector {
    /// The stdout lines recorded so far, in arrival order.
    pub closed spec fn stdout_model(self) -> Seq<Seq<char>> {
        self.stdout@.map_values(|line: String| line@)
    }

    /// The stderr lines recorded so far, in arrival order.
    pub closed spec fn stderr_model(self) -> Seq<Seq<char>> {
        self.stderr@.map_values(|line: String| line@)
    }

    /// The exit code recorded so far.
    pub closed spec fn code_model(self) -> int {
        self.code as int
    }

    /// A fresh collector: no lines yet, exit code unknown.
    pub fn new() -> (c: Collector)
        ensures
            c.stdout_model() == Seq::<Seq<char>>::empty(),
            c.stderr_model() == Seq::<Seq<char>>::empty(),
            c.code_model() == UNKNOWN_EXIT_CODE as int,
    {
        let c = Collector { stdout: Vec::new(), stderr: Vec::new(), code: UNKNOWN_EXIT_CODE };
        proof {
            assert(c.stdout_model() =~= Seq::<Seq<char>>::empty());
            assert(c.stderr_model() =~= Seq::<Seq<char>>::empty());
        }
        c
    }

    /// One step of the per-invocation state machine: record an output line,
    /// record a reported (or missing) exit code, ignore anything else.
    pub fn handle_event(&mut self, event: OutputEvent)
        ensures
            final(self).stdout_model() == stdout_step(old(self).stdout_model(), event),
            final(self).stderr_model() == stderr_step(old(self).stderr_model(), event),
            final(self).code_model() == code_step(old(self).code_model(), event),
    {
        match event {
            OutputEvent::StdoutLine(line) => {
                let ghost l = line@;
                self.stdout.push(line);
                proof {
                    assert(self.stdout_model() =~= old(self).stdout_model().push(l));
                }
            }
            OutputEvent::StderrLine(line) => {
                let ghost l = line@;
                self.stderr.push(line);
                proof {
                    assert(self.stderr_model() =~= old(self).stderr_model().push(l));
                }
            }
            OutputEvent::Terminated(reported) => {
                match reported {
                    Some(c) => {
                        self.code = c;
                    }
                    None => {
                        self.code = UNKNOWN_EXIT_CODE;
                    }
                }
            }
            OutputEvent::Other => {}
        }
    }

    /// Settles the accumulated state into the final result, joining each line
    /// sequence with newline separators.
    pub fn into_result(self) -> (r: JiraSelectResult)
        ensures
            r.code as int == self.code_model(),
            r.stdout@ == joined(self.stdout_model()),
            r.stderr@ == joined(self.stderr_model()),
    {
        JiraSelectResult {
            code: self.code,
            stdout: join_lines(&self.stdout),
            stderr: join_lines(&self.stderr),
        }
    }
}

/// Drains a closed event stream: folds every event, in arrival order, into the
/// aggregated result.  The result is a function of this run's events alone.
pub fn drain(events: Vec<OutputEvent>) -> (r: JiraSelectResult)
    ensures
        r.code as int == exit_code(events@),
        r.stdout@ == joined(stdout_lines(events@)),
        r.stderr@ == joined(stderr_lines(events@)),
{
    let ghost all = events@;
    let mut events = events;
    let mut collector = Collector::new();
    let ghost mut done: Seq<OutputEvent> = Seq::empty();
    while events.len() > 0
        invariant
            done + events@ == all,
            collector.stdout_model() == stdout_lines(done),
            collector.stderr_model() == stderr_lines(done),
            collector.code_model() == exit_code(done),
        decreases events.len(),
    {
        let event = events.remove(0);
        let ghost ev = event;
        collector.handle_event(event);
        proof {
            lemma_fold_push(done, ev);
            done = done.push(ev);
            assert(done + events@ =~= all);
        }
    }
    proof {
        assert(done =~= all);
    }
    collector.into_result()
}

/// Settles one whole invocation from what the caller observed: the launch
/// failure message if the child could not be started, otherwise the drained
/// event stream.  Only a launch failure is an error; everything the child did
/// is captured in the result.
pub fn run_outcome(launch: Result<Vec<OutputEvent>, String>) -> (r: Result<
    JiraSelectResult,
    LaunchError,
>)
    ensures
        (launch matches Err(m) ==> r matches Err(e) && e.message@ == m@),
        (launch matches Ok(events) ==> r matches Ok(out) && out.code as int == exit_code(events@)
            && out.stdout@ == joined(stdout_lines(events@)) && out.stderr@ == joined(
            stderr_lines(events@),
        )),
{
    match launch {
        Ok(events) => Ok(drain(events)),
        Err(message) => Err(LaunchError { message }),
    }
}

/// Law: a run whose child emitted exactly the stdout lines `a` then `b` has
/// as aggregated stdout the first line, one newline, then the second.  With
/// the contract of `drain`, which also fixes the exit code as the last
/// reported one, this pins the whole result of such a run.
pub proof fn lemma_two_stdout_lines(events: Seq<OutputEvent>, a: Seq<char>, b: Seq<char>)
    requires
        stdout_lines(events) == seq![a, b],
    ensures
        joined(stdout_lines(events)) == a + seq!['\n'] + b,
{
    let lines = seq![a, b];
    assert(lines.len() == 2);
    assert(lines.drop_last() =~= seq![a]);
    assert(seq![a].len() == 1);
    assert(joined(seq![a]) == a);
    assert(lines.last() == b);
}

} // verus!
