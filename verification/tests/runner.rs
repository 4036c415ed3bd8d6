use process_runner::event::{OutputEvent, UNKNOWN_EXIT_CODE};
use process_runner::runner::{drain, run_outcome, Collector};

fn out(line: &str) -> OutputEvent {
    OutputEvent::StdoutLine(line.to_string())
}

fn err(line: &str) -> OutputEvent {
    OutputEvent::StderrLine(line.to_string())
}

#[test]
fn two_stdout_lines_and_exit_code() {
    let result = drain(vec![out("a"), out("b"), OutputEvent::Terminated(Some(7))]);
    assert_eq!(result.stdout, "a\nb");
    assert_eq!(result.stderr, "");
    assert_eq!(result.code, 7);
}

#[test]
fn streams_keep_emission_order_independently() {
    let result = drain(vec![
        out("one"),
        err("boom"),
        out("two"),
        err("bang"),
        out("three"),
        OutputEvent::Terminated(Some(0)),
    ]);
    assert_eq!(result.stdout, "one\ntwo\nthree");
    assert_eq!(result.stderr, "boom\nbang");
    assert_eq!(result.code, 0);
}

#[test]
fn killed_child_reports_unknown_code() {
    let result = drain(vec![out("partial"), OutputEvent::Terminated(None)]);
    assert_eq!(result.code, UNKNOWN_EXIT_CODE);
    assert_eq!(result.stdout, "partial");
    assert_eq!(result.stderr, "");
}

#[test]
fn stream_closing_without_termination_reports_unknown_code() {
    let result = drain(vec![out("x")]);
    assert_eq!(result.code, UNKNOWN_EXIT_CODE);
    assert_eq!(result.stdout, "x");
}

#[test]
fn empty_stream_yields_empty_result() {
    let result = drain(Vec::new());
    assert_eq!(result.code, UNKNOWN_EXIT_CODE);
    assert_eq!(result.stdout, "");
    assert_eq!(result.stderr, "");
}

#[test]
fn launch_failure_is_an_error() {
    let outcome = run_outcome(Err("unable to launch jira-select".to_string()));
    match outcome {
        Ok(_) => panic!("a failed launch must not produce a result"),
        Err(launch_error) => {
            assert_eq!(launch_error.message, "unable to launch jira-select");
        }
    }
}

#[test]
fn successful_launch_is_not_an_error() {
    let outcome = run_outcome(Ok(vec![out("ready"), OutputEvent::Terminated(Some(0))]));
    match outcome {
        Ok(result) => {
            assert_eq!(result.code, 0);
            assert_eq!(result.stdout, "ready");
            assert_eq!(result.stderr, "");
        }
        Err(_) => panic!("a drained run must produce a result"),
    }
}

#[test]
fn interleaved_invocations_do_not_mix() {
    let mut first = Collector::new();
    let mut second = Collector::new();
    first.handle_event(out("from the first run"));
    second.handle_event(out("from the second run"));
    first.handle_event(OutputEvent::Terminated(Some(0)));
    second.handle_event(err("second run warning"));
    second.handle_event(OutputEvent::Terminated(Some(3)));
    let first_result = first.into_result();
    let second_result = second.into_result();
    assert_eq!(first_result.stdout, "from the first run");
    assert_eq!(first_result.stderr, "");
    assert_eq!(first_result.code, 0);
    assert_eq!(second_result.stdout, "from the second run");
    assert_eq!(second_result.stderr, "second run warning");
    assert_eq!(second_result.code, 3);
}

#[test]
fn uppercasing_echo_scenario() {
    let result = drain(vec![out("HELLO"), OutputEvent::Terminated(Some(0))]);
    assert_eq!(result.code, 0);
    assert_eq!(result.stdout, "HELLO");
    assert_eq!(result.stderr, "");
}

#[test]
fn unrecognized_events_are_ignored() {
    let result = drain(vec![
        OutputEvent::Other,
        out("x"),
        OutputEvent::Other,
        OutputEvent::Terminated(Some(0)),
    ]);
    assert_eq!(result.stdout, "x");
    assert_eq!(result.code, 0);
}

#[test]
fn later_termination_event_overwrites_code() {
    let result = drain(vec![
        OutputEvent::Terminated(Some(3)),
        OutputEvent::Terminated(Some(5)),
    ]);
    assert_eq!(result.code, 5);
}

#[test]
fn termination_without_code_overwrites_earlier_code() {
    let result = drain(vec![
        OutputEvent::Terminated(Some(3)),
        OutputEvent::Terminated(None),
    ]);
    assert_eq!(result.code, UNKNOWN_EXIT_CODE);
}

#[test]
fn output_arriving_after_termination_is_still_collected() {
    let result = drain(vec![OutputEvent::Terminated(Some(0)), out("late flush")]);
    assert_eq!(result.stdout, "late flush");
    assert_eq!(result.code, 0);
}

#[test]
fn empty_lines_are_kept() {
    let result = drain(vec![out(""), out("x"), out(""), OutputEvent::Terminated(Some(0))]);
    assert_eq!(result.stdout, "\nx\n");
}

#[test]
fn single_line_gets_no_separator() {
    let result = drain(vec![out("only"), OutputEvent::Terminated(Some(0))]);
    assert_eq!(result.stdout, "only");
}
