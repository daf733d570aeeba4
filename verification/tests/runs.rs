use framix::progress::ProgressInfo;
use framix::runner::{conclude, replay, spawn_failure, wait_failure, RunOutcome};
use framix::tui::{closing_event, worker_messages, AppEvent};

fn show(events: &[ProgressInfo]) -> Vec<String> {
    let mut lines = Vec::new();
    for event in events {
        match event {
            ProgressInfo::Log(text) => lines.push(format!("log:{}", text)),
            ProgressInfo::Percentage(fraction) => {
                lines.push(format!("pct:{}/{}", fraction.numerator(), fraction.denominator()))
            }
        }
    }
    lines
}

fn show_messages(messages: &[AppEvent]) -> Vec<String> {
    let mut lines = Vec::new();
    for message in messages {
        match message {
            AppEvent::Progress(info) => lines.extend(show(std::slice::from_ref(info))),
            AppEvent::Done => lines.push("done".to_string()),
            AppEvent::Error(reason) => lines.push(format!("error:{}", reason)),
        }
    }
    lines
}

fn strings(items: &[&str]) -> Vec<String> {
    items.iter().map(|s| s.to_string()).collect()
}

#[test]
fn success_closes_with_a_full_fraction() {
    let report = conclude(true, "exit status: 0");
    assert_eq!(show(&report.events), strings(&["pct:1/1"]));
    assert!(matches!(report.outcome, RunOutcome::Success));
}

#[test]
fn failure_forces_no_fraction_and_carries_the_status() {
    let report = conclude(false, "exit status: 1");
    assert_eq!(show(&report.events), Vec::<String>::new());
    match report.outcome {
        RunOutcome::Failure(message) => {
            assert_eq!(message, "ffmpeg failed with status: exit status: 1")
        }
        RunOutcome::Success => panic!("a failure was expected"),
    }
}

#[test]
fn final_fraction_is_one_even_after_less() {
    let report = replay(b"Duration: 00:01:40.00\ntime=00:01:37.00\n", true, "exit status: 0");
    assert_eq!(
        show(&report.events),
        strings(&[
            "log:Duration: 00:01:40.00",
            "log:time=00:01:37.00",
            "pct:97000000/100000000",
            "pct:1/1",
        ])
    );
    match report.events.last() {
        Some(ProgressInfo::Percentage(fraction)) => {
            assert_eq!(fraction.numerator() as f64 / fraction.denominator() as f64, 1.0)
        }
        _ => panic!("a fraction was expected"),
    }
}

#[test]
fn failed_run_reports_only_its_stream() {
    let report = replay(b"Duration: 00:00:10.00\ntime=00:00:05.00\n", false, "exit status: 2");
    assert_eq!(
        show(&report.events),
        strings(&["log:Duration: 00:00:10.00", "log:time=00:00:05.00", "pct:5000000/10000000"])
    );
    let messages = worker_messages(report);
    assert_eq!(
        show_messages(&messages).last().unwrap(),
        "error:ffmpeg failed with status: exit status: 2"
    );
    assert!(show_messages(&messages).last().unwrap().contains("exit status: 2"));
}

#[test]
fn whole_run_from_stream_to_done() {
    let report = replay(
        b"Duration: 00:00:10.00\ntime=00:00:05.00\ntime=00:00:10.00\n",
        true,
        "exit status: 0",
    );
    let messages = worker_messages(report);
    assert_eq!(
        show_messages(&messages),
        strings(&[
            "log:Duration: 00:00:10.00",
            "log:time=00:00:05.00",
            "pct:5000000/10000000",
            "log:time=00:00:10.00",
            "pct:10000000/10000000",
            "pct:1/1",
            "done",
        ])
    );
    let listed = ["log:Duration: 00:00:10.00", "pct:5000000/10000000", "log:time=00:00:10.00", "pct:1/1", "done"];
    let shown = show_messages(&messages);
    let mut at = 0;
    for line in shown.iter() {
        if at < listed.len() && line == listed[at] {
            at += 1;
        }
    }
    assert_eq!(at, listed.len());
}

#[test]
fn empty_run() {
    let report = replay(b"", true, "exit status: 0");
    assert_eq!(show_messages(&worker_messages(report)), strings(&["pct:1/1", "done"]));
    let report = replay(b"", false, "signal: 9 (SIGKILL)");
    assert_eq!(
        show_messages(&worker_messages(report)),
        strings(&["error:ffmpeg failed with status: signal: 9 (SIGKILL)"])
    );
}

#[test]
fn runs_that_never_got_going() {
    match spawn_failure() {
        RunOutcome::Failure(message) => assert_eq!(message, "Failed to start ffmpeg"),
        RunOutcome::Success => panic!("a failure was expected"),
    }
    match wait_failure("broken pipe".to_string()) {
        RunOutcome::Failure(message) => assert_eq!(message, "broken pipe"),
        RunOutcome::Success => panic!("a failure was expected"),
    }
    assert!(matches!(closing_event(RunOutcome::Success), AppEvent::Done));
    match closing_event(spawn_failure()) {
        AppEvent::Error(reason) => assert_eq!(reason, "Failed to start ffmpeg"),
        _ => panic!("an error was expected"),
    }
}
