use ninjaedit_tui::job::{step_heading, JobRun, StepExit};

#[test]
fn a_job_runs_its_steps_and_says_how_it_ended() {
    let mut job = JobRun::new("Test job".to_string(), 3, true);
    assert!(job.next_step());
    let report = job.exited(StepExit::Success);
    assert!(report.configured, "the first step's configuring is noted");
    assert!(report.start_next);
    assert_eq!(report.output, "\r\n");
    assert_eq!(report.status, None);
    assert!(job.next_step());
    let report = job.exited(StepExit::Code(3));
    assert!(!report.configured);
    assert!(!report.start_next);
    assert_eq!(report.output, "\u{1b}[1;31mFailed: exit code 3\u{1b}[0m\r\n");
    assert_eq!(report.status.as_deref(), Some("Test job: failed with exit code 3"));
    assert!(!job.next_step(), "the third step never starts");
}

#[test]
fn the_last_step_finishes_the_job() {
    let mut job = JobRun::new("Quick".to_string(), 1, false);
    assert!(job.next_step());
    let report = job.exited(StepExit::Success);
    assert!(!report.configured);
    assert!(!report.start_next);
    assert_eq!(report.output, "\u{1b}[1;32mFinished\u{1b}[0m\r\n");
    assert_eq!(report.status.as_deref(), Some("Quick: finished"));
    let mut killed = JobRun::new("Run".to_string(), 2, false);
    assert!(killed.next_step());
    let report = killed.exited(StepExit::Signal("SIGKILL".to_string()));
    assert_eq!(report.status.as_deref(), Some("Run: failed with killed by SIGKILL"));
    let mut negative = JobRun::new("N".to_string(), 1, false);
    assert!(negative.next_step());
    assert_eq!(negative.exited(StepExit::Code(-1)).status.as_deref(), Some("N: failed with exit code -1"));
    let mut failed = JobRun::new("T".to_string(), 2, false);
    let (line, status) = failed.start_failed("cargo", "not found");
    assert_eq!(status, "Could not start cargo: not found");
    assert_eq!(line, "\u{1b}[1;31mCould not start cargo: not found\u{1b}[0m\r\n");
    assert!(!failed.next_step());
    assert_eq!(
        step_heading("Step one", "sh -c 'echo one'"),
        "\u{1b}[1mStep one\u{1b}[0m\r\n\u{1b}[2m$ sh -c 'echo one'\u{1b}[0m\r\n"
    );
}
