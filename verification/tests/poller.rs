use even_host::poller::{
    JobStatus, PollDecision, PollPolicy, SessionPoller, Terminal, DEFAULT_INTERVAL_SECS,
};

#[test]
fn status_words() {
    assert_eq!(JobStatus::parse("RUNNING"), JobStatus::Running);
    assert_eq!(JobStatus::parse("SUCCEEDED"), JobStatus::Succeeded);
    assert_eq!(JobStatus::parse("FAILED"), JobStatus::Failed);
    assert_eq!(JobStatus::parse("running"), JobStatus::Failed);
    assert_eq!(JobStatus::parse(""), JobStatus::Failed);
    assert_eq!(JobStatus::parse("ABORTED"), JobStatus::Failed);
}

#[test]
fn default_interval_is_fifteen_seconds() {
    assert_eq!(DEFAULT_INTERVAL_SECS, 15);
}

#[test]
fn sleeps_until_the_first_terminal_status() {
    let mut p = SessionPoller::new(PollPolicy { interval_secs: 15, max_polls: None });
    assert_eq!(p.observe(JobStatus::Running), PollDecision::Sleep { secs: 15 });
    assert_eq!(p.observe(JobStatus::Running), PollDecision::Sleep { secs: 15 });
    assert_eq!(
        p.observe(JobStatus::Succeeded),
        PollDecision::Finish { status: Terminal::Succeeded }
    );
}

#[test]
fn terminal_at_the_first_poll_is_returned_without_sleep() {
    let mut p = SessionPoller::new(PollPolicy { interval_secs: 15, max_polls: None });
    assert_eq!(p.observe(JobStatus::Failed), PollDecision::Finish { status: Terminal::Failed });
}

#[test]
fn gives_up_at_the_bound() {
    let mut p = SessionPoller::new(PollPolicy { interval_secs: 2, max_polls: Some(3) });
    assert_eq!(p.observe(JobStatus::Running), PollDecision::Sleep { secs: 2 });
    assert_eq!(p.observe(JobStatus::Running), PollDecision::Sleep { secs: 2 });
    assert_eq!(p.observe(JobStatus::Running), PollDecision::GiveUp);
}

#[test]
fn terminal_status_at_the_last_poll_is_still_returned() {
    let mut p = SessionPoller::new(PollPolicy { interval_secs: 2, max_polls: Some(2) });
    assert_eq!(p.observe(JobStatus::Running), PollDecision::Sleep { secs: 2 });
    assert_eq!(
        p.observe(JobStatus::Succeeded),
        PollDecision::Finish { status: Terminal::Succeeded }
    );
}

#[test]
fn a_bound_of_zero_or_one_allows_no_sleep() {
    let mut zero = SessionPoller::new(PollPolicy { interval_secs: 2, max_polls: Some(0) });
    assert_eq!(zero.observe(JobStatus::Running), PollDecision::GiveUp);
    let mut one = SessionPoller::new(PollPolicy { interval_secs: 2, max_polls: Some(1) });
    assert_eq!(one.observe(JobStatus::Running), PollDecision::GiveUp);
}
