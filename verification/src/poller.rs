//! The decisions of a blocking poll: after each status that was fetched,
//! whether to sleep and fetch again, to return, or to give up.
//!
//! The poller never fetches and never sleeps itself. Its caller fetches a
//! status, shows it to the poller and does what the poller decides. A decision
//! is always the answer to a status, so nothing is slept before the first
//! status was fetched.

use vstd::prelude::*;

verus! {

/// The seconds between two polls where nothing else is asked for.
pub const DEFAULT_INTERVAL_SECS: u64 = 15;

/// What the proving service reports of a job.
#[derive(Clone, Copy, Debug, PartialEq, Eq)]
pub enum JobStatus {
    Running,
    Succeeded,
    Failed,
}

/// A status after which a job does not change any more.
#[derive(Clone, Copy, Debug, PartialEq, Eq)]
pub enum Terminal {
    Succeeded,
    Failed,
}

/// The status that a status word of the service stands for: `RUNNING` and
/// `SUCCEEDED` are what they say, every other word is a failure.
pub open spec fn status_of(word: Seq<char>) -> JobStatus {
    if word == "RUNNING"@ {
        JobStatus::Running
    } else if word == "SUCCEEDED"@ {
        JobStatus::Succeeded
    } else {
        JobStatus::Failed
    }
}

impl JobStatus {
    /// Reads a status word of the service.
    pub fn parse(word: &str) -> (r: JobStatus)
        ensures
            r == status_of(word@),
    {
        let word = word.to_owned();
        if word == "RUNNING".to_owned() {
            JobStatus::Running
        } else if word == "SUCCEEDED".to_owned() {
            JobStatus::Succeeded
        } else {
            JobStatus::Failed
        }
    }
}

/// How a job is polled: the pause between two polls, and how many polls are
/// made at most (`None`: as many as it takes).
#[derive(Clone, Copy, Debug, PartialEq, Eq)]
pub struct PollPolicy {
    pub interval_secs: u64,
    pub max_polls: Option<u64>,
}

/// What the caller does after a status was shown to the poller.
#[derive(Clone, Copy, Debug, PartialEq, Eq)]
pub enum PollDecision {
    /// The job is running: sleep, then fetch the status again.
    Sleep { secs: u64 },
    /// The job has ended with this status: return it.
    Finish { status: Terminal },
    /// The job is running and the last poll that the policy allows was made.
    GiveUp,
}

/// The state of one polling run: the policy's pause, and the polls that may
/// still be made.
#[derive(Clone, Copy, Debug, PartialEq, Eq)]
pub struct SessionPoller {
    pub interval_secs: u64,
    pub polls_left: Option<u64>,
}

/// The polls that are left once one more was made.
pub open spec fn polls_left_after(polls_left: Option<u64>) -> Option<u64> {
    match polls_left {
        None => None,
        Some(n) => Some(
            if n == 0 {
                0u64
            } else {
                (n - 1) as u64
            },
        ),
    }
}

/// The decision on a status.
pub open spec fn decide(poller: SessionPoller, status: JobStatus) -> PollDecision {
    match status {
        JobStatus::Succeeded => PollDecision::Finish { status: Terminal::Succeeded },
        JobStatus::Failed => PollDecision::Finish { status: Terminal::Failed },
        JobStatus::Running => if polls_left_after(poller.polls_left) == Some(0u64) {
            PollDecision::GiveUp
        } else {
            PollDecision::Sleep { secs: poller.interval_secs }
        },
    }
}

/// The poller after a status was shown to it.
pub open spec fn after(poller: SessionPoller, status: JobStatus) -> SessionPoller {
    SessionPoller {
        interval_secs: poller.interval_secs,
        polls_left: polls_left_after(poller.polls_left),
    }
}

/// The poller after a whole sequence of statuses was shown to it, one by one.
pub open spec fn after_all(poller: SessionPoller, statuses: Seq<JobStatus>) -> SessionPoller
    decreases statuses.len(),
{
    if statuses.len() == 0 {
        poller
    } else {
        after(after_all(poller, statuses.drop_last()), statuses.last())
    }
}

/// The decision on the status at place `i` of a run in which `statuses` are
/// fetched in turn.
pub open spec fn decision_at(poller: SessionPoller, statuses: Seq<JobStatus>, i: int) -> PollDecision {
    decide(after_all(poller, statuses.take(i)), statuses[i])
}

/// Whether a run under this policy may make more than `polls` polls.
pub open spec fn allows_more_than(policy: PollPolicy, polls: nat) -> bool {
    match policy.max_polls {
        None => true,
        Some(max) => polls < max,
    }
}

impl SessionPoller {
    /// A poller at the start of a run.
    pub fn new(policy: PollPolicy) -> (r: SessionPoller)
        ensures
            r == (SessionPoller { interval_secs: policy.interval_secs, polls_left: policy.max_polls }),
    {
        SessionPoller { interval_secs: policy.interval_secs, polls_left: policy.max_polls }
    }

    /// Shows the poller the status that was just fetched.
    pub fn observe(&mut self, status: JobStatus) -> (r: PollDecision)
        ensures
            r == decide(*old(self), status),
            *final(self) == after(*old(self), status),
    {
        let left: Option<u64> = match self.polls_left {
            None => None,
            Some(n) => Some(
                if n == 0 {
                    0
                } else {
                    n - 1
                },
            ),
        };
        self.polls_left = left;
        match status {
            JobStatus::Succeeded => PollDecision::Finish { status: Terminal::Succeeded },
            JobStatus::Failed => PollDecision::Finish { status: Terminal::Failed },
            JobStatus::Running => match left {
                Some(0) => PollDecision::GiveUp,
                _ => PollDecision::Sleep { secs: self.interval_secs },
            },
        }
    }
}

/// The polls that are left after `n` statuses were shown to a fresh poller.
pub proof fn lemma_polls_left(policy: PollPolicy, statuses: Seq<JobStatus>)
    ensures
        after_all(
            SessionPoller { interval_secs: policy.interval_secs, polls_left: policy.max_polls },
            statuses,
        ).interval_secs == policy.interval_secs,
        match policy.max_polls {
            None => after_all(
                SessionPoller { interval_secs: policy.interval_secs, polls_left: policy.max_polls },
                statuses,
            ).polls_left is None,
            Some(max) => after_all(
                SessionPoller { interval_secs: policy.interval_secs, polls_left: policy.max_polls },
                statuses,
            ).polls_left == Some(
                if statuses.len() >= max {
                    0u64
                } else {
                    (max - statuses.len()) as u64
                },
            ),
        },
    decreases statuses.len(),
{
    if statuses.len() > 0 {
        lemma_polls_left(policy, statuses.drop_last());
    }
}

/// A run returns the first status that is not `Running`, at the poll that
/// fetched it and at no other: before it every decision is to sleep for the
/// policy's pause. This holds wherever the policy allows that many polls.
pub proof fn lemma_returns_first_terminal(policy: PollPolicy, statuses: Seq<JobStatus>, k: int)
    requires
        0 <= k < statuses.len(),
        forall|i: int| 0 <= i < k ==> statuses[i] == JobStatus::Running,
        statuses[k] != JobStatus::Running,
        allows_more_than(policy, k as nat),
    ensures
        forall|i: int|
            0 <= i < k ==> #[trigger] decision_at(
                SessionPoller { interval_secs: policy.interval_secs, polls_left: policy.max_polls },
                statuses,
                i,
            ) == (PollDecision::Sleep { secs: policy.interval_secs }),
        decision_at(
            SessionPoller { interval_secs: policy.interval_secs, polls_left: policy.max_polls },
            statuses,
            k,
        ) == (PollDecision::Finish {
            status: if statuses[k] == JobStatus::Succeeded {
                Terminal::Succeeded
            } else {
                Terminal::Failed
            },
        }),
{
    let start = SessionPoller { interval_secs: policy.interval_secs, polls_left: policy.max_polls };
    assert forall|i: int| 0 <= i < k implies #[trigger] decision_at(start, statuses, i) == (
    PollDecision::Sleep { secs: policy.interval_secs }) by {
        lemma_polls_left(policy, statuses.take(i));
    }
    lemma_polls_left(policy, statuses.take(k));
}

/// Where the policy sets a bound, the poll that reaches it ends the run: a
/// job that is still running then is given up.
pub proof fn lemma_gives_up_at_bound(policy: PollPolicy, statuses: Seq<JobStatus>, k: int)
    requires
        0 <= k < statuses.len(),
        statuses[k] == JobStatus::Running,
        !allows_more_than(policy, (k + 1) as nat),
    ensures
        decision_at(
            SessionPoller { interval_secs: policy.interval_secs, polls_left: policy.max_polls },
            statuses,
            k,
        ) == PollDecision::GiveUp,
{
    lemma_polls_left(policy, statuses.take(k));
}

} // verus!
