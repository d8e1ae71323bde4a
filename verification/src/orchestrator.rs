//! The two-job session as a machine: every answer of the proving service is
//! an event, and the machine says what is done next. It fetches nothing and
//! sleeps nowhere; whoever drives it performs the action and comes back with
//! the event that the action led to.

use vstd::prelude::*;
use crate::error::{Error, ErrorView};
use crate::poller::{after, decide, status_of, JobStatus, PollDecision, PollPolicy, SessionPoller, Terminal};
use crate::receipt::{verdict, verify, ReceiptCheck, ReceiptCheckView};
use crate::seal::{transcode, Groth16Seal, Groth16SealView, Seal, SealError, SealFault, SealField, SealView, ShapeError};
use crate::word::U256;

verus! {

/// What a submitted job is waiting for.
#[derive(Clone, Copy, Debug, PartialEq, Eq)]
pub enum Pending {
    /// The service has not yet confirmed the job.
    Creation,
    /// A status was asked for.
    Status,
    /// The pause before the next poll is running.
    Sleep,
}

/// Where a run stands.
#[derive(Clone, Copy, Debug, PartialEq, Eq)]
pub enum Stage {
    Idle,
    ProofSubmitted(Pending),
    /// The proof job succeeded; its receipt is being checked.
    ProofSucceeded,
    ProofFailed,
    SnarkSubmitted(Pending),
    /// The compressed proof was transcoded and handed out.
    SnarkSucceeded,
    SnarkFailed,
    /// The run was ended by something else than a failed job.
    Aborted,
}

/// The output of a finished SNARK job.
#[derive(Clone, Debug, PartialEq, Eq)]
pub struct SnarkReceipt {
    pub snark: Groth16Seal,
    pub post_state_digest: Vec<u8>,
}

pub struct SnarkReceiptView {
    pub snark: Groth16SealView,
    pub post_state_digest: Seq<u8>,
}

impl View for SnarkReceipt {
    type V = SnarkReceiptView;

    open spec fn view(&self) -> SnarkReceiptView {
        SnarkReceiptView { snark: self.snark@, post_state_digest: self.post_state_digest@ }
    }
}

/// What happened outside since the last action.
#[derive(Clone, Debug, PartialEq, Eq)]
pub enum Event {
    /// The run is to begin.
    Start,
    /// The service accepted the proof job.
    ProofJobCreated,
    /// The service answered a poll of the proof job.
    ProofStatus { status: String, receipt_url: Option<String>, error_msg: Option<String> },
    /// The pause is over.
    Slept,
    /// The receipt was fetched and checked cryptographically.
    ReceiptChecked { check: ReceiptCheck },
    /// The service accepted the SNARK job.
    SnarkJobCreated,
    /// The service answered a poll of the SNARK job.
    SnarkStatus { status: String, output: Option<SnarkReceipt>, error_msg: Option<String> },
    /// A request did not get through.
    TransportFailed { message: String },
}

pub enum EventView {
    Start,
    ProofJobCreated,
    ProofStatus { status: Seq<char>, receipt_url: Option<Seq<char>>, error_msg: Option<Seq<char>> },
    Slept,
    ReceiptChecked { check: ReceiptCheckView },
    SnarkJobCreated,
    SnarkStatus { status: Seq<char>, output: Option<SnarkReceiptView>, error_msg: Option<Seq<char>> },
    TransportFailed { message: Seq<char> },
}

/// The characters of a text that may be missing.
pub open spec fn text_view(text: Option<String>) -> Option<Seq<char>> {
    match text {
        Some(t) => Some(t@),
        None => None,
    }
}

impl View for Event {
    type V = EventView;

    open spec fn view(&self) -> EventView {
        match *self {
            Event::Start => EventView::Start,
            Event::ProofJobCreated => EventView::ProofJobCreated,
            Event::ProofStatus { status, receipt_url, error_msg } => EventView::ProofStatus {
                status: status@,
                receipt_url: text_view(receipt_url),
                error_msg: text_view(error_msg),
            },
            Event::Slept => EventView::Slept,
            Event::ReceiptChecked { check } => EventView::ReceiptChecked { check: check@ },
            Event::SnarkJobCreated => EventView::SnarkJobCreated,
            Event::SnarkStatus { status, output, error_msg } => EventView::SnarkStatus {
                status: status@,
                output: match output {
                    Some(o) => Some(o@),
                    None => None,
                },
                error_msg: text_view(error_msg),
            },
            Event::TransportFailed { message } => EventView::TransportFailed { message: message@ },
        }
    }
}

/// What is to be done next.
#[derive(Clone, Debug, PartialEq, Eq)]
pub enum Action {
    /// Upload the input and create the proof job.
    SubmitProof,
    /// Ask for the status of the proof job.
    PollProof,
    /// Pause for this many seconds.
    Sleep { secs: u64 },
    /// Fetch the receipt from this place and check it cryptographically.
    CheckReceipt { url: String },
    /// Create the SNARK job for the proof job.
    SubmitSnark,
    /// Ask for the status of the SNARK job.
    PollSnark,
    /// The run is over: this is its result.
    Deliver { seal: Seal, post_state_digest: [u8; 32] },
    /// The run is over without a result.
    Abort { error: Error },
}

pub enum ActionView {
    SubmitProof,
    PollProof,
    Sleep { secs: u64 },
    CheckReceipt { url: Seq<char> },
    SubmitSnark,
    PollSnark,
    Deliver { seal: SealView, post_state_digest: Seq<u8> },
    Abort { error: ErrorView },
}

impl View for Action {
    type V = ActionView;

    open spec fn view(&self) -> ActionView {
        match *self {
            Action::SubmitProof => ActionView::SubmitProof,
            Action::PollProof => ActionView::PollProof,
            Action::Sleep { secs } => ActionView::Sleep { secs },
            Action::CheckReceipt { url } => ActionView::CheckReceipt { url: url@ },
            Action::SubmitSnark => ActionView::SubmitSnark,
            Action::PollSnark => ActionView::PollSnark,
            Action::Deliver { seal, post_state_digest } => ActionView::Deliver {
                seal: seal@,
                post_state_digest: post_state_digest@,
            },
            Action::Abort { error } => ActionView::Abort { error: error@ },
        }
    }
}

/// One run: the input that the proof has to commit to, how the jobs are
/// polled, where the run stands, and the poller of the job that is running.
#[derive(Clone, Copy, Debug, PartialEq, Eq)]
pub struct ProofOrchestrator {
    pub input: U256,
    pub policy: PollPolicy,
    pub stage: Stage,
    pub poller: SessionPoller,
}

/// Whether a run at this stage has ended.
pub open spec fn is_over(stage: Stage) -> bool {
    stage is ProofFailed || stage is SnarkSucceeded || stage is SnarkFailed || stage is Aborted
}

/// The text, or the empty text where there is none.
pub open spec fn text_or_empty(text: Option<Seq<char>>) -> Seq<char> {
    match text {
        Some(t) => t,
        None => Seq::empty(),
    }
}

/// The poller that a job starts with.
pub open spec fn fresh_poller(policy: PollPolicy) -> SessionPoller {
    SessionPoller { interval_secs: policy.interval_secs, polls_left: policy.max_polls }
}

/// What the output of a finished SNARK job gives: the transcoded seal and
/// the digest, if the seal can be transcoded and the digest has 32 bytes.
/// The seal is judged first.
pub open spec fn snark_result(output: SnarkReceiptView) -> Result<(SealView, Seq<u8>), ErrorView> {
    match transcode(output.snark) {
        Err(fault) => Err(ErrorView::Seal(fault)),
        Ok(seal) => if output.post_state_digest.len() == 32 {
            Ok((seal, output.post_state_digest))
        } else {
            Err(
                ErrorView::Seal(
                    SealFault::Shape {
                        field: SealField::PostStateDigest,
                        expected: 32,
                        actual: output.post_state_digest.len(),
                    },
                ),
            )
        },
    }
}

/// The run ends at `stage` with `error`.
pub open spec fn ended(o: ProofOrchestrator, stage: Stage, error: ErrorView) -> (
    ProofOrchestrator,
    ActionView,
) {
    (ProofOrchestrator { stage, ..o }, ActionView::Abort { error })
}

/// The answer to a status of the proof job.
pub open spec fn on_proof_status(
    o: ProofOrchestrator,
    status: Seq<char>,
    receipt_url: Option<Seq<char>>,
    error_msg: Option<Seq<char>>,
) -> (ProofOrchestrator, ActionView) {
    let polled = ProofOrchestrator { poller: after(o.poller, status_of(status)), ..o };
    match decide(o.poller, status_of(status)) {
        PollDecision::Sleep { secs } => (
            ProofOrchestrator { stage: Stage::ProofSubmitted(Pending::Sleep), ..polled },
            ActionView::Sleep { secs },
        ),
        PollDecision::GiveUp => ended(polled, Stage::Aborted, ErrorView::DeadlineExceeded),
        PollDecision::Finish { status: Terminal::Failed } => ended(
            polled,
            Stage::ProofFailed,
            ErrorView::RemoteJobFailed { message: text_or_empty(error_msg) },
        ),
        PollDecision::Finish { status: Terminal::Succeeded } => match receipt_url {
            Some(url) => (
                ProofOrchestrator { stage: Stage::ProofSucceeded, ..polled },
                ActionView::CheckReceipt { url },
            ),
            None => ended(polled, Stage::Aborted, ErrorView::MissingArtifact),
        },
    }
}

/// The answer to a status of the SNARK job.
pub open spec fn on_snark_status(
    o: ProofOrchestrator,
    status: Seq<char>,
    output: Option<SnarkReceiptView>,
    error_msg: Option<Seq<char>>,
) -> (ProofOrchestrator, ActionView) {
    let polled = ProofOrchestrator { poller: after(o.poller, status_of(status)), ..o };
    match decide(o.poller, status_of(status)) {
        PollDecision::Sleep { secs } => (
            ProofOrchestrator { stage: Stage::SnarkSubmitted(Pending::Sleep), ..polled },
            ActionView::Sleep { secs },
        ),
        PollDecision::GiveUp => ended(polled, Stage::Aborted, ErrorView::DeadlineExceeded),
        PollDecision::Finish { status: Terminal::Failed } => ended(
            polled,
            Stage::SnarkFailed,
            ErrorView::RemoteJobFailed { message: text_or_empty(error_msg) },
        ),
        PollDecision::Finish { status: Terminal::Succeeded } => match output {
            None => ended(polled, Stage::Aborted, ErrorView::MissingArtifact),
            Some(receipt) => match snark_result(receipt) {
                Ok((seal, post_state_digest)) => (
                    ProofOrchestrator { stage: Stage::SnarkSucceeded, ..polled },
                    ActionView::Deliver { seal, post_state_digest },
                ),
                Err(error) => ended(polled, Stage::Aborted, error),
            },
        },
    }
}

/// The machine: the state after an event, and the action that answers it.
///
/// A run that has ended stays as it is and refuses every event. A transport
/// failure ends any run that has not ended. Every other event is taken only
/// at the stage that waits for it, and ends the run where it comes out of
/// turn.
pub open spec fn next(o: ProofOrchestrator, e: EventView) -> (ProofOrchestrator, ActionView) {
    if is_over(o.stage) {
        (o, ActionView::Abort { error: ErrorView::OutOfTurn })
    } else {
        match e {
            EventView::TransportFailed { message } => ended(
                o,
                Stage::Aborted,
                ErrorView::Transport { message },
            ),
            EventView::Start => if o.stage == Stage::Idle {
                (
                    ProofOrchestrator { stage: Stage::ProofSubmitted(Pending::Creation), ..o },
                    ActionView::SubmitProof,
                )
            } else {
                ended(o, Stage::Aborted, ErrorView::OutOfTurn)
            },
            EventView::ProofJobCreated => if o.stage == Stage::ProofSubmitted(Pending::Creation) {
                (
                    ProofOrchestrator {
                        stage: Stage::ProofSubmitted(Pending::Status),
                        poller: fresh_poller(o.policy),
                        ..o
                    },
                    ActionView::PollProof,
                )
            } else {
                ended(o, Stage::Aborted, ErrorView::OutOfTurn)
            },
            EventView::ProofStatus { status, receipt_url, error_msg } => if o.stage
                == Stage::ProofSubmitted(Pending::Status) {
                on_proof_status(o, status, receipt_url, error_msg)
            } else {
                ended(o, Stage::Aborted, ErrorView::OutOfTurn)
            },
            EventView::Slept => if o.stage == Stage::ProofSubmitted(Pending::Sleep) {
                (
                    ProofOrchestrator { stage: Stage::ProofSubmitted(Pending::Status), ..o },
                    ActionView::PollProof,
                )
            } else if o.stage == Stage::SnarkSubmitted(Pending::Sleep) {
                (
                    ProofOrchestrator { stage: Stage::SnarkSubmitted(Pending::Status), ..o },
                    ActionView::PollSnark,
                )
            } else {
                ended(o, Stage::Aborted, ErrorView::OutOfTurn)
            },
            EventView::ReceiptChecked { check } => if o.stage == Stage::ProofSucceeded {
                match verdict(check, o.input@) {
                    Ok(_) => (
                        ProofOrchestrator { stage: Stage::SnarkSubmitted(Pending::Creation), ..o },
                        ActionView::SubmitSnark,
                    ),
                    Err(error) => ended(o, Stage::Aborted, error),
                }
            } else {
                ended(o, Stage::Aborted, ErrorView::OutOfTurn)
            },
            EventView::SnarkJobCreated => if o.stage == Stage::SnarkSubmitted(Pending::Creation) {
                (
                    ProofOrchestrator {
                        stage: Stage::SnarkSubmitted(Pending::Status),
                        poller: fresh_poller(o.policy),
                        ..o
                    },
                    ActionView::PollSnark,
                )
            } else {
                ended(o, Stage::Aborted, ErrorView::OutOfTurn)
            },
            EventView::SnarkStatus { status, output, error_msg } => if o.stage
                == Stage::SnarkSubmitted(Pending::Status) {
                on_snark_status(o, status, output, error_msg)
            } else {
                ended(o, Stage::Aborted, ErrorView::OutOfTurn)
            },
        }
    }
}

/// The text, or an empty text where there is none.
fn or_empty(text: Option<String>) -> (r: String)
    ensures
        r@ == text_or_empty(text_view(text)),
{
    match text {
        Some(t) => t,
        None => String::new(),
    }
}

/// The 32 bytes of a digest as an array.
fn digest_array(bytes: &Vec<u8>) -> (r: [u8; 32])
    requires
        bytes@.len() == 32,
    ensures
        r@ == bytes@,
{
    let mut out = [0u8; 32];
    let mut i: usize = 0;
    while i < 32
        invariant
            i <= 32,
            bytes@.len() == 32,
            out@.len() == 32,
            forall|j: int| 0 <= j < i ==> out@[j] == bytes@[j],
        decreases 32 - i,
    {
        out[i] = bytes[i];
        i += 1;
    }
    assert(out@ =~= bytes@);
    out
}

/// Transcodes the output of a finished SNARK job.
pub fn read_snark(output: SnarkReceipt) -> (r: Result<(Seal, [u8; 32]), Error>)
    ensures
        match snark_result(output@) {
            Ok((seal, digest)) => r matches Ok(pair) && pair.0@ == seal && pair.1@ == digest,
            Err(fault) => r matches Err(e) && e@ == fault,
        },
{
    let SnarkReceipt { snark, post_state_digest } = output;
    match Seal::try_from(snark) {
        Err(e) => Err(Error::Seal(e)),
        Ok(seal) => {
            if post_state_digest.len() == 32 {
                Ok((seal, digest_array(&post_state_digest)))
            } else {
                Err(
                    Error::Seal(
                        SealError::Shape(
                            ShapeError {
                                field: SealField::PostStateDigest,
                                expected: 32,
                                actual: post_state_digest.len(),
                            },
                        ),
                    ),
                )
            }
        },
    }
}

impl ProofOrchestrator {
    /// A run that has not begun.
    pub fn new(input: U256, policy: PollPolicy) -> (r: ProofOrchestrator)
        ensures
            r == (ProofOrchestrator {
                input,
                policy,
                stage: Stage::Idle,
                poller: fresh_poller(policy),
            }),
    {
        ProofOrchestrator { input, policy, stage: Stage::Idle, poller: SessionPoller::new(policy) }
    }

    /// Whether the run has ended.
    pub fn is_over(&self) -> (r: bool)
        ensures
            r == is_over(self.stage),
    {
        match self.stage {
            Stage::ProofFailed => true,
            Stage::SnarkSucceeded => true,
            Stage::SnarkFailed => true,
            Stage::Aborted => true,
            _ => false,
        }
    }

    /// Ends the run.
    fn end(&mut self, stage: Stage, error: Error) -> (action: Action)
        ensures
            (*final(self), action@) == ended(*old(self), stage, error@),
    {
        self.stage = stage;
        Action::Abort { error }
    }

    fn proof_status(
        &mut self,
        status: String,
        receipt_url: Option<String>,
        error_msg: Option<String>,
    ) -> (action: Action)
        ensures
            (*final(self), action@) == on_proof_status(
                *old(self),
                status@,
                text_view(receipt_url),
                text_view(error_msg),
            ),
    {
        let decision = self.poller.observe(JobStatus::parse(status.as_str()));
        match decision {
            PollDecision::Sleep { secs } => {
                self.stage = Stage::ProofSubmitted(Pending::Sleep);
                Action::Sleep { secs }
            },
            PollDecision::GiveUp => self.end(Stage::Aborted, Error::DeadlineExceeded),
            PollDecision::Finish { status: Terminal::Failed } => {
                let message = or_empty(error_msg);
                self.end(Stage::ProofFailed, Error::RemoteJobFailed { message })
            },
            PollDecision::Finish { status: Terminal::Succeeded } => match receipt_url {
                Some(url) => {
                    self.stage = Stage::ProofSucceeded;
                    Action::CheckReceipt { url }
                },
                None => self.end(Stage::Aborted, Error::MissingArtifact),
            },
        }
    }

    fn snark_status(
        &mut self,
        status: String,
        output: Option<SnarkReceipt>,
        error_msg: Option<String>,
    ) -> (action: Action)
        ensures
            (*final(self), action@) == on_snark_status(
                *old(self),
                status@,
                match output {
                    Some(o) => Some(o@),
                    None => None,
                },
                text_view(error_msg),
            ),
    {
        let decision = self.poller.observe(JobStatus::parse(status.as_str()));
        match decision {
            PollDecision::Sleep { secs } => {
                self.stage = Stage::SnarkSubmitted(Pending::Sleep);
                Action::Sleep { secs }
            },
            PollDecision::GiveUp => self.end(Stage::Aborted, Error::DeadlineExceeded),
            PollDecision::Finish { status: Terminal::Failed } => {
                let message = or_empty(error_msg);
                self.end(Stage::SnarkFailed, Error::RemoteJobFailed { message })
            },
            PollDecision::Finish { status: Terminal::Succeeded } => match output {
                None => self.end(Stage::Aborted, Error::MissingArtifact),
                Some(receipt) => match read_snark(receipt) {
                    Ok((seal, post_state_digest)) => {
                        self.stage = Stage::SnarkSucceeded;
                        Action::Deliver { seal, post_state_digest }
                    },
                    Err(error) => self.end(Stage::Aborted, error),
                },
            },
        }
    }

    /// Takes an event and says what is to be done next.
    pub fn step(&mut self, event: Event) -> (action: Action)
        ensures
            (*final(self), action@) == next(*old(self), event@),
    {
        if self.is_over() {
            return Action::Abort { error: Error::OutOfTurn };
        }
        match event {
            Event::TransportFailed { message } => self.end(
                Stage::Aborted,
                Error::Transport { message },
            ),
            Event::Start => match self.stage {
                Stage::Idle => {
                    self.stage = Stage::ProofSubmitted(Pending::Creation);
                    Action::SubmitProof
                },
                _ => self.end(Stage::Aborted, Error::OutOfTurn),
            },
            Event::ProofJobCreated => match self.stage {
                Stage::ProofSubmitted(Pending::Creation) => {
                    self.stage = Stage::ProofSubmitted(Pending::Status);
                    self.poller = SessionPoller::new(self.policy);
                    Action::PollProof
                },
                _ => self.end(Stage::Aborted, Error::OutOfTurn),
            },
            Event::ProofStatus { status, receipt_url, error_msg } => match self.stage {
                Stage::ProofSubmitted(Pending::Status) => self.proof_status(
                    status,
                    receipt_url,
                    error_msg,
                ),
                _ => self.end(Stage::Aborted, Error::OutOfTurn),
            },
            Event::Slept => match self.stage {
                Stage::ProofSubmitted(Pending::Sleep) => {
                    self.stage = Stage::ProofSubmitted(Pending::Status);
                    Action::PollProof
                },
                Stage::SnarkSubmitted(Pending::Sleep) => {
                    self.stage = Stage::SnarkSubmitted(Pending::Status);
                    Action::PollSnark
                },
                _ => self.end(Stage::Aborted, Error::OutOfTurn),
            },
            Event::ReceiptChecked { check } => match self.stage {
                Stage::ProofSucceeded => {
                    let input = self.input;
                    match verify(check, &input) {
                        Ok(_) => {
                            self.stage = Stage::SnarkSubmitted(Pending::Creation);
                            Action::SubmitSnark
                        },
                        Err(error) => self.end(Stage::Aborted, error),
                    }
                },
                _ => self.end(Stage::Aborted, Error::OutOfTurn),
            },
            Event::SnarkJobCreated => match self.stage {
                Stage::SnarkSubmitted(Pending::Creation) => {
                    self.stage = Stage::SnarkSubmitted(Pending::Status);
                    self.poller = SessionPoller::new(self.policy);
                    Action::PollSnark
                },
                _ => self.end(Stage::Aborted, Error::OutOfTurn),
            },
            Event::SnarkStatus { status, output, error_msg } => match self.stage {
                Stage::SnarkSubmitted(Pending::Status) => self.snark_status(
                    status,
                    output,
                    error_msg,
                ),
                _ => self.end(Stage::Aborted, Error::OutOfTurn),
            },
        }
    }
}

/// The state of a run after a sequence of events.
pub open spec fn state_after(o: ProofOrchestrator, events: Seq<EventView>) -> ProofOrchestrator
    decreases events.len(),
{
    if events.len() == 0 {
        o
    } else {
        next(state_after(o, events.drop_last()), events.last()).0
    }
}

/// The action that answers the event at place `i` of a run.
pub open spec fn action_at(o: ProofOrchestrator, events: Seq<EventView>, i: int) -> ActionView {
    next(state_after(o, events.take(i)), events[i]).1
}

/// Whether a run at this stage has created a SNARK job.
pub open spec fn in_snark_phase(stage: Stage) -> bool {
    stage is SnarkSubmitted || stage is SnarkSucceeded || stage is SnarkFailed
}

/// Whether an event reports a receipt that passed the cryptographic check
/// and commits to `input`.
pub open spec fn is_valid_receipt_for(e: EventView, input: nat) -> bool {
    e matches EventView::ReceiptChecked { check } && verdict(check, input) is Ok
}

/// A SNARK job is asked for in one case only: the run waits for the check of
/// a receipt, and the receipt verifies and commits to the run's input.
pub proof fn lemma_snark_only_after_verification(o: ProofOrchestrator, e: EventView)
    requires
        next(o, e).1 is SubmitSnark,
    ensures
        o.stage == Stage::ProofSucceeded,
        is_valid_receipt_for(e, o.input@),
        next(o, e).0.stage == Stage::SnarkSubmitted(Pending::Creation),
{
}

/// No event changes the input or the policy of a run.
pub proof fn lemma_input_is_kept(o: ProofOrchestrator, events: Seq<EventView>)
    ensures
        state_after(o, events).input == o.input,
        state_after(o, events).policy == o.policy,
    decreases events.len(),
{
    if events.len() > 0 {
        lemma_input_is_kept(o, events.drop_last());
    }
}

/// A run that began idle and stands in its SNARK phase has asked for the
/// SNARK job at some earlier event.
pub proof fn lemma_snark_phase_was_entered(o: ProofOrchestrator, events: Seq<EventView>, n: int)
    requires
        o.stage == Stage::Idle,
        0 <= n <= events.len(),
        in_snark_phase(state_after(o, events.take(n)).stage),
    ensures
        exists|j: int| 0 <= j < n && #[trigger] action_at(o, events, j) is SubmitSnark,
    decreases n,
{
    if n > 0 {
        let before = state_after(o, events.take(n - 1));
        assert(events.take(n).drop_last() =~= events.take(n - 1));
        assert(events.take(n).last() == events[n - 1]);
        assert(state_after(o, events.take(n)) == next(before, events[n - 1]).0);
        if in_snark_phase(before.stage) {
            lemma_snark_phase_was_entered(o, events, n - 1);
        } else {
            assert(action_at(o, events, n - 1) is SubmitSnark);
        }
    }
}

/// Whatever events reach a run that began idle: it hands out a seal only
/// after it has asked for the SNARK job, and it has asked for the SNARK job
/// only on a receipt that verifies and commits to the run's input. So no
/// SNARK job is paid for, and no seal is handed out, for a proof that was
/// not verified or that attests to another number.
pub proof fn lemma_delivery_was_verified(o: ProofOrchestrator, events: Seq<EventView>, i: int)
    requires
        o.stage == Stage::Idle,
        0 <= i < events.len(),
        action_at(o, events, i) is Deliver,
    ensures
        exists|j: int|
            0 <= j < i && #[trigger] action_at(o, events, j) is SubmitSnark && is_valid_receipt_for(
                events[j],
                o.input@,
            ),
{
    let before = state_after(o, events.take(i));
    assert(before.stage == Stage::SnarkSubmitted(Pending::Status));
    lemma_snark_phase_was_entered(o, events, i);
    let j = choose|j: int| 0 <= j < i && #[trigger] action_at(o, events, j) is SubmitSnark;
    lemma_snark_only_after_verification(state_after(o, events.take(j)), events[j]);
    lemma_input_is_kept(o, events.take(j));
}

/// A pause is asked for only in answer to a status that says the job is
/// running: no run sleeps before it has polled.
pub proof fn lemma_sleep_only_after_running_status(o: ProofOrchestrator, e: EventView)
    requires
        next(o, e).1 is Sleep,
    ensures
        match e {
            EventView::ProofStatus { status, .. } => status_of(status) == JobStatus::Running
                && o.stage == Stage::ProofSubmitted(Pending::Status),
            EventView::SnarkStatus { status, .. } => status_of(status) == JobStatus::Running
                && o.stage == Stage::SnarkSubmitted(Pending::Status),
            _ => false,
        },
        next(o, e).1 == (ActionView::Sleep { secs: o.poller.interval_secs }),
{
}

/// A run that has ended takes no further step: it stays as it is and refuses
/// the event.
pub proof fn lemma_ended_run_stays(o: ProofOrchestrator, e: EventView)
    requires
        is_over(o.stage),
    ensures
        next(o, e) == (o, ActionView::Abort { error: ErrorView::OutOfTurn }),
{
}

/// A failed proof job ends the run with the message of the service, and no
/// SNARK job is asked for.
pub proof fn lemma_failed_proof_job_ends_run(
    o: ProofOrchestrator,
    status: Seq<char>,
    receipt_url: Option<Seq<char>>,
    error_msg: Option<Seq<char>>,
)
    requires
        o.stage == Stage::ProofSubmitted(Pending::Status),
        status_of(status) == JobStatus::Failed,
    ensures
        next(o, EventView::ProofStatus { status, receipt_url, error_msg }).1 == (ActionView::Abort {
            error: ErrorView::RemoteJobFailed { message: text_or_empty(error_msg) },
        }),
        next(o, EventView::ProofStatus { status, receipt_url, error_msg }).0.stage
            == Stage::ProofFailed,
{
}

} // verus!
