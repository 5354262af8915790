//! The pipeline of one target: resolve the kind, execute, poll the job.
//!
//! A pipeline decides and never sends. It hands out an [`Action`]; the caller
//! performs it and hands back what came of it as an [`Event`].

use vstd::prelude::*;
use crate::auth::{Session, SessionView};
use crate::json::{doc_view, json_of, Json, JsonView};
use crate::mgmt::{accepted, accepted_handle, finished, resolution_in, resolve, status_in, Resolution};
use crate::model::{
    ExecutionError, Failure, FailureView, JobStatus, JobStatusView, Operation, OperationView,
    Outcome, OutcomeView, ResourceKind, Target, TargetView,
};
use crate::request::{execute_spec, poll_spec, probe_spec, Request, RequestView};

verus! {

/// The status that counts as success for a request that starts a job.
pub const STATUS_OK: u16 = 200;

/// How long the caller waits before it first asks for the status of a job.
pub const POLL_DELAY_MS: u64 = 350;

/// Where a pipeline stands.
#[derive(Debug, PartialEq, Eq)]
pub enum Phase {
    /// Nothing was sent yet.
    Idle,
    /// The probe is out.
    Probing,
    /// The operation is out to the endpoint of this kind.
    Executing(ResourceKind),
    /// The job with this handle was accepted and has not been seen to end.
    Polling(String),
    /// The target has its outcome.
    Finished,
}

/// A [`Phase`] as a mathematical value.
pub enum PhaseView {
    Idle,
    Probing,
    Executing(ResourceKind),
    Polling(Seq<char>),
    Finished,
}

impl View for Phase {
    type V = PhaseView;

    open spec fn view(&self) -> PhaseView {
        match *self {
            Phase::Idle => PhaseView::Idle,
            Phase::Probing => PhaseView::Probing,
            Phase::Executing(kind) => PhaseView::Executing(kind),
            Phase::Polling(handle) => PhaseView::Polling(handle@),
            Phase::Finished => PhaseView::Finished,
        }
    }
}

/// What came of a request, as the transport saw it.
#[derive(Debug, PartialEq, Eq)]
pub enum Event {
    /// An answer arrived, with this status and this text.
    Response { status: u16, body: String },
    /// No answer arrived; the text says what the transport reported.
    TransportFailure(String),
}

/// An [`Event`] as a mathematical value.
pub enum EventView {
    Response { status: u16, body: Seq<char> },
    TransportFailure(Seq<char>),
}

impl View for Event {
    type V = EventView;

    open spec fn view(&self) -> EventView {
        match *self {
            Event::Response { status, body } => EventView::Response { status, body: body@ },
            Event::TransportFailure(detail) => EventView::TransportFailure(detail@),
        }
    }
}

/// What came of a request, with the text of the answer read as JSON.
#[derive(Debug, PartialEq, Eq)]
pub enum Reply {
    /// An answer arrived; `doc` is its document, `None` where the text is no JSON.
    Response { status: u16, doc: Option<Json> },
    TransportFailure(String),
}

/// A [`Reply`] as a mathematical value.
pub enum ReplyView {
    Response { status: u16, doc: Option<JsonView> },
    TransportFailure(Seq<char>),
}

impl View for Reply {
    type V = ReplyView;

    open spec fn view(&self) -> ReplyView {
        match *self {
            Reply::Response { status, doc } => ReplyView::Response { status, doc: doc_view(doc) },
            Reply::TransportFailure(detail) => ReplyView::TransportFailure(detail@),
        }
    }
}

impl Event {
    /// Reads the text of an answer as JSON.
    pub fn parse(self) -> (reply: Reply)
        ensures
            reply@ == reply_of(self@),
    {
        match self {
            Event::Response { status, body } => Reply::Response {
                status,
                doc: Json::parse(body.as_str()),
            },
            Event::TransportFailure(detail) => Reply::TransportFailure(detail),
        }
    }
}

/// The reply that an event amounts to once its text is parsed.
pub open spec fn reply_of(event: EventView) -> ReplyView {
    match event {
        EventView::Response { status, body } => ReplyView::Response { status, doc: json_of(body) },
        EventView::TransportFailure(detail) => ReplyView::TransportFailure(detail),
    }
}

/// What the caller is to do next for a target.
#[derive(Debug, PartialEq)]
pub enum Action {
    /// Wait `delay_ms` milliseconds, send `request`, and hand back the event.
    Send { request: Request, delay_ms: u64 },
    /// Record the outcome: the pipeline is done.
    Finish(Outcome),
    /// Nothing: no request is out, or the pipeline is done already.
    Nothing,
}

/// An [`Action`] as a mathematical value.
pub enum ActionView {
    Send { request: RequestView, delay_ms: nat },
    Finish(OutcomeView),
    Nothing,
}

impl View for Action {
    type V = ActionView;

    open spec fn view(&self) -> ActionView {
        match *self {
            Action::Send { request, delay_ms } => ActionView::Send {
                request: request@,
                delay_ms: delay_ms as nat,
            },
            Action::Finish(outcome) => ActionView::Finish(outcome@),
            Action::Nothing => ActionView::Nothing,
        }
    }
}

/// The pipeline of one target.
#[derive(Debug, PartialEq, Eq)]
pub struct Pipeline {
    pub base: String,
    pub session: Session,
    pub target: Target,
    pub op: Operation,
    pub phase: Phase,
}

/// A [`Pipeline`] as a mathematical value.
pub struct PipelineView {
    pub base: Seq<char>,
    pub session: SessionView,
    pub target: TargetView,
    pub op: OperationView,
    pub phase: PhaseView,
}

impl View for Pipeline {
    type V = PipelineView;

    open spec fn view(&self) -> PipelineView {
        PipelineView {
            base: self.base@,
            session: self.session@,
            target: self.target@,
            op: self.op@,
            phase: self.phase@,
        }
    }
}

impl PipelineView {
    /// This pipeline in another phase.
    pub open spec fn at(self, phase: PhaseView) -> PipelineView {
        PipelineView { phase, ..self }
    }

    /// Moves to `phase` and has `request` sent after `delay_ms` milliseconds.
    pub open spec fn send(self, phase: PhaseView, request: RequestView, delay_ms: nat) -> (
        PipelineView,
        ActionView,
    ) {
        (self.at(phase), ActionView::Send { request, delay_ms })
    }

    /// Ends the pipeline with `outcome`.
    pub open spec fn finish(self, outcome: OutcomeView) -> (PipelineView, ActionView) {
        (self.at(PhaseView::Finished), ActionView::Finish(outcome))
    }

    /// Sends the operation to the endpoint of `kind`.
    pub open spec fn execute_on(self, kind: ResourceKind) -> (PipelineView, ActionView) {
        self.send(
            PhaseView::Executing(kind),
            execute_spec(self.base, self.session, self.target, self.op, kind),
            0,
        )
    }

    /// The first move. Clone and destroy go to the virtual-machine endpoint at
    /// once; start and stop probe first. A pipeline that has begun stays as it is.
    pub open spec fn begin(self) -> (PipelineView, ActionView) {
        match self.phase {
            PhaseView::Idle => if self.op.by_trial() {
                self.execute_on(ResourceKind::VirtualMachine)
            } else {
                self.send(PhaseView::Probing, probe_spec(self.base, self.session, self.target), 0)
            },
            _ => (self, ActionView::Nothing),
        }
    }

    /// The move after the probe was answered with `doc`.
    pub open spec fn after_probe(self, doc: Option<JsonView>) -> (PipelineView, ActionView) {
        match resolution_in(doc) {
            Resolution::VirtualMachine => self.execute_on(ResourceKind::VirtualMachine),
            Resolution::Container => self.execute_on(ResourceKind::Container),
            Resolution::Unknown => self.finish(OutcomeView::Failed(FailureView::Resolution)),
        }
    }

    /// Whether a rejection by the endpoint of `kind` is followed by one more try.
    pub open spec fn falls_back(self, kind: ResourceKind) -> bool {
        kind == ResourceKind::VirtualMachine && self.op.by_trial()
    }

    /// The move after the endpoint of `kind` answered the operation.
    pub open spec fn after_execute(self, kind: ResourceKind, status: u16, doc: Option<JsonView>) -> (
        PipelineView,
        ActionView,
    ) {
        if status == STATUS_OK {
            match accepted_handle(doc) {
                Some(handle) => self.send(
                    PhaseView::Polling(handle),
                    poll_spec(self.base, self.session, self.target, handle),
                    POLL_DELAY_MS as nat,
                ),
                None => self.finish(
                    OutcomeView::Failed(FailureView::Execution(ExecutionError::Malformed)),
                ),
            }
        } else if self.falls_back(kind) {
            self.execute_on(ResourceKind::Container)
        } else {
            self.finish(OutcomeView::Failed(FailureView::Execution(ExecutionError::Rejected(status))))
        }
    }

    /// The move after the status of the job `handle` was answered with `doc`.
    pub open spec fn after_poll(self, handle: Seq<char>, doc: Option<JsonView>) -> (
        PipelineView,
        ActionView,
    ) {
        match status_in(doc) {
            JobStatusView::Running => self.send(
                PhaseView::Polling(handle),
                poll_spec(self.base, self.session, self.target, handle),
                0,
            ),
            JobStatusView::Succeeded => self.finish(OutcomeView::Succeeded),
            JobStatusView::Failed(detail) => self.finish(
                OutcomeView::Failed(FailureView::Poll(detail)),
            ),
        }
    }

    /// The move after `reply`. A pipeline with no request out stays as it is;
    /// a transport failure ends any other pipeline.
    pub open spec fn step(self, reply: ReplyView) -> (PipelineView, ActionView) {
        match self.phase {
            PhaseView::Idle => (self, ActionView::Nothing),
            PhaseView::Finished => (self, ActionView::Nothing),
            PhaseView::Probing => match reply {
                ReplyView::TransportFailure(detail) => self.finish(
                    OutcomeView::Failed(FailureView::Transport(detail)),
                ),
                ReplyView::Response { status, doc } => self.after_probe(doc),
            },
            PhaseView::Executing(kind) => match reply {
                ReplyView::TransportFailure(detail) => self.finish(
                    OutcomeView::Failed(FailureView::Transport(detail)),
                ),
                ReplyView::Response { status, doc } => self.after_execute(kind, status, doc),
            },
            PhaseView::Polling(handle) => match reply {
                ReplyView::TransportFailure(detail) => self.finish(
                    OutcomeView::Failed(FailureView::Transport(detail)),
                ),
                ReplyView::Response { status, doc } => self.after_poll(handle, doc),
            },
        }
    }
}

impl PipelineView {
    /// The pipeline after `replies`, one after another.
    pub open spec fn run(self, replies: Seq<ReplyView>) -> PipelineView
        decreases replies.len(),
    {
        if replies.len() == 0 {
            self
        } else {
            self.run(replies.drop_last()).step(replies.last()).0
        }
    }

    /// The actions that `replies` bring about, one for each reply.
    pub open spec fn log(self, replies: Seq<ReplyView>) -> Seq<ActionView>
        decreases replies.len(),
    {
        if replies.len() == 0 {
            Seq::empty()
        } else {
            self.log(replies.drop_last()).push(self.run(replies.drop_last()).step(replies.last()).1)
        }
    }
}

/// The first move of a fresh pipeline sends a request and leaves the
/// pipeline waiting; nothing but the phase changes.
pub proof fn lemma_begin_sends(p: PipelineView)
    requires
        p.phase is Idle,
    ensures
        p.begin().1 is Send,
        p.begin().0.at(PhaseView::Idle) == p,
        !(p.begin().0.phase is Idle),
        !(p.begin().0.phase is Finished),
{
}

/// A move changes nothing but the phase. Of a waiting pipeline it either
/// sends and leaves the pipeline waiting, or finishes it.
pub proof fn lemma_step_shape(p: PipelineView, reply: ReplyView)
    ensures
        p.step(reply).0.at(PhaseView::Idle) == p.at(PhaseView::Idle),
        p.phase is Idle || p.phase is Finished ==> p.step(reply) == (p, ActionView::Nothing),
        !(p.phase is Idle) && !(p.phase is Finished) ==> !(p.step(reply).1 is Nothing),
        p.step(reply).1 is Send ==> !(p.step(reply).0.phase is Idle) && !(p.step(
            reply,
        ).0.phase is Finished),
        p.step(reply).1 is Finish ==> p.step(reply).0.phase is Finished,
{
}

/// Whether `action` sends the operation to the endpoint of `kind`.
pub open spec fn tries(action: ActionView, kind: ResourceKind) -> bool {
    action matches ActionView::Send { request, .. } && request.role == crate::request::Role::Execute(
        kind,
    )
}

/// How many of `actions` send the operation to the endpoint of `kind`.
pub open spec fn count_tries(actions: Seq<ActionView>, kind: ResourceKind) -> nat
    decreases actions.len(),
{
    if actions.len() == 0 {
        0
    } else {
        count_tries(actions.drop_last(), kind) + if tries(actions.last(), kind) {
            1nat
        } else {
            0nat
        }
    }
}

/// One more action adds one to the count where it is such a try.
pub proof fn lemma_count_push(actions: Seq<ActionView>, action: ActionView, kind: ResourceKind)
    ensures
        count_tries(actions.push(action), kind) == count_tries(actions, kind) + if tries(action, kind) {
            1nat
        } else {
            0nat
        },
{
    assert(actions.push(action).drop_last() =~= actions);
}

/// Whether `action` ends the target as rejected by the last endpoint tried.
pub open spec fn ends_rejected(action: ActionView) -> bool {
    action matches ActionView::Finish(
        OutcomeView::Failed(FailureView::Execution(ExecutionError::Rejected(_))),
    )
}

/// A pipeline that has its outcome stays as it is, whatever arrives: it
/// sends nothing more and finishes no second time.
pub proof fn lemma_finished_is_final(p: PipelineView, replies: Seq<ReplyView>)
    requires
        p.phase is Finished,
    ensures
        p.run(replies) == p,
        p.log(replies).len() == replies.len(),
        forall|k: int| 0 <= k < replies.len() ==> #[trigger] p.log(replies)[k] == ActionView::Nothing,
    decreases replies.len(),
{
    if replies.len() > 0 {
        lemma_finished_is_final(p, replies.drop_last());
    }
}

/// The virtual-machine endpoint rejects a clone or a destroy: the same
/// operation goes to the container endpoint of the same target, at once.
pub proof fn lemma_rejection_falls_back(p: PipelineView, status: u16, doc: Option<JsonView>)
    requires
        p.phase == PhaseView::Executing(ResourceKind::VirtualMachine),
        p.op.by_trial(),
        status != STATUS_OK,
    ensures
        p.step(ReplyView::Response { status, doc }) == (
            p.at(PhaseView::Executing(ResourceKind::Container)),
            ActionView::Send {
                request: execute_spec(p.base, p.session, p.target, p.op, ResourceKind::Container),
                delay_ms: 0,
            },
        ),
{
}

/// The container endpoint rejects the operation: the target has failed with
/// that status, and nothing more is sent.
pub proof fn lemma_second_rejection_is_final(p: PipelineView, status: u16, doc: Option<JsonView>)
    requires
        p.phase == PhaseView::Executing(ResourceKind::Container),
        status != STATUS_OK,
    ensures
        p.step(ReplyView::Response { status, doc }) == (
            p.at(PhaseView::Finished),
            ActionView::Finish(
                OutcomeView::Failed(FailureView::Execution(ExecutionError::Rejected(status))),
            ),
        ),
{
}

/// What holds of a clone or destroy pipeline after its first move and any
/// replies: where it stands fixes how often each endpoint was tried.
pub open spec fn trial_invariant(first: ActionView, p: PipelineView, log: Seq<ActionView>) -> bool {
    let vm = ResourceKind::VirtualMachine;
    let ct = ResourceKind::Container;
    let vm_tries = count_tries(seq![first] + log, vm);
    let ct_tries = count_tries(seq![first] + log, ct);
    let rejected = exists|k: int| 0 <= k < log.len() && ends_rejected(#[trigger] log[k]);
    &&& vm_tries == 1
    &&& ct_tries <= 1
    &&& rejected ==> ct_tries == 1 && p.phase is Finished
    &&& match p.phase {
        PhaseView::Idle => false,
        PhaseView::Probing => false,
        PhaseView::Executing(kind) => if kind == vm {
            ct_tries == 0
        } else {
            ct_tries == 1
        },
        _ => true,
    }
}

/// Kind fallback. A clone or a destroy tries the virtual-machine endpoint
/// once, first. Whatever arrives after that, the container endpoint is tried
/// at most once, always for the same target and with the body of its kind;
/// and a target that ends as rejected has had exactly one such try.
pub proof fn lemma_fallback_once(p: PipelineView, replies: Seq<ReplyView>)
    requires
        p.phase is Idle,
        p.op.by_trial(),
    ensures
        ({
            let first = p.begin();
            let end = first.0.run(replies);
            let log = first.0.log(replies);
            &&& first.1 == ActionView::Send {
                request: execute_spec(p.base, p.session, p.target, p.op, ResourceKind::VirtualMachine),
                delay_ms: 0,
            }
            &&& log.len() == replies.len()
            &&& end.at(p.phase) == p
            &&& trial_invariant(first.1, end, log)
            &&& forall|k: int|
                0 <= k < log.len() && tries(#[trigger] log[k], ResourceKind::Container) ==> log[k]
                    == ActionView::Send {
                    request: execute_spec(p.base, p.session, p.target, p.op, ResourceKind::Container),
                    delay_ms: 0,
                }
        }),
    decreases replies.len(),
{
    let first = p.begin();
    let vm = ResourceKind::VirtualMachine;
    let ct = ResourceKind::Container;
    if replies.len() == 0 {
        lemma_count_push(Seq::empty(), first.1, vm);
        lemma_count_push(Seq::empty(), first.1, ct);
    } else {
        let earlier = replies.drop_last();
        lemma_fallback_once(p, earlier);
        let log0 = first.0.log(earlier);
        let log = first.0.log(replies);
        let moved = first.0.run(earlier).step(replies.last());
        lemma_count_push(seq![first.1] + log0, moved.1, vm);
        lemma_count_push(seq![first.1] + log0, moved.1, ct);
        assert forall|k: int| 0 <= k < log0.len() implies log[k] == log0[k] by {}
    }
}

/// The place of an action in the order of a pipeline: the probe, the
/// operation, the polls, the outcome, and nothing after it.
pub open spec fn stage(action: ActionView) -> int {
    match action {
        ActionView::Send { request, .. } => match request.role {
            crate::request::Role::Login => 0,
            crate::request::Role::Probe => 0,
            crate::request::Role::Execute(_) => 1,
            crate::request::Role::Poll => 2,
        },
        ActionView::Finish(_) => 3,
        ActionView::Nothing => 4,
    }
}

/// The last stage that a pipeline in `phase` can have reached.
pub open spec fn reach(phase: PhaseView) -> int {
    match phase {
        PhaseView::Idle => 0,
        PhaseView::Probing => 0,
        PhaseView::Executing(_) => 1,
        PhaseView::Polling(_) => 2,
        PhaseView::Finished => 4,
    }
}

/// A move of a pipeline that has begun is at or beyond the stage that the
/// pipeline has reached, and leaves the pipeline at or beyond its own stage.
pub proof fn lemma_step_goes_on(p: PipelineView, reply: ReplyView)
    requires
        !(p.phase is Idle),
    ensures
        reach(p.phase) <= stage(p.step(reply).1) <= reach(p.step(reply).0.phase),
        !(p.step(reply).0.phase is Idle),
{
}

/// The order within a pipeline. From the first move on and whatever
/// arrives, the probe comes before the operation, the operation before the
/// polls, the polls before the outcome, and nothing is sent after the outcome.
pub proof fn lemma_stages_in_order(p: PipelineView, replies: Seq<ReplyView>)
    requires
        p.phase is Idle,
    ensures
        ({
            let first = p.begin();
            let actions = seq![first.1] + first.0.log(replies);
            &&& actions.len() == replies.len() + 1
            &&& !(first.0.run(replies).phase is Idle)
            &&& forall|k: int|
                0 <= k < actions.len() ==> stage(#[trigger] actions[k]) <= reach(
                    first.0.run(replies).phase,
                )
            &&& forall|j: int, k: int|
                0 <= j <= k < actions.len() ==> stage(#[trigger] actions[j]) <= stage(
                    #[trigger] actions[k],
                )
        }),
    decreases replies.len(),
{
    let first = p.begin();
    if replies.len() > 0 {
        let earlier = replies.drop_last();
        lemma_stages_in_order(p, earlier);
        lemma_step_goes_on(first.0.run(earlier), replies.last());
        let shorter = seq![first.1] + first.0.log(earlier);
        let actions = seq![first.1] + first.0.log(replies);
        assert forall|k: int| 0 <= k < shorter.len() implies actions[k] == shorter[k] by {}
    }
}

/// Poller terminal law. While a job is polled, an answer whose exit status
/// is the success sentinel ends the target as succeeded; an answer with any
/// other exit status ends it as failed with that status as the detail; an
/// answer without a readable exit status has the same poll sent again, at once.
pub proof fn lemma_poll_verdict(p: PipelineView, handle: Seq<char>, status: u16, doc: Option<JsonView>)
    requires
        p.phase == PhaseView::Polling(handle),
    ensures
        ({
            let moved = p.step(ReplyView::Response { status, doc });
            match status_in(doc) {
                JobStatusView::Succeeded => moved == (
                    p.at(PhaseView::Finished),
                    ActionView::Finish(OutcomeView::Succeeded),
                ),
                JobStatusView::Failed(detail) => moved == (
                    p.at(PhaseView::Finished),
                    ActionView::Finish(OutcomeView::Failed(FailureView::Poll(detail))),
                ),
                JobStatusView::Running => moved == (
                    p,
                    ActionView::Send {
                        request: poll_spec(p.base, p.session, p.target, handle),
                        delay_ms: 0,
                    },
                ),
            }
        }),
{
}

/// After an answer with a readable exit status, polling has stopped: the
/// target has its outcome, and whatever arrives later, no action follows.
pub proof fn lemma_polling_stops(
    p: PipelineView,
    handle: Seq<char>,
    status: u16,
    doc: Option<JsonView>,
    later: Seq<ReplyView>,
)
    requires
        p.phase == PhaseView::Polling(handle),
        !(status_in(doc) is Running),
    ensures
        ({
            let moved = p.step(ReplyView::Response { status, doc });
            &&& moved.0.phase is Finished
            &&& moved.1 is Finish
            &&& moved.0.run(later) == moved.0
            &&& forall|k: int|
                0 <= k < later.len() ==> #[trigger] moved.0.log(later)[k] == ActionView::Nothing
        }),
{
    let moved = p.step(ReplyView::Response { status, doc });
    lemma_finished_is_final(moved.0, later);
}

/// A transport failure ends a waiting pipeline as failed, with what the
/// transport reported as the detail.
pub proof fn lemma_transport_failure_ends(p: PipelineView, detail: Seq<char>)
    requires
        !(p.phase is Idle),
        !(p.phase is Finished),
    ensures
        p.step(ReplyView::TransportFailure(detail)) == (
            p.at(PhaseView::Finished),
            ActionView::Finish(OutcomeView::Failed(FailureView::Transport(detail))),
        ),
{
}

impl Pipeline {
    /// A pipeline for `op` on `target` that has sent nothing yet.
    pub fn new(base: String, session: Session, target: Target, op: Operation) -> (pipeline: Pipeline)
        ensures
            pipeline@ == (PipelineView {
                base: base@,
                session: session@,
                target: target@,
                op: op@,
                phase: PhaseView::Idle,
            }),
    {
        Pipeline { base, session, target, op, phase: Phase::Idle }
    }

    /// Whether the target has its outcome.
    pub fn is_finished(&self) -> (done: bool)
        ensures
            done == (self@.phase is Finished),
    {
        match &self.phase {
            Phase::Finished => true,
            _ => false,
        }
    }

    /// Whether a request is out, so that the next event is awaited.
    pub fn is_waiting(&self) -> (waiting: bool)
        ensures
            waiting == !(self@.phase is Idle || self@.phase is Finished),
    {
        match &self.phase {
            Phase::Idle => false,
            Phase::Finished => false,
            _ => true,
        }
    }

    fn finish(&mut self, outcome: Outcome) -> (action: Action)
        ensures
            (final(self)@, action@) == old(self)@.finish(outcome@),
    {
        self.phase = Phase::Finished;
        Action::Finish(outcome)
    }

    fn execute_on(&mut self, kind: ResourceKind) -> (action: Action)
        ensures
            (final(self)@, action@) == old(self)@.execute_on(kind),
    {
        let request = Request::execute(self.base.as_str(), &self.session, &self.target, &self.op, kind);
        self.phase = Phase::Executing(kind);
        Action::Send { request, delay_ms: 0 }
    }

    fn poll(&mut self, handle: String, delay_ms: u64) -> (action: Action)
        ensures
            (final(self)@, action@) == old(self)@.send(
                PhaseView::Polling(handle@),
                poll_spec(old(self)@.base, old(self)@.session, old(self)@.target, handle@),
                delay_ms as nat,
            ),
    {
        let request = Request::poll(self.base.as_str(), &self.session, &self.target, handle.as_str());
        self.phase = Phase::Polling(handle);
        Action::Send { request, delay_ms }
    }

    /// Makes the first move.
    pub fn begin(&mut self) -> (action: Action)
        ensures
            (final(self)@, action@) == old(self)@.begin(),
    {
        match &self.phase {
            Phase::Idle => {
                if self.op.by_trial() {
                    self.execute_on(ResourceKind::VirtualMachine)
                } else {
                    let request = Request::probe(self.base.as_str(), &self.session, &self.target);
                    self.phase = Phase::Probing;
                    Action::Send { request, delay_ms: 0 }
                }
            },
            _ => Action::Nothing,
        }
    }

    fn after_probe(&mut self, doc: &Option<Json>) -> (action: Action)
        ensures
            (final(self)@, action@) == old(self)@.after_probe(doc_view(*doc)),
    {
        match resolve(doc) {
            Resolution::VirtualMachine => self.execute_on(ResourceKind::VirtualMachine),
            Resolution::Container => self.execute_on(ResourceKind::Container),
            Resolution::Unknown => self.finish(Outcome::Failed(Failure::Resolution)),
        }
    }

    fn after_execute(&mut self, kind: ResourceKind, status: u16, doc: &Option<Json>) -> (action: Action)
        ensures
            (final(self)@, action@) == old(self)@.after_execute(kind, status, doc_view(*doc)),
    {
        if status == STATUS_OK {
            match accepted(doc) {
                Some(upid) => self.poll(upid.data, POLL_DELAY_MS),
                None => self.finish(Outcome::Failed(Failure::Execution(ExecutionError::Malformed))),
            }
        } else if kind == ResourceKind::VirtualMachine && self.op.by_trial() {
            self.execute_on(ResourceKind::Container)
        } else {
            self.finish(Outcome::Failed(Failure::Execution(ExecutionError::Rejected(status))))
        }
    }

    fn after_poll(&mut self, handle: String, doc: &Option<Json>) -> (action: Action)
        ensures
            (final(self)@, action@) == old(self)@.after_poll(handle@, doc_view(*doc)),
    {
        match finished(doc) {
            JobStatus::Running => self.poll(handle, 0),
            JobStatus::Succeeded => self.finish(Outcome::Succeeded),
            JobStatus::Failed(detail) => self.finish(Outcome::Failed(Failure::Poll(detail))),
        }
    }

    /// Makes the move that follows `reply`.
    pub fn step(&mut self, reply: Reply) -> (action: Action)
        ensures
            (final(self)@, action@) == old(self)@.step(reply@),
    {
        if !self.is_waiting() {
            return Action::Nothing;
        }
        match reply {
            Reply::TransportFailure(detail) => self.finish(Outcome::Failed(Failure::Transport(detail))),
            Reply::Response { status, doc } => {
                match &self.phase {
                    Phase::Probing => self.after_probe(&doc),
                    Phase::Executing(kind) => {
                        let kind = *kind;
                        self.after_execute(kind, status, &doc)
                    },
                    Phase::Polling(handle) => {
                        let handle = handle.clone();
                        self.after_poll(handle, &doc)
                    },
                    _ => Action::Nothing,
                }
            },
        }
    }

    /// Makes the move that follows `event`: the text of an answer is parsed
    /// and the reply is handed to [`Pipeline::step`].
    pub fn handle(&mut self, event: Event) -> (action: Action)
        ensures
            (final(self)@, action@) == old(self)@.step(reply_of(event@)),
    {
        self.step(event.parse())
    }
}

} // verus!
