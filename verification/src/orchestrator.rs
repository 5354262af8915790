//! The orchestrator of a batch: the dispatcher and the pipelines together.
//!
//! The caller asks for what is to be sent ([`Orchestrator::launch`]), sends
//! it, and hands back what came of it ([`Orchestrator::deliver`]); the
//! orchestrator decides everything in between. A target holds a permit from
//! its launch until its pipeline has finished, so that no more pipelines have
//! a request out than the batch has workers.

use vstd::prelude::*;
use crate::auth::{Session, SessionView};
use crate::batch::{Batch, BatchView};
use crate::dispatcher::{
    lemma_finished_covers_range, lemma_move_keeps_wf, lemma_none_running, lemma_running_update,
    running, BatchResult, Dispatcher, DispatcherView, Move, SlotView,
};
use crate::model::{FailureView, Outcome, OutcomeView};
use crate::pipeline::{
    lemma_begin_sends, lemma_step_shape, lemma_transport_failure_ends, reply_of, Action, ActionView,
    Event, PhaseView, Pipeline, PipelineView, Reply, ReplyView,
};
use crate::request::{Request, RequestView};

verus! {

/// A request to send for the target `id`, after `delay_ms` milliseconds.
#[derive(Debug, PartialEq)]
pub struct Dispatch {
    pub id: i32,
    pub request: Request,
    pub delay_ms: u64,
}

/// A [`Dispatch`] as a mathematical value.
pub struct DispatchView {
    pub id: int,
    pub request: RequestView,
    pub delay_ms: nat,
}

impl View for Dispatch {
    type V = DispatchView;

    open spec fn view(&self) -> DispatchView {
        DispatchView { id: self.id as int, request: self.request@, delay_ms: self.delay_ms as nat }
    }
}

/// What an event led to.
#[derive(Debug, PartialEq)]
pub enum Progress {
    /// The pipeline of the target goes on: this is to be sent next.
    Send(Dispatch),
    /// The target has its outcome, and its permit is free again.
    Finished { id: i32, outcome: Outcome },
    /// The id has no request out: nothing changed.
    Ignored,
}

/// A [`Progress`] as a mathematical value.
pub enum ProgressView {
    Send(DispatchView),
    Finished { id: int, outcome: OutcomeView },
    Ignored,
}

impl View for Progress {
    type V = ProgressView;

    open spec fn view(&self) -> ProgressView {
        match *self {
            Progress::Send(dispatch) => ProgressView::Send(dispatch@),
            Progress::Finished { id, outcome } => ProgressView::Finished {
                id: id as int,
                outcome: outcome@,
            },
            Progress::Ignored => ProgressView::Ignored,
        }
    }
}

/// The state of a batch under way: the dispatcher, and the pipeline of each
/// target that has started, in the order of the ids.
pub struct OrchestratorView {
    pub batch: BatchView,
    pub session: SessionView,
    pub dispatcher: DispatcherView,
    pub pipelines: Seq<PipelineView>,
}

impl OrchestratorView {
    /// The state of `batch` before anything has started.
    pub open spec fn initial(batch: BatchView, session: SessionView) -> OrchestratorView {
        OrchestratorView {
            batch,
            session,
            dispatcher: DispatcherView::initial(batch.min, batch.max, batch.concurrency),
            pipelines: Seq::empty(),
        }
    }

    /// The pipeline of the target `id` before its first move.
    pub open spec fn fresh(self, id: int) -> PipelineView {
        PipelineView {
            base: self.batch.base,
            session: self.session,
            target: self.batch.target(id),
            op: self.batch.operation(id),
            phase: PhaseView::Idle,
        }
    }

    /// A state is well formed when the dispatcher is, every target that has
    /// started has the pipeline of its id, and the targets that hold a permit
    /// are those whose pipeline has a request out.
    pub open spec fn wf(self) -> bool {
        &&& self.dispatcher.wf()
        &&& self.dispatcher.min == self.batch.min
        &&& self.dispatcher.max == self.batch.max
        &&& self.dispatcher.limit == self.batch.concurrency
        &&& self.pipelines.len() == self.dispatcher.started()
        &&& forall|i: int|
            0 <= i < self.pipelines.len() ==> {
                let p = #[trigger] self.pipelines[i];
                &&& p.at(PhaseView::Idle) == self.fresh(self.batch.min + i)
                &&& !(p.phase is Idle)
                &&& p.phase is Finished <==> self.dispatcher.slots[i] is Finished
            }
    }

    /// The next target starts where a permit is free and one is left: its
    /// pipeline makes its first move, which is to be sent.
    pub open spec fn launch(self) -> (OrchestratorView, Option<DispatchView>) {
        if self.dispatcher.can_start() {
            let id = self.dispatcher.next_id();
            let moved = self.fresh(id).begin();
            (
                OrchestratorView {
                    dispatcher: self.dispatcher.start(),
                    pipelines: self.pipelines.push(moved.0),
                    ..self
                },
                match moved.1 {
                    ActionView::Send { request, delay_ms } => Some(
                        DispatchView { id, request, delay_ms },
                    ),
                    _ => None,
                },
            )
        } else {
            (self, None)
        }
    }

    /// The reply for the target `id` moves its pipeline, and nothing else.
    /// Where the pipeline finishes, the dispatcher records the outcome and
    /// the permit is free. A reply for a target without a request out
    /// changes nothing.
    pub open spec fn advance(self, id: int, reply: ReplyView) -> (OrchestratorView, ProgressView) {
        if self.dispatcher.is_running(id) {
            let i = id - self.batch.min;
            let moved = self.pipelines[i].step(reply);
            match moved.1 {
                ActionView::Send { request, delay_ms } => (
                    OrchestratorView { pipelines: self.pipelines.update(i, moved.0), ..self },
                    ProgressView::Send(DispatchView { id, request, delay_ms }),
                ),
                ActionView::Finish(outcome) => (
                    OrchestratorView {
                        dispatcher: self.dispatcher.complete(id, outcome),
                        pipelines: self.pipelines.update(i, moved.0),
                        ..self
                    },
                    ProgressView::Finished { id, outcome },
                ),
                ActionView::Nothing => (self, ProgressView::Ignored),
            }
        } else {
            (self, ProgressView::Ignored)
        }
    }
}

/// How many of `pipelines` have a request out.
pub open spec fn requests_out(pipelines: Seq<PipelineView>) -> nat
    decreases pipelines.len(),
{
    if pipelines.len() == 0 {
        0
    } else {
        requests_out(pipelines.drop_last()) + if pipelines.last().phase is Idle
            || pipelines.last().phase is Finished {
            0nat
        } else {
            1nat
        }
    }
}

/// Pipelines that have begun and slots that are finished at the same places:
/// as many pipelines have a request out as slots are running.
pub proof fn lemma_out_is_running(pipelines: Seq<PipelineView>, slots: Seq<SlotView>)
    requires
        pipelines.len() == slots.len(),
        forall|i: int|
            0 <= i < pipelines.len() ==> !((#[trigger] pipelines[i]).phase is Idle) && (
            pipelines[i].phase is Finished <==> slots[i] is Finished),
    ensures
        requests_out(pipelines) == running(slots),
    decreases pipelines.len(),
{
    if pipelines.len() > 0 {
        assert forall|i: int| 0 <= i < pipelines.len() - 1 implies !((
        #[trigger] pipelines.drop_last()[i]).phase is Idle) && (pipelines.drop_last()[i].phase is Finished
            <==> slots.drop_last()[i] is Finished) by {
            assert(!(pipelines[i].phase is Idle));
        }
        lemma_out_is_running(pipelines.drop_last(), slots.drop_last());
        assert(!(pipelines[pipelines.len() - 1].phase is Idle));
    }
}

/// At no point do more pipelines have a request out than the batch has
/// workers: the pipelines with a request out are those that hold a permit.
pub proof fn lemma_requests_out_bounded(o: OrchestratorView)
    requires
        o.wf(),
    ensures
        requests_out(o.pipelines) == o.dispatcher.in_flight(),
        requests_out(o.pipelines) <= o.batch.concurrency,
{
    assert forall|i: int| 0 <= i < o.pipelines.len() implies !((
    #[trigger] o.pipelines[i]).phase is Idle) && (o.pipelines[i].phase is Finished
        <==> o.dispatcher.slots[i] is Finished) by {}
    lemma_out_is_running(o.pipelines, o.dispatcher.slots);
}

/// A launch is a start of the dispatcher, and keeps the state well formed.
pub proof fn lemma_launch_is_a_start(o: OrchestratorView)
    requires
        o.wf(),
    ensures
        o.launch().0.wf(),
        o.launch().0.dispatcher == o.dispatcher.apply(Move::Start),
        o.launch().1 is Some <==> o.dispatcher.can_start(),
{
    if o.dispatcher.can_start() {
        lemma_begin_sends(o.fresh(o.dispatcher.next_id()));
        lemma_move_keeps_wf(o.dispatcher, Move::Start);
    }
}

/// A reply moves the pipeline of its target and touches nothing else: the
/// other pipelines and every outcome recorded for another target stay. The
/// dispatcher makes a move exactly where the pipeline finishes.
pub proof fn lemma_advance_touches_one(o: OrchestratorView, id: int, reply: ReplyView)
    requires
        o.wf(),
    ensures
        ({
            let next = o.advance(id, reply);
            &&& next.0.wf()
            &&& next.0.pipelines.len() == o.pipelines.len()
            &&& forall|i: int|
                0 <= i < o.pipelines.len() && i != id - o.batch.min ==> #[trigger] next.0.pipelines[i]
                    == o.pipelines[i]
            &&& forall|other: int|
                other != id && #[trigger] o.dispatcher.results().contains_key(other)
                    ==> next.0.dispatcher.results().contains_key(other)
                    && next.0.dispatcher.results()[other] == o.dispatcher.results()[other]
            &&& match next.1 {
                ProgressView::Finished { id: x, outcome } => x == id && next.0.dispatcher
                    == o.dispatcher.apply(Move::Complete { id, outcome })
                    && next.0.dispatcher.results().contains_key(id)
                    && next.0.dispatcher.results()[id] == outcome,
                ProgressView::Send(dispatch) => dispatch.id == id && next.0.dispatcher == o.dispatcher,
                ProgressView::Ignored => next.0 == o,
            }
        }),
{
    if o.dispatcher.is_running(id) {
        let moved = o.pipelines[id - o.batch.min].step(reply);
        lemma_step_shape(o.pipelines[id - o.batch.min], reply);
        if let ActionView::Finish(outcome) = moved.1 {
            lemma_move_keeps_wf(o.dispatcher, Move::Complete { id, outcome });
        }
    }
}

/// A batch that has ended has started one pipeline for each id of its range,
/// `max - min + 1` in all; each has finished, and each id has its outcome.
pub proof fn lemma_batch_complete(o: OrchestratorView)
    requires
        o.wf(),
        o.dispatcher.finished(),
    ensures
        o.pipelines.len() == o.batch.max - o.batch.min + 1,
        forall|i: int|
            0 <= i < o.pipelines.len() ==> (#[trigger] o.pipelines[i]).target.id == o.batch.min + i
                && o.pipelines[i].phase is Finished,
        forall|id: int| o.dispatcher.results().contains_key(id) <==> o.batch.contains(id),
        o.dispatcher.results().dom().finite(),
        o.dispatcher.results().dom().len() == o.batch.max - o.batch.min + 1,
{
    lemma_finished_covers_range(o.dispatcher);
    lemma_none_running(o.dispatcher.slots);
}

/// Failure isolation. A transport failure for a target that has a request
/// out ends that target as failed with the detail of the transport, frees
/// its permit, and leaves every other target as it was.
pub proof fn lemma_failure_stays_with_target(o: OrchestratorView, id: int, detail: Seq<char>)
    requires
        o.wf(),
        o.dispatcher.is_running(id),
    ensures
        ({
            let next = o.advance(id, ReplyView::TransportFailure(detail));
            let failed = OutcomeView::Failed(FailureView::Transport(detail));
            &&& next.1 == ProgressView::Finished { id, outcome: failed }
            &&& next.0.dispatcher.results().contains_key(id)
            &&& next.0.dispatcher.results()[id] == failed
            &&& next.0.dispatcher.in_flight() + 1 == o.dispatcher.in_flight()
            &&& forall|i: int|
                0 <= i < o.pipelines.len() && i != id - o.batch.min ==> #[trigger] next.0.pipelines[i]
                    == o.pipelines[i]
            &&& forall|other: int|
                other != id && #[trigger] o.dispatcher.results().contains_key(other)
                    ==> next.0.dispatcher.results().contains_key(other)
                    && next.0.dispatcher.results()[other] == o.dispatcher.results()[other]
        }),
{
    lemma_advance_touches_one(o, id, ReplyView::TransportFailure(detail));
    lemma_transport_failure_ends(o.pipelines[id - o.batch.min], detail);
    lemma_running_update(
        o.dispatcher.slots,
        id - o.batch.min,
        SlotView::Finished(OutcomeView::Failed(FailureView::Transport(detail))),
    );
}

/// The orchestrator of one batch.
#[derive(Debug, PartialEq, Eq)]
pub struct Orchestrator {
    batch: Batch,
    session: Session,
    dispatcher: Dispatcher,
    pipelines: Vec<Pipeline>,
}

impl View for Orchestrator {
    type V = OrchestratorView;

    closed spec fn view(&self) -> OrchestratorView {
        OrchestratorView {
            batch: self.batch@,
            session: self.session@,
            dispatcher: self.dispatcher@,
            pipelines: self.pipelines@.map_values(|p: Pipeline| p@),
        }
    }
}

/// The progress as an option of what is to be sent.
pub open spec fn dispatch_view(next: Option<Dispatch>) -> Option<DispatchView> {
    match next {
        Some(dispatch) => Some(dispatch@),
        None => None,
    }
}

impl Orchestrator {
    /// The invariant of an orchestrator.
    pub closed spec fn wf(&self) -> bool {
        &&& self.batch.wf()
        &&& self.dispatcher.wf()
        &&& self@.wf()
    }

    /// A well-formed orchestrator has a well-formed state, in which no more
    /// pipelines have a request out than the batch has workers.
    pub proof fn lemma_wf(&self)
        requires
            self.wf(),
        ensures
            self@.wf(),
            requests_out(self@.pipelines) == self@.dispatcher.in_flight(),
            requests_out(self@.pipelines) <= self@.batch.concurrency,
    {
        lemma_requests_out_bounded(self@);
    }

    /// The orchestrator of `batch`, which sends in the name of `session`.
    pub fn new(batch: Batch, session: Session) -> (made: Orchestrator)
        requires
            batch.wf(),
        ensures
            made.wf(),
            made@ == OrchestratorView::initial(batch@, session@),
    {
        let dispatcher = batch.dispatcher();
        let made = Orchestrator { batch, session, dispatcher, pipelines: Vec::new() };
        proof {
            made.dispatcher.lemma_wf();
            assert(made@.pipelines =~= Seq::empty());
        }
        made
    }

    /// The batch.
    pub fn batch(&self) -> (batch: &Batch)
        ensures
            batch@ == self@.batch,
    {
        &self.batch
    }

    /// The number of targets that hold a permit: those whose pipeline has
    /// a request out. It never exceeds the number of workers.
    pub fn in_flight(&self) -> (count: usize)
        requires
            self.wf(),
        ensures
            count == requests_out(self@.pipelines),
            count == self@.dispatcher.in_flight(),
            count <= self@.batch.concurrency,
    {
        proof {
            lemma_requests_out_bounded(self@);
        }
        self.dispatcher.in_flight()
    }

    /// The number of targets that have started.
    pub fn started(&self) -> (count: usize)
        ensures
            count == self@.dispatcher.started(),
    {
        self.dispatcher.started()
    }

    /// Whether every target has started and has its outcome.
    pub fn is_finished(&self) -> (done: bool)
        requires
            self.wf(),
        ensures
            done == self@.dispatcher.finished(),
    {
        self.dispatcher.is_finished()
    }

    /// The outcome of the target `id`, once it is recorded.
    pub fn outcome_of(&self, id: i32) -> (found: Option<&Outcome>)
        ensures
            match found {
                Some(outcome) => self@.dispatcher.results().contains_key(id as int)
                    && self@.dispatcher.results()[id as int] == outcome@,
                None => !self@.dispatcher.results().contains_key(id as int),
            },
    {
        self.dispatcher.outcome_of(id)
    }

    /// The outcomes of the batch, once every target has its own: exactly one
    /// for each id of the range, whatever the targets came to.
    pub fn result(&self) -> (outcomes: Option<BatchResult>)
        requires
            self.wf(),
        ensures
            match outcomes {
                Some(r) => {
                    &&& self@.dispatcher.finished()
                    &&& r@ == self@.dispatcher.results()
                    &&& r.first() == self@.batch.min
                    &&& r.in_order().len() == self@.batch.max - self@.batch.min + 1
                    &&& r@.dom().finite()
                    &&& r@.dom().len() == self@.batch.max - self@.batch.min + 1
                    &&& forall|id: int| r@.contains_key(id) <==> self@.batch.contains(id)
                },
                None => !self@.dispatcher.finished(),
            },
    {
        self.dispatcher.result()
    }

    /// Starts the next target where a permit is free and a target is left,
    /// and hands out the first request of its pipeline.
    pub fn launch(&mut self) -> (next: Option<Dispatch>)
        requires
            old(self).wf(),
        ensures
            final(self).wf(),
            (final(self)@, dispatch_view(next)) == old(self)@.launch(),
            next is Some <==> old(self)@.dispatcher.can_start(),
    {
        let ghost before = self@;
        proof {
            lemma_launch_is_a_start(before);
        }
        match self.dispatcher.start_next() {
            None => None,
            Some(id) => {
                match self.batch.pipeline_for(&self.session, id) {
                    Some(pipeline) => {
                        let mut pipeline = pipeline;
                        let action = pipeline.begin();
                        self.pipelines.push(pipeline);
                        assert(self@.pipelines =~= before.pipelines.push(pipeline@));
                        match action {
                            Action::Send { request, delay_ms } => Some(Dispatch { id, request, delay_ms }),
                            _ => {
                                assert(false);
                                None
                            },
                        }
                    },
                    None => {
                        assert(false);
                        None
                    },
                }
            },
        }
    }

    /// Hands the reply for the target `id` to its pipeline and says what is
    /// to be done next.
    pub fn advance(&mut self, id: i32, reply: Reply) -> (progress: Progress)
        requires
            old(self).wf(),
        ensures
            final(self).wf(),
            (final(self)@, progress@) == old(self)@.advance(id as int, reply@),
    {
        let ghost before = self@;
        proof {
            lemma_advance_touches_one(before, id as int, reply@);
        }
        let min: i32 = self.dispatcher.min();
        if id < min {
            return Progress::Ignored;
        }
        let offset: i64 = id as i64 - min as i64;
        if self.pipelines.len() as u64 <= offset as u64 {
            return Progress::Ignored;
        }
        let index: usize = offset as usize;
        if !self.pipelines[index].is_waiting() {
            return Progress::Ignored;
        }
        let action = self.pipelines[index].step(reply);
        assert(self@.pipelines =~= before.pipelines.update(
            index as int,
            before.pipelines[index as int].step(reply@).0,
        ));
        match action {
            Action::Send { request, delay_ms } => Progress::Send(Dispatch { id, request, delay_ms }),
            Action::Finish(outcome) => {
                let record = outcome.clone();
                self.dispatcher.complete(id, outcome);
                Progress::Finished { id, outcome: record }
            },
            Action::Nothing => {
                assert(false);
                Progress::Ignored
            },
        }
    }

    /// Hands the event for the target `id` to its pipeline and says what is
    /// to be done next: the text of an answer is parsed first.
    pub fn deliver(&mut self, id: i32, event: Event) -> (progress: Progress)
        requires
            old(self).wf(),
        ensures
            final(self).wf(),
            (final(self)@, progress@) == old(self)@.advance(id as int, reply_of(event@)),
    {
        self.advance(id, event.parse())
    }
}

} // verus!
