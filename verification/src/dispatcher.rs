//! The dispatcher: which target starts next, how many are in flight, and
//! what each of them came to.
//!
//! The dispatcher owns the permits. A target holds one from the moment
//! [`Dispatcher::start_next`] hands out its id until [`Dispatcher::complete`]
//! records its outcome. Targets start in the order of their ids; they may
//! complete in any order.

use vstd::prelude::*;
use vstd::set_lib::{lemma_int_range, set_int_range};
use crate::model::{ConfigError, Outcome, OutcomeView};

verus! {

/// Where a started target stands.
#[derive(Debug, PartialEq, Eq)]
pub enum Slot {
    /// The pipeline of the target holds a permit.
    Running,
    /// The pipeline ended with this outcome and gave its permit back.
    Finished(Outcome),
}

/// A [`Slot`] as a mathematical value.
pub enum SlotView {
    Running,
    Finished(OutcomeView),
}

impl View for Slot {
    type V = SlotView;

    open spec fn view(&self) -> SlotView {
        match *self {
            Slot::Running => SlotView::Running,
            Slot::Finished(outcome) => SlotView::Finished(outcome@),
        }
    }
}

/// How many of `slots` are running.
pub open spec fn running(slots: Seq<SlotView>) -> nat
    decreases slots.len(),
{
    if slots.len() == 0 {
        0
    } else {
        running(slots.drop_last()) + if slots.last() is Running {
            1nat
        } else {
            0nat
        }
    }
}

/// The state of a batch: the range of ids, the number of permits, and one
/// slot for each target that has started, in the order of the ids.
pub struct DispatcherView {
    pub min: int,
    pub max: int,
    pub limit: nat,
    pub slots: Seq<SlotView>,
}

/// One thing that can happen to a dispatcher.
pub enum Move {
    /// The next target is asked for.
    Start,
    /// The outcome of a target is handed in.
    Complete { id: int, outcome: OutcomeView },
}

impl DispatcherView {
    /// The state of a batch over `min..=max` with `limit` permits before
    /// anything has started.
    pub open spec fn initial(min: int, max: int, limit: nat) -> DispatcherView {
        DispatcherView { min, max, limit, slots: Seq::empty() }
    }

    /// The number of targets of the batch.
    pub open spec fn total(self) -> int {
        self.max - self.min + 1
    }

    /// The number of targets that have started.
    pub open spec fn started(self) -> nat {
        self.slots.len()
    }

    /// The number of targets that hold a permit.
    pub open spec fn in_flight(self) -> nat {
        running(self.slots)
    }

    /// A state is well formed when its range is not empty, it has a permit,
    /// no more targets have started than the range has, and no more are in
    /// flight than there are permits.
    pub open spec fn wf(self) -> bool {
        &&& self.min <= self.max
        &&& self.limit >= 1
        &&& self.started() <= self.total()
        &&& self.in_flight() <= self.limit
    }

    /// Whether a target can start: one is left and a permit is free.
    pub open spec fn can_start(self) -> bool {
        self.started() < self.total() && self.in_flight() < self.limit
    }

    /// The id of the target that starts next.
    pub open spec fn next_id(self) -> int {
        self.min + self.started()
    }

    /// The state after the next target has started.
    pub open spec fn start(self) -> DispatcherView {
        DispatcherView { slots: self.slots.push(SlotView::Running), ..self }
    }

    /// Whether the target `id` has started.
    pub open spec fn has_started(self, id: int) -> bool {
        self.min <= id < self.min + self.started()
    }

    /// Whether the target `id` holds a permit.
    pub open spec fn is_running(self, id: int) -> bool {
        self.has_started(id) && self.slots[id - self.min] is Running
    }

    /// The state after the target `id` has ended with `outcome`.
    pub open spec fn complete(self, id: int, outcome: OutcomeView) -> DispatcherView {
        DispatcherView {
            slots: self.slots.update(id - self.min, SlotView::Finished(outcome)),
            ..self
        }
    }

    /// Whether every target has started and none is in flight.
    pub open spec fn finished(self) -> bool {
        self.started() == self.total() && self.in_flight() == 0
    }

    /// The outcomes recorded so far, by id.
    pub open spec fn results(self) -> Map<int, OutcomeView> {
        Map::new(
            |id: int| self.has_started(id) && self.slots[id - self.min] is Finished,
            |id: int| self.slots[id - self.min]->Finished_0,
        )
    }

    /// The state after `m`. A start without a free permit or a target left,
    /// and an outcome for a target that is not running, change nothing.
    pub open spec fn apply(self, m: Move) -> DispatcherView {
        match m {
            Move::Start => if self.can_start() {
                self.start()
            } else {
                self
            },
            Move::Complete { id, outcome } => if self.is_running(id) {
                self.complete(id, outcome)
            } else {
                self
            },
        }
    }

    /// The state after `moves`, one after another.
    pub open spec fn replay(self, moves: Seq<Move>) -> DispatcherView
        decreases moves.len(),
    {
        if moves.len() == 0 {
            self
        } else {
            self.replay(moves.drop_last()).apply(moves.last())
        }
    }
}

/// Adding a slot adds one to the count where the slot is running.
pub proof fn lemma_running_push(slots: Seq<SlotView>, slot: SlotView)
    ensures
        running(slots.push(slot)) == running(slots) + if slot is Running {
            1nat
        } else {
            0nat
        },
{
    assert(slots.push(slot).drop_last() =~= slots);
}

/// No more slots are running than there are slots.
pub proof fn lemma_running_bound(slots: Seq<SlotView>)
    ensures
        running(slots) <= slots.len(),
    decreases slots.len(),
{
    if slots.len() > 0 {
        lemma_running_bound(slots.drop_last());
    }
}

/// Replacing a slot changes the count by what the two slots differ in.
pub proof fn lemma_running_update(slots: Seq<SlotView>, i: int, slot: SlotView)
    requires
        0 <= i < slots.len(),
    ensures
        running(slots.update(i, slot)) + (if slots[i] is Running {
            1nat
        } else {
            0nat
        }) == running(slots) + if slot is Running {
            1nat
        } else {
            0nat
        },
    decreases slots.len(),
{
    let after = slots.update(i, slot);
    if i == slots.len() - 1 {
        assert(after.drop_last() =~= slots.drop_last());
    } else {
        assert(after.drop_last() =~= slots.drop_last().update(i, slot));
        lemma_running_update(slots.drop_last(), i, slot);
    }
}

/// Where no slot is running, every slot is finished.
pub proof fn lemma_none_running(slots: Seq<SlotView>)
    requires
        running(slots) == 0,
    ensures
        forall|i: int| 0 <= i < slots.len() ==> #[trigger] slots[i] is Finished,
    decreases slots.len(),
{
    if slots.len() > 0 {
        lemma_none_running(slots.drop_last());
        assert forall|i: int| 0 <= i < slots.len() implies #[trigger] slots[i] is Finished by {
            if i < slots.len() - 1 {
                assert(slots.drop_last()[i] == slots[i]);
            }
        }
    }
}

impl DispatcherView {
    /// The ids that `moves` hand out, in the order in which they start.
    pub open spec fn issued(self, moves: Seq<Move>) -> Seq<int>
        decreases moves.len(),
    {
        if moves.len() == 0 {
            Seq::empty()
        } else {
            let before = self.replay(moves.drop_last());
            let earlier = self.issued(moves.drop_last());
            if moves.last() is Start && before.can_start() {
                earlier.push(before.next_id())
            } else {
                earlier
            }
        }
    }

    /// Whether `self` and `other` are the same but for the outcome of `id`:
    /// the target `id` is running in both or finished in both.
    pub open spec fn same_but(self, other: DispatcherView, id: int) -> bool {
        &&& self.min == other.min
        &&& self.max == other.max
        &&& self.limit == other.limit
        &&& self.slots.len() == other.slots.len()
        &&& forall|i: int|
            0 <= i < self.slots.len() ==> (#[trigger] self.slots[i] is Running
                <==> other.slots[i] is Running)
        &&& forall|i: int|
            0 <= i < self.slots.len() && i != id - self.min ==> #[trigger] self.slots[i]
                == other.slots[i]
    }
}

/// Whether two moves are the same but for the outcome handed in for `id`.
pub open spec fn same_move_but(a: Move, b: Move, id: int) -> bool {
    a == b || (a matches Move::Complete { id: x, .. } && b matches Move::Complete { id: y, .. }
        && x == id && y == id)
}

/// Sequences of slots that run at the same places have the same count.
pub proof fn lemma_running_same(a: Seq<SlotView>, b: Seq<SlotView>)
    requires
        a.len() == b.len(),
        forall|i: int| 0 <= i < a.len() ==> (#[trigger] a[i] is Running <==> b[i] is Running),
    ensures
        running(a) == running(b),
    decreases a.len(),
{
    if a.len() > 0 {
        assert forall|i: int| 0 <= i < a.len() - 1 implies (#[trigger] a.drop_last()[i] is Running
            <==> b.drop_last()[i] is Running) by {
            assert(a[i] is Running <==> b[i] is Running);
        }
        lemma_running_same(a.drop_last(), b.drop_last());
    }
}

/// A move keeps a state well formed: in particular, no move brings more
/// targets in flight than there are permits.
pub proof fn lemma_move_keeps_wf(d: DispatcherView, m: Move)
    requires
        d.wf(),
    ensures
        d.apply(m).wf(),
        d.apply(m).in_flight() <= d.limit,
        d.apply(m).min == d.min,
        d.apply(m).max == d.max,
        d.apply(m).limit == d.limit,
{
    match m {
        Move::Start => {
            lemma_running_push(d.slots, SlotView::Running);
        },
        Move::Complete { id, outcome } => {
            if d.is_running(id) {
                lemma_running_update(d.slots, id - d.min, SlotView::Finished(outcome));
            }
        },
    }
}

/// At no point of a run do more targets hold a permit than there are
/// permits: whatever the moves and however far they have come, the number in
/// flight is at most the limit.
pub proof fn lemma_permits_bounded(d: DispatcherView, moves: Seq<Move>)
    requires
        d.wf(),
    ensures
        d.replay(moves).wf(),
        d.replay(moves).min == d.min,
        d.replay(moves).max == d.max,
        d.replay(moves).limit == d.limit,
        forall|k: int|
            0 <= k <= moves.len() ==> (#[trigger] d.replay(moves.take(k))).in_flight() <= d.limit,
    decreases moves.len(),
{
    if moves.len() > 0 {
        let earlier = moves.drop_last();
        lemma_permits_bounded(d, earlier);
        lemma_move_keeps_wf(d.replay(earlier), moves.last());
        assert forall|k: int| 0 <= k <= moves.len() implies (#[trigger] d.replay(
            moves.take(k),
        )).in_flight() <= d.limit by {
            if k == moves.len() {
                assert(moves.take(k) =~= moves);
            } else {
                assert(moves.take(k) =~= earlier.take(k));
            }
        }
    } else {
        assert(moves.take(0) =~= moves);
    }
}

/// The ids that a run hands out are the first ids of the range, in
/// ascending order and each once: as many as targets have started.
pub proof fn lemma_issued_in_order(min: int, max: int, limit: nat, moves: Seq<Move>)
    requires
        min <= max,
        limit >= 1,
    ensures
        ({
            let start = DispatcherView::initial(min, max, limit);
            let end = start.replay(moves);
            &&& start.issued(moves).len() == end.started()
            &&& end.started() <= max - min + 1
            &&& forall|k: int| 0 <= k < end.started() ==> #[trigger] start.issued(moves)[k] == min + k
        }),
    decreases moves.len(),
{
    let start = DispatcherView::initial(min, max, limit);
    lemma_permits_bounded(start, moves);
    if moves.len() > 0 {
        lemma_issued_in_order(min, max, limit, moves.drop_last());
    }
}

/// A batch that has ended holds exactly one outcome for each id of its
/// range and for nothing else: `max - min + 1` outcomes, as many as targets
/// were started.
pub proof fn lemma_finished_covers_range(d: DispatcherView)
    requires
        d.wf(),
        d.finished(),
    ensures
        d.results().dom() =~= set_int_range(d.min, d.max + 1),
        d.results().dom().finite(),
        d.results().dom().len() == d.max - d.min + 1,
        d.started() == d.max - d.min + 1,
        forall|id: int| d.min <= id <= d.max ==> #[trigger] d.results().contains_key(id),
{
    lemma_none_running(d.slots);
    lemma_int_range(d.min, d.max + 1);
    assert forall|id: int| d.min <= id <= d.max implies #[trigger] d.results().contains_key(id) by {
        assert(d.slots[id - d.min] is Finished);
    }
}

/// From the first move of a run to its end: when the batch over `min..=max`
/// has ended, `max - min + 1` targets were handed out, each id of the range
/// once, and the outcomes are keyed by exactly those ids.
pub proof fn lemma_every_target_once(min: int, max: int, limit: nat, moves: Seq<Move>)
    requires
        min <= max,
        limit >= 1,
        DispatcherView::initial(min, max, limit).replay(moves).finished(),
    ensures
        ({
            let start = DispatcherView::initial(min, max, limit);
            let end = start.replay(moves);
            &&& start.issued(moves).len() == max - min + 1
            &&& forall|k: int| 0 <= k <= max - min ==> #[trigger] start.issued(moves)[k] == min + k
            &&& end.results().dom() =~= set_int_range(min, max + 1)
            &&& end.results().dom().finite()
            &&& end.results().dom().len() == max - min + 1
        }),
{
    let start = DispatcherView::initial(min, max, limit);
    lemma_permits_bounded(start, moves);
    lemma_issued_in_order(min, max, limit, moves);
    lemma_finished_covers_range(start.replay(moves));
}

/// One move keeps two states the same but for the outcome of `id`.
pub proof fn lemma_move_keeps_same_but(a: DispatcherView, b: DispatcherView, ma: Move, mb: Move, id: int)
    requires
        a.same_but(b, id),
        same_move_but(ma, mb, id),
    ensures
        a.apply(ma).same_but(b.apply(mb), id),
{
    lemma_running_same(a.slots, b.slots);
}

/// Two runs that differ only in the outcomes handed in for `id` end the same
/// but for the outcome of `id`.
pub proof fn lemma_runs_same_but(d: DispatcherView, a: Seq<Move>, b: Seq<Move>, id: int)
    requires
        a.len() == b.len(),
        forall|k: int| 0 <= k < a.len() ==> same_move_but(#[trigger] a[k], b[k], id),
    ensures
        d.replay(a).same_but(d.replay(b), id),
    decreases a.len(),
{
    if a.len() > 0 {
        assert forall|k: int| 0 <= k < a.len() - 1 implies same_move_but(
            #[trigger] a.drop_last()[k],
            b.drop_last()[k],
            id,
        ) by {
            assert(same_move_but(a[k], b[k], id));
        }
        lemma_runs_same_but(d, a.drop_last(), b.drop_last(), id);
        lemma_move_keeps_same_but(
            d.replay(a.drop_last()),
            d.replay(b.drop_last()),
            a.last(),
            b.last(),
            id,
        );
    }
}

/// A failure stays with its target. Where two runs differ only in what the
/// target `id` came to, every other target has the same outcome in both, or
/// none yet in both; and `id` has an outcome in one exactly when it has one
/// in the other.
pub proof fn lemma_failure_isolated(d: DispatcherView, a: Seq<Move>, b: Seq<Move>, id: int)
    requires
        a.len() == b.len(),
        forall|k: int| 0 <= k < a.len() ==> same_move_but(#[trigger] a[k], b[k], id),
    ensures
        d.replay(a).results().dom() =~= d.replay(b).results().dom(),
        forall|other: int|
            other != id && #[trigger] d.replay(a).results().contains_key(other) ==> d.replay(
                a,
            ).results()[other] == d.replay(b).results()[other],
        d.replay(a).in_flight() == d.replay(b).in_flight(),
        d.replay(a).started() == d.replay(b).started(),
{
    lemma_runs_same_but(d, a, b, id);
    let x = d.replay(a);
    let y = d.replay(b);
    lemma_running_same(x.slots, y.slots);
    assert forall|other: int| x.results().contains_key(other) <==> y.results().contains_key(
        other,
    ) by {
        if x.has_started(other) {
            assert(x.slots[other - x.min] is Running <==> y.slots[other - y.min] is Running);
        }
    }
}

/// The dispatcher of one batch.
#[derive(Debug, PartialEq, Eq)]
pub struct Dispatcher {
    min: i32,
    max: i32,
    limit: usize,
    slots: Vec<Slot>,
    in_flight: usize,
}

/// The view holds the range, the limit and the slots. The counter of the
/// permits in use is no part of it: it is the number of running slots, which
/// [`Dispatcher::wf`] holds it to.
impl View for Dispatcher {
    type V = DispatcherView;

    closed spec fn view(&self) -> DispatcherView {
        DispatcherView {
            min: self.min as int,
            max: self.max as int,
            limit: self.limit as nat,
            slots: self.slots@.map_values(|slot: Slot| slot@),
        }
    }
}

/// The outcomes of a batch that has ended, one for each id of its range.
#[derive(Debug, PartialEq, Eq)]
pub struct BatchResult {
    min: i32,
    outcomes: Vec<Outcome>,
}

impl View for BatchResult {
    type V = Map<int, OutcomeView>;

    closed spec fn view(&self) -> Map<int, OutcomeView> {
        Map::new(
            |id: int| self.min <= id < self.min + self.outcomes.len(),
            |id: int| self.outcomes[id - self.min]@,
        )
    }
}

impl Dispatcher {
    /// The invariant of a dispatcher: its state is well formed, and its
    /// counter of permits in use agrees with its slots.
    pub closed spec fn wf(&self) -> bool {
        &&& self@.wf()
        &&& self.in_flight == self@.in_flight()
    }

    /// A well-formed dispatcher has a well-formed state: in particular, no
    /// more targets are in flight than there are permits.
    pub proof fn lemma_wf(&self)
        requires
            self.wf(),
        ensures
            self@.wf(),
            self@.in_flight() <= self@.limit,
    {
    }

    /// A dispatcher for the ids `min..=max` with `limit` permits. An empty
    /// range and a batch without permits are refused.
    pub fn new(min: i32, max: i32, limit: usize) -> (made: Result<Dispatcher, ConfigError>)
        ensures
            match made {
                Ok(d) => min <= max && limit >= 1 && d.wf() && d@ == DispatcherView::initial(
                    min as int,
                    max as int,
                    limit as nat,
                ),
                Err(e) => if min > max {
                    e == ConfigError::InvalidRange
                } else {
                    limit == 0 && e == ConfigError::NoWorkers
                },
            },
    {
        if min > max {
            return Err(ConfigError::InvalidRange);
        }
        if limit == 0 {
            return Err(ConfigError::NoWorkers);
        }
        Ok(Dispatcher::fresh(min, max, limit))
    }

    /// A dispatcher for a range and a limit that are known to be in order.
    pub(crate) fn fresh(min: i32, max: i32, limit: usize) -> (d: Dispatcher)
        requires
            min <= max,
            limit >= 1,
        ensures
            d.wf(),
            d@ == DispatcherView::initial(min as int, max as int, limit as nat),
    {
        let d = Dispatcher { min, max, limit, slots: Vec::new(), in_flight: 0 };
        assert(d@.slots =~= Seq::empty());
        d
    }

    /// The first id of the range.
    pub fn min(&self) -> (min: i32)
        ensures
            min == self@.min,
    {
        self.min
    }

    /// The last id of the range.
    pub fn max(&self) -> (max: i32)
        ensures
            max == self@.max,
    {
        self.max
    }

    /// The number of permits.
    pub fn limit(&self) -> (limit: usize)
        ensures
            limit == self@.limit,
    {
        self.limit
    }

    /// The number of targets that have started.
    pub fn started(&self) -> (count: usize)
        ensures
            count == self@.started(),
    {
        self.slots.len()
    }

    /// The number of targets that hold a permit.
    pub fn in_flight(&self) -> (count: usize)
        requires
            self.wf(),
        ensures
            count == self@.in_flight(),
            count <= self@.limit,
    {
        self.in_flight
    }

    /// Starts the next target where one is left and a permit is free, and
    /// hands out its id: the ids come in ascending order, each once.
    pub fn start_next(&mut self) -> (started: Option<i32>)
        requires
            old(self).wf(),
        ensures
            final(self).wf(),
            match started {
                Some(id) => old(self)@.can_start() && id == old(self)@.next_id() && final(self)@
                    == old(self)@.start(),
                None => !old(self)@.can_start() && final(self)@ == old(self)@,
            },
    {
        let total: i64 = self.max as i64 - self.min as i64 + 1;
        let begun: usize = self.slots.len();
        if self.in_flight < self.limit && (begun as i64) < total {
            let id: i64 = self.min as i64 + begun as i64;
            proof {
                lemma_running_push(old(self)@.slots, SlotView::Running);
            }
            self.slots.push(Slot::Running);
            self.in_flight = self.in_flight + 1;
            assert(self@.slots =~= old(self)@.slots.push(SlotView::Running));
            Some(id as i32)
        } else {
            None
        }
    }

    /// Records the outcome of the target `id` and frees its permit. Says
    /// whether it did: an id that is not running changes nothing.
    pub fn complete(&mut self, id: i32, outcome: Outcome) -> (recorded: bool)
        requires
            old(self).wf(),
        ensures
            final(self).wf(),
            recorded == old(self)@.is_running(id as int),
            final(self)@ == old(self)@.apply(Move::Complete { id: id as int, outcome: outcome@ }),
    {
        if id < self.min {
            return false;
        }
        let offset: i64 = id as i64 - self.min as i64;
        if offset >= self.slots.len() as i64 {
            return false;
        }
        let index: usize = offset as usize;
        let is_running: bool = match &self.slots[index] {
            Slot::Running => true,
            _ => false,
        };
        if !is_running {
            return false;
        }
        proof {
            lemma_running_update(old(self)@.slots, index as int, SlotView::Finished(outcome@));
        }
        self.slots.set(index, Slot::Finished(outcome));
        self.in_flight = self.in_flight - 1;
        assert(self@.slots =~= old(self)@.slots.update(index as int, SlotView::Finished(outcome@)));
        true
    }

    /// Whether every target has started and has its outcome.
    pub fn is_finished(&self) -> (done: bool)
        requires
            self.wf(),
        ensures
            done == self@.finished(),
    {
        let total: i64 = self.max as i64 - self.min as i64 + 1;
        self.in_flight == 0 && self.slots.len() as i64 == total
    }

    /// The outcome of the target `id`, once it is recorded.
    pub fn outcome_of(&self, id: i32) -> (found: Option<&Outcome>)
        ensures
            match found {
                Some(outcome) => self@.results().contains_key(id as int) && self@.results()[id as int]
                    == outcome@,
                None => !self@.results().contains_key(id as int),
            },
    {
        if id < self.min {
            return None;
        }
        let offset: i64 = id as i64 - self.min as i64;
        if self.slots.len() as u64 <= offset as u64 {
            return None;
        }
        match &self.slots[offset as usize] {
            Slot::Finished(outcome) => Some(outcome),
            Slot::Running => None,
        }
    }

    /// The outcomes of the batch, once every target has its own: exactly one
    /// for each id of the range, `max - min + 1` in all.
    pub fn result(&self) -> (outcomes: Option<BatchResult>)
        requires
            self.wf(),
        ensures
            match outcomes {
                Some(r) => {
                    &&& self@.finished()
                    &&& r@ == self@.results()
                    &&& r.first() == self@.min
                    &&& r.in_order().len() == self@.max - self@.min + 1
                    &&& r@.dom().finite()
                    &&& r@.dom().len() == self@.max - self@.min + 1
                    &&& forall|id: int| r@.contains_key(id) <==> self@.min <= id <= self@.max
                },
                None => !self@.finished(),
            },
    {
        if !self.is_finished() {
            return None;
        }
        proof {
            lemma_none_running(self@.slots);
            lemma_finished_covers_range(self@);
        }
        let mut outcomes: Vec<Outcome> = Vec::new();
        let mut i: usize = 0;
        while i < self.slots.len()
            invariant
                i <= self.slots.len(),
                outcomes.len() == i,
                forall|k: int| 0 <= k < self.slots.len() ==> #[trigger] self@.slots[k] is Finished,
                forall|k: int|
                    0 <= k < i ==> self@.slots[k] == SlotView::Finished(#[trigger] outcomes[k]@),
            decreases self.slots.len() - i,
        {
            assert(self@.slots[i as int] is Finished);
            match &self.slots[i] {
                Slot::Finished(outcome) => {
                    outcomes.push(outcome.clone());
                },
                Slot::Running => {
                    return None;
                },
            }
            i = i + 1;
        }
        let r = BatchResult { min: self.min, outcomes };
        assert(r@ =~= self@.results());
        Some(r)
    }
}

/// How many of `outcomes` are no success.
pub open spec fn count_failures(outcomes: Seq<OutcomeView>) -> nat
    decreases outcomes.len(),
{
    if outcomes.len() == 0 {
        0
    } else {
        count_failures(outcomes.drop_last()) + if outcomes.last() is Succeeded {
            0nat
        } else {
            1nat
        }
    }
}

/// No more outcomes are failures than there are outcomes, and none is
/// exactly where every outcome is a success.
pub proof fn lemma_count_failures(outcomes: Seq<OutcomeView>)
    ensures
        count_failures(outcomes) <= outcomes.len(),
        count_failures(outcomes) == 0 <==> forall|i: int|
            0 <= i < outcomes.len() ==> #[trigger] outcomes[i] is Succeeded,
    decreases outcomes.len(),
{
    if outcomes.len() > 0 {
        let front = outcomes.drop_last();
        lemma_count_failures(front);
        if count_failures(outcomes) == 0 {
            assert forall|i: int| 0 <= i < outcomes.len() implies #[trigger] outcomes[i] is Succeeded by {
                if i < front.len() {
                    assert(front[i] == outcomes[i]);
                }
            }
        }
        if forall|i: int| 0 <= i < outcomes.len() ==> #[trigger] outcomes[i] is Succeeded {
            assert forall|i: int| 0 <= i < front.len() implies #[trigger] front[i] is Succeeded by {
                assert(outcomes[i] is Succeeded);
            }
        }
    }
}

impl BatchResult {
    /// The first id of the batch.
    pub closed spec fn first(&self) -> int {
        self.min as int
    }

    /// The outcomes in the order of the ids.
    pub closed spec fn in_order(&self) -> Seq<OutcomeView> {
        self.outcomes@.map_values(|outcome: Outcome| outcome@)
    }

    /// The mapping of a result holds, for each id from the first on, the
    /// outcome at its place.
    pub proof fn lemma_in_order(&self)
        ensures
            forall|id: int|
                self@.contains_key(id) <==> self.first() <= id < self.first() + self.in_order().len(),
            forall|id: int| #[trigger]
                self@.contains_key(id) ==> self@[id] == self.in_order()[id - self.first()],
    {
    }

    /// The number of targets of the batch.
    pub fn len(&self) -> (count: usize)
        ensures
            self@.dom().finite(),
            count == self@.dom().len(),
            count == self.in_order().len(),
    {
        proof {
            let lo = self.min as int;
            let hi = self.min + self.outcomes.len();
            lemma_int_range(lo, hi);
            assert(self@.dom() =~= set_int_range(lo, hi));
        }
        self.outcomes.len()
    }

    /// The outcome of the target `id`, where the batch had such a target.
    pub fn get(&self, id: i32) -> (found: Option<&Outcome>)
        ensures
            match found {
                Some(outcome) => self@.contains_key(id as int) && self@[id as int] == outcome@,
                None => !self@.contains_key(id as int),
            },
    {
        if id < self.min {
            return None;
        }
        let offset: i64 = id as i64 - self.min as i64;
        if self.outcomes.len() as u64 <= offset as u64 {
            return None;
        }
        Some(&self.outcomes[offset as usize])
    }

    /// The number of targets that did not succeed.
    pub fn failures(&self) -> (count: usize)
        ensures
            count == count_failures(self.in_order()),
    {
        let mut count: usize = 0;
        let mut i: usize = 0;
        while i < self.outcomes.len()
            invariant
                i <= self.outcomes.len(),
                count <= i,
                count == count_failures(self.in_order().take(i as int)),
            decreases self.outcomes.len() - i,
        {
            assert(self.in_order().take(i as int + 1).drop_last() =~= self.in_order().take(i as int));
            if !self.outcomes[i].is_success() {
                count = count + 1;
            }
            i = i + 1;
        }
        assert(self.in_order().take(i as int) =~= self.in_order());
        count
    }

    /// Whether every target succeeded.
    pub fn all_succeeded(&self) -> (all: bool)
        ensures
            all == (count_failures(self.in_order()) == 0),
            all == (forall|id: int| #[trigger] self@.contains_key(id) ==> self@[id] is Succeeded),
    {
        let all = self.failures() == 0;
        proof {
            lemma_count_failures(self.in_order());
            self.lemma_in_order();
            if all {
                assert forall|id: int| #[trigger] self@.contains_key(id) implies self@[id] is Succeeded by {
                    assert(self.in_order()[id - self.first()] is Succeeded);
                }
            } else {
                let i = choose|i: int|
                    0 <= i < self.in_order().len() && !(#[trigger] self.in_order()[i] is Succeeded);
                assert(self@.contains_key(self.first() + i));
            }
        }
        all
    }

    /// The exit status of the process: 0 where every target succeeded, 1
    /// where any target failed or was skipped.
    pub fn exit_code(&self) -> (code: i32)
        ensures
            code == if count_failures(self.in_order()) == 0 {
                0i32
            } else {
                1i32
            },
    {
        if self.all_succeeded() {
            0
        } else {
            1
        }
    }
}

} // verus!
