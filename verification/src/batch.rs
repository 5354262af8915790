//! A batch: one operation over a range of ids on one node, planned and
//! checked before anything is sent.

use vstd::prelude::*;
use vstd::string::*;
use crate::auth::Session;
use crate::dispatcher::{Dispatcher, DispatcherView};
use crate::model::{
    CloneMode, ConfigError, Operation, OperationView, Target, TargetView,
};
use crate::pipeline::{PhaseView, Pipeline, PipelineView};
use crate::text::{decimal, push_decimal, trim_base, without_trailing_slash};

verus! {

/// How the clones of a batch are named.
#[derive(Debug, PartialEq, Eq)]
pub enum Naming {
    /// No name is sent: the server chooses.
    Unnamed,
    /// The clone gets this name as it stands.
    Exact(String),
    /// Each clone gets this prefix and its place in the range, counted from 0.
    Indexed(String),
}

/// A [`Naming`] as a mathematical value.
pub enum NamingView {
    Unnamed,
    Exact(Seq<char>),
    Indexed(Seq<char>),
}

impl View for Naming {
    type V = NamingView;

    open spec fn view(&self) -> NamingView {
        match *self {
            Naming::Unnamed => NamingView::Unnamed,
            Naming::Exact(name) => NamingView::Exact(name@),
            Naming::Indexed(prefix) => NamingView::Indexed(prefix@),
        }
    }
}

/// The name `prefix` with the place `offset` behind it.
pub open spec fn indexed_name(prefix: Seq<char>, offset: int) -> Seq<char> {
    prefix + decimal(offset as nat)
}

impl NamingView {
    /// The name of the clone at place `offset` of the range.
    pub open spec fn name_at(self, offset: int) -> Option<Seq<char>> {
        match self {
            NamingView::Unnamed => None,
            NamingView::Exact(name) => Some(name),
            NamingView::Indexed(prefix) => Some(indexed_name(prefix, offset)),
        }
    }

    /// The naming of a batch of clones whose name argument is `name`: no name
    /// where the argument is empty, else the argument as a prefix.
    pub open spec fn indexed_by(name: Seq<char>) -> NamingView {
        if name.len() == 0 {
            NamingView::Unnamed
        } else {
            NamingView::Indexed(name)
        }
    }

    /// The naming of a single clone whose name argument is `name`: no name
    /// where the argument is empty, else the argument as it stands.
    pub open spec fn exactly(name: Seq<char>) -> NamingView {
        if name.len() == 0 {
            NamingView::Unnamed
        } else {
            NamingView::Exact(name)
        }
    }
}

impl Naming {
    /// The naming of a batch of clones whose name argument is `name`.
    pub fn indexed_by(name: &str) -> (naming: Naming)
        ensures
            naming@ == NamingView::indexed_by(name@),
    {
        if name.unicode_len() == 0 {
            Naming::Unnamed
        } else {
            Naming::Indexed(String::from_str(name))
        }
    }

    /// The naming of a single clone whose name argument is `name`.
    pub fn exactly(name: &str) -> (naming: Naming)
        ensures
            naming@ == NamingView::exactly(name@),
    {
        if name.unicode_len() == 0 {
            Naming::Unnamed
        } else {
            Naming::Exact(String::from_str(name))
        }
    }

    /// The name of the clone at place `offset` of the range.
    pub fn name_at(&self, offset: u64) -> (name: Option<String>)
        ensures
            match name {
                Some(n) => self@.name_at(offset as int) == Some(n@),
                None => self@.name_at(offset as int) is None,
            },
    {
        match self {
            Naming::Unnamed => None,
            Naming::Exact(name) => Some(name.clone()),
            Naming::Indexed(prefix) => {
                let mut name = prefix.clone();
                push_decimal(&mut name, offset);
                Some(name)
            },
        }
    }
}

/// The name of the clone with the id `id` in a range that begins at `min`:
/// `prefix` and then `id - min`, so that the first clone gets the suffix 0.
pub fn clone_name(prefix: &str, id: i32, min: i32) -> (name: String)
    requires
        min <= id,
    ensures
        name@ == indexed_name(prefix@, id - min),
{
    let mut name = String::from_str(prefix);
    push_decimal(&mut name, (id as i64 - min as i64) as u64);
    name
}

/// What a batch does to each of its targets.
#[derive(Debug, PartialEq, Eq)]
pub enum BatchOperation {
    /// Clone `source` into every id of the range.
    Clone { source: i32, mode: CloneMode, naming: Naming },
    Destroy,
    Start,
    Stop,
}

/// A [`BatchOperation`] as a mathematical value.
pub enum BatchOperationView {
    Clone { source: int, mode: CloneMode, naming: NamingView },
    Destroy,
    Start,
    Stop,
}

impl View for BatchOperation {
    type V = BatchOperationView;

    open spec fn view(&self) -> BatchOperationView {
        match *self {
            BatchOperation::Clone { source, mode, naming } => BatchOperationView::Clone {
                source: source as int,
                mode,
                naming: naming@,
            },
            BatchOperation::Destroy => BatchOperationView::Destroy,
            BatchOperation::Start => BatchOperationView::Start,
            BatchOperation::Stop => BatchOperationView::Stop,
        }
    }
}

impl BatchOperationView {
    /// The operation on the target at place `offset` of the range.
    pub open spec fn at(self, offset: int) -> OperationView {
        match self {
            BatchOperationView::Clone { source, mode, naming } => OperationView::Clone {
                source,
                mode,
                name: naming.name_at(offset),
            },
            BatchOperationView::Destroy => OperationView::Destroy,
            BatchOperationView::Start => OperationView::Start,
            BatchOperationView::Stop => OperationView::Stop,
        }
    }
}

impl BatchOperation {
    /// The operation on the target at place `offset` of the range.
    pub fn at(&self, offset: u64) -> (op: Operation)
        ensures
            op@ == self@.at(offset as int),
    {
        match self {
            BatchOperation::Clone { source, mode, naming } => Operation::Clone {
                source: *source,
                mode: *mode,
                name: naming.name_at(offset),
            },
            BatchOperation::Destroy => Operation::Destroy,
            BatchOperation::Start => Operation::Start,
            BatchOperation::Stop => Operation::Stop,
        }
    }
}

/// A batch that passed its checks.
#[derive(Debug, PartialEq, Eq)]
pub struct Batch {
    base: String,
    node: String,
    min: i32,
    max: i32,
    concurrency: usize,
    op: BatchOperation,
}

/// A [`Batch`] as a mathematical value.
pub struct BatchView {
    pub base: Seq<char>,
    pub node: Seq<char>,
    pub min: int,
    pub max: int,
    pub concurrency: nat,
    pub op: BatchOperationView,
}

impl BatchView {
    /// The batch that the arguments describe: the URL loses its trailing slash.
    pub open spec fn planned(
        url: Seq<char>,
        node: Seq<char>,
        min: int,
        max: int,
        concurrency: nat,
        op: BatchOperationView,
    ) -> BatchView {
        BatchView { base: without_trailing_slash(url), node, min, max, concurrency, op }
    }

    /// Whether `id` is a target of the batch.
    pub open spec fn contains(self, id: int) -> bool {
        self.min <= id <= self.max
    }

    /// The target with the id `id`.
    pub open spec fn target(self, id: int) -> TargetView {
        TargetView { node: self.node, id }
    }

    /// The operation on the target `id`.
    pub open spec fn operation(self, id: int) -> OperationView {
        self.op.at(id - self.min)
    }
}

impl View for Batch {
    type V = BatchView;

    closed spec fn view(&self) -> BatchView {
        BatchView {
            base: self.base@,
            node: self.node@,
            min: self.min as int,
            max: self.max as int,
            concurrency: self.concurrency as nat,
            op: self.op@,
        }
    }
}

impl Batch {
    /// The invariant of a batch: its range is not empty and it has a worker.
    pub closed spec fn wf(&self) -> bool {
        self.min <= self.max && self.concurrency >= 1
    }

    /// A well-formed batch has a range that is not empty and a worker.
    pub proof fn lemma_wf(&self)
        requires
            self.wf(),
        ensures
            self@.min <= self@.max,
            self@.concurrency >= 1,
    {
    }

    /// Plans `op` over the ids `min..=max` of `node` with `concurrency`
    /// workers. Refuses a range whose first id is above its last, and then a
    /// batch without workers.
    pub fn new(
        url: &str,
        node: &str,
        min: i32,
        max: i32,
        concurrency: usize,
        op: BatchOperation,
    ) -> (planned: Result<Batch, ConfigError>)
        ensures
            match planned {
                Ok(batch) => min <= max && concurrency >= 1 && batch.wf() && batch@
                    == BatchView::planned(url@, node@, min as int, max as int, concurrency as nat, op@),
                Err(e) => if min > max {
                    e == ConfigError::InvalidRange
                } else {
                    concurrency == 0 && e == ConfigError::NoWorkers
                },
            },
    {
        if min > max {
            return Err(ConfigError::InvalidRange);
        }
        if concurrency == 0 {
            return Err(ConfigError::NoWorkers);
        }
        Ok(Batch { base: trim_base(url), node: String::from_str(node), min, max, concurrency, op })
    }

    /// The first id of the range.
    pub fn min(&self) -> (min: i32)
        ensures
            min == self@.min,
    {
        self.min
    }

    /// The last id of the range.
    pub fn max(&self) -> (max: i32)
        ensures
            max == self@.max,
    {
        self.max
    }

    /// The number of workers.
    pub fn concurrency(&self) -> (workers: usize)
        ensures
            workers == self@.concurrency,
    {
        self.concurrency
    }

    /// The base URL of the API, without a trailing slash.
    pub fn base(&self) -> (base: &String)
        ensures
            base@ == self@.base,
    {
        &self.base
    }

    /// What the batch does to each target.
    pub fn operation(&self) -> (op: &BatchOperation)
        ensures
            op@ == self@.op,
    {
        &self.op
    }

    /// The dispatcher of this batch: nothing has started.
    pub fn dispatcher(&self) -> (dispatcher: Dispatcher)
        requires
            self.wf(),
        ensures
            dispatcher.wf(),
            dispatcher@ == DispatcherView::initial(self@.min, self@.max, self@.concurrency),
    {
        Dispatcher::fresh(self.min, self.max, self.concurrency)
    }

    /// The pipeline of the target `id`, which has sent nothing yet: `None`
    /// where `id` is outside the range.
    pub fn pipeline_for(&self, session: &Session, id: i32) -> (pipeline: Option<Pipeline>)
        ensures
            match pipeline {
                Some(p) => self@.contains(id as int) && p@ == (PipelineView {
                    base: self@.base,
                    session: session@,
                    target: self@.target(id as int),
                    op: self@.operation(id as int),
                    phase: PhaseView::Idle,
                }),
                None => !self@.contains(id as int),
            },
    {
        if id < self.min || id > self.max {
            return None;
        }
        let offset: u64 = (id as i64 - self.min as i64) as u64;
        let target = Target { node: self.node.clone(), id };
        Some(Pipeline::new(self.base.clone(), session.clone(), target, self.op.at(offset)))
    }
}

} // verus!
