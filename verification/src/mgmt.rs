//! The actions of the tool, each planned as a batch, and what the answers of
//! the management API mean: the job handle of an accepted operation, the
//! status of a job, and the kind that a probe tells.

use vstd::prelude::*;
use vstd::string::*;
use crate::batch::{Batch, BatchOperation, BatchOperationView, BatchView, Naming, NamingView};
use crate::json::{doc_view, find, json_of, member, text_member, Json, JsonView};
use crate::model::{CloneMode, ConfigError, JobStatus, JobStatusView};

verus! {

/// An answer whose `data` is empty: absent, `null`, or at most a string.
#[derive(Debug, PartialEq, Eq)]
pub struct NULLData {
    pub data: Option<String>,
}

/// The answer to an accepted operation: `data` is the handle of the job.
#[derive(Debug, PartialEq, Eq)]
pub struct UPIDData {
    pub data: String,
}

/// The answer of the job-status endpoint once the job has ended.
#[derive(Debug, PartialEq, Eq)]
pub struct JobData {
    pub data: Job,
}

/// The status with which a job ended.
#[derive(Debug, PartialEq, Eq)]
pub struct Job {
    pub exitstatus: String,
}

/// What a probe tells of a target.
#[derive(Debug, Clone, Copy, PartialEq, Eq, Structural)]
pub enum Resolution {
    VirtualMachine,
    Container,
    /// The answer has neither shape: nothing is known, and nothing is guessed.
    Unknown,
}

/// The job handle in an answer: the string `data` of its object.
pub open spec fn handle_in(doc: JsonView) -> Option<Seq<char>> {
    text_member(doc, "data"@)
}

/// The exit status in an answer: the string `exitstatus` of its object `data`.
pub open spec fn exit_status_in(doc: JsonView) -> Option<Seq<char>> {
    match member(doc, "data"@) {
        Some(data) => text_member(data, "exitstatus"@),
        None => None,
    }
}

/// The content of an answer with empty data: `None` inside where the object
/// has no `data` or a `null` one, the text where `data` is a string. Other
/// documents have no such content.
pub open spec fn empty_data_in(doc: JsonView) -> Option<Option<Seq<char>>> {
    match doc {
        JsonView::Object(members) => match find(members, "data"@) {
            None => Some(None),
            Some(JsonView::Null) => Some(None),
            Some(JsonView::Text(s)) => Some(Some(s)),
            Some(_) => None,
        },
        _ => None,
    }
}

/// The job handle that an answer to an operation holds, if it holds one.
pub open spec fn accepted_handle(doc: Option<JsonView>) -> Option<Seq<char>> {
    match doc {
        Some(d) => handle_in(d),
        None => None,
    }
}

/// The kind that the answer of the container endpoint tells: an object
/// without data is no container, so a virtual machine; an object with data is
/// a container; anything else tells nothing.
pub open spec fn resolution_in(doc: Option<JsonView>) -> Resolution {
    match doc {
        Some(JsonView::Object(members)) => match find(members, "data"@) {
            None => Resolution::VirtualMachine,
            Some(JsonView::Null) => Resolution::VirtualMachine,
            Some(_) => Resolution::Container,
        },
        _ => Resolution::Unknown,
    }
}

/// The success sentinel of the job-status endpoint.
pub open spec fn success_sentinel() -> Seq<char> {
    "OK"@
}

/// Where the job stands according to one answer of the job-status endpoint:
/// running until an exit status can be read, succeeded where that status is
/// the sentinel, failed with the status as the detail otherwise.
pub open spec fn status_in(doc: Option<JsonView>) -> JobStatusView {
    match doc {
        Some(d) => match exit_status_in(d) {
            Some(status) => if status == success_sentinel() {
                JobStatusView::Succeeded
            } else {
                JobStatusView::Failed(status)
            },
            None => JobStatusView::Running,
        },
        None => JobStatusView::Running,
    }
}

impl UPIDData {
    /// Decodes the answer to an accepted operation.
    pub fn from_json(doc: &Json) -> (decoded: Option<UPIDData>)
        ensures
            match decoded {
                Some(upid) => handle_in(doc@) == Some(upid.data@),
                None => handle_in(doc@) is None,
            },
    {
        match doc.text_at("data") {
            Some(handle) => Some(UPIDData { data: handle.clone() }),
            None => None,
        }
    }

    /// Decodes the text of the answer to an accepted operation.
    pub fn decode(answer: &str) -> (decoded: Option<UPIDData>)
        ensures
            match decoded {
                Some(upid) => accepted_handle(json_of(answer@)) == Some(upid.data@),
                None => accepted_handle(json_of(answer@)) is None,
            },
    {
        accepted(&Json::parse(answer))
    }
}

impl JobData {
    /// Decodes an answer of the job-status endpoint.
    pub fn from_json(doc: &Json) -> (decoded: Option<JobData>)
        ensures
            match decoded {
                Some(job) => exit_status_in(doc@) == Some(job.data.exitstatus@),
                None => exit_status_in(doc@) is None,
            },
    {
        match doc.get("data") {
            Some(data) => match data.text_at("exitstatus") {
                Some(status) => Some(JobData { data: Job { exitstatus: status.clone() } }),
                None => None,
            },
            None => None,
        }
    }
}

impl NULLData {
    /// Decodes an answer with empty data.
    pub fn from_json(doc: &Json) -> (decoded: Option<NULLData>)
        ensures
            match decoded {
                Some(empty) => empty_data_in(doc@) == Some(
                    match empty.data {
                        Some(s) => Some(s@),
                        None => None,
                    },
                ),
                None => empty_data_in(doc@) is None,
            },
    {
        if !doc.is_object() {
            return None;
        }
        match doc.get("data") {
            None => Some(NULLData { data: None }),
            Some(Json::Null) => Some(NULLData { data: None }),
            Some(Json::Text(s)) => Some(NULLData { data: Some(s.clone()) }),
            Some(_) => None,
        }
    }
}

/// The job handle in a parsed answer to an operation.
pub fn accepted(doc: &Option<Json>) -> (decoded: Option<UPIDData>)
    ensures
        match decoded {
            Some(upid) => accepted_handle(doc_view(*doc)) == Some(upid.data@),
            None => accepted_handle(doc_view(*doc)) is None,
        },
{
    match doc {
        Some(d) => UPIDData::from_json(d),
        None => None,
    }
}

/// The kind that a parsed answer of the container endpoint tells.
pub fn resolve(doc: &Option<Json>) -> (resolution: Resolution)
    ensures
        resolution == resolution_in(doc_view(*doc)),
{
    match doc {
        Some(d) => {
            if !d.is_object() {
                Resolution::Unknown
            } else {
                match NULLData::from_json(d) {
                    Some(empty) => match empty.data {
                        None => Resolution::VirtualMachine,
                        Some(_) => Resolution::Container,
                    },
                    None => Resolution::Container,
                }
            }
        },
        None => Resolution::Unknown,
    }
}

/// Where a job stands according to one parsed answer of the job-status
/// endpoint. An answer that cannot be read leaves the job running.
pub fn finished(doc: &Option<Json>) -> (status: JobStatus)
    ensures
        status@ == status_in(doc_view(*doc)),
{
    match doc {
        Some(d) => match JobData::from_json(d) {
            Some(job) => {
                let sentinel = String::from_str("OK");
                if job.data.exitstatus == sentinel {
                    JobStatus::Succeeded
                } else {
                    JobStatus::Failed(job.data.exitstatus)
                }
            },
            None => JobStatus::Running,
        },
        None => JobStatus::Running,
    }
}

/// The clone mode that the argument `clone_type` names: `full` is a full
/// clone, anything else a linked one.
pub open spec fn mode_named(clone_type: Seq<char>) -> CloneMode {
    if clone_type == "full"@ {
        CloneMode::Full
    } else {
        CloneMode::Linked
    }
}

/// The clone mode that the argument `clone_type` names.
pub fn clone_mode(clone_type: &str) -> (mode: CloneMode)
    ensures
        mode == mode_named(clone_type@),
{
    let given = String::from_str(clone_type);
    let full = String::from_str("full");
    if given == full {
        CloneMode::Full
    } else {
        CloneMode::Linked
    }
}

/// Why a batch over `min..=max` with `threads` workers is refused, if it is:
/// first for the id that is missing, then for the range, then for the workers.
pub open spec fn refusal(missing: Option<ConfigError>, min: int, max: int, threads: nat) -> Option<
    ConfigError,
> {
    if missing is Some {
        missing
    } else if min > max {
        Some(ConfigError::InvalidRange)
    } else if threads == 0 {
        Some(ConfigError::NoWorkers)
    } else {
        None
    }
}

/// The error for a source id that is not given.
pub open spec fn missing_source(source: Option<i32>) -> Option<ConfigError> {
    if source is None {
        Some(ConfigError::MissingSource)
    } else {
        None
    }
}

/// Plans the clones of `source` into each id of `min..=max`, `threads` at a
/// time. Each clone is named `name` and its place in the range, or not named
/// where `name` is empty.
pub fn bulk_clone(
    url: &str,
    node: &str,
    source: Option<i32>,
    min: i32,
    max: i32,
    clone_type: &str,
    name: &str,
    threads: usize,
) -> (planned: Result<Batch, ConfigError>)
    ensures
        match planned {
            Ok(batch) => refusal(missing_source(source), min as int, max as int, threads as nat) is None
                && batch.wf() && batch@ == BatchView::planned(
                url@,
                node@,
                min as int,
                max as int,
                threads as nat,
                BatchOperationView::Clone {
                    source: source->0 as int,
                    mode: mode_named(clone_type@),
                    naming: NamingView::indexed_by(name@),
                },
            ),
            Err(e) => refusal(missing_source(source), min as int, max as int, threads as nat) == Some(e),
        },
{
    match source {
        None => Err(ConfigError::MissingSource),
        Some(source) => {
            let op = BatchOperation::Clone {
                source,
                mode: clone_mode(clone_type),
                naming: Naming::indexed_by(name),
            };
            Batch::new(url, node, min, max, threads, op)
        },
    }
}

/// Plans the destruction of each id of `min..=max`, `threads` at a time.
pub fn bulk_destroy(url: &str, node: &str, min: i32, max: i32, threads: usize) -> (planned: Result<
    Batch,
    ConfigError,
>)
    ensures
        match planned {
            Ok(batch) => refusal(None, min as int, max as int, threads as nat) is None && batch.wf()
                && batch@ == BatchView::planned(
                url@,
                node@,
                min as int,
                max as int,
                threads as nat,
                BatchOperationView::Destroy,
            ),
            Err(e) => refusal(None, min as int, max as int, threads as nat) == Some(e),
        },
{
    Batch::new(url, node, min, max, threads, BatchOperation::Destroy)
}

/// Plans the start of each id of `min..=max`, `threads` at a time.
pub fn bulk_start(url: &str, node: &str, min: i32, max: i32, threads: usize) -> (planned: Result<
    Batch,
    ConfigError,
>)
    ensures
        match planned {
            Ok(batch) => refusal(None, min as int, max as int, threads as nat) is None && batch.wf()
                && batch@ == BatchView::planned(
                url@,
                node@,
                min as int,
                max as int,
                threads as nat,
                BatchOperationView::Start,
            ),
            Err(e) => refusal(None, min as int, max as int, threads as nat) == Some(e),
        },
{
    Batch::new(url, node, min, max, threads, BatchOperation::Start)
}

/// Plans the stop of each id of `min..=max`, `threads` at a time.
pub fn bulk_stop(url: &str, node: &str, min: i32, max: i32, threads: usize) -> (planned: Result<
    Batch,
    ConfigError,
>)
    ensures
        match planned {
            Ok(batch) => refusal(None, min as int, max as int, threads as nat) is None && batch.wf()
                && batch@ == BatchView::planned(
                url@,
                node@,
                min as int,
                max as int,
                threads as nat,
                BatchOperationView::Stop,
            ),
            Err(e) => refusal(None, min as int, max as int, threads as nat) == Some(e),
        },
{
    Batch::new(url, node, min, max, threads, BatchOperation::Stop)
}

/// The error for the ids of a single clone that are not given: the source
/// first, then the destination.
pub open spec fn missing_ids(source: Option<i32>, destination: Option<i32>) -> Option<ConfigError> {
    if source is None {
        Some(ConfigError::MissingSource)
    } else if destination is None {
        Some(ConfigError::MissingDestination)
    } else {
        None
    }
}

/// Plans one clone of `source` into `destination`: a batch of one target and
/// one worker. The clone is named `name` as it stands, or not named where
/// `name` is empty.
pub fn create_clone(
    url: &str,
    node: &str,
    source: Option<i32>,
    destination: Option<i32>,
    clone_type: &str,
    name: &str,
) -> (planned: Result<Batch, ConfigError>)
    ensures
        match planned {
            Ok(batch) => missing_ids(source, destination) is None && batch.wf() && batch@
                == BatchView::planned(
                url@,
                node@,
                destination->0 as int,
                destination->0 as int,
                1,
                BatchOperationView::Clone {
                    source: source->0 as int,
                    mode: mode_named(clone_type@),
                    naming: NamingView::exactly(name@),
                },
            ),
            Err(e) => missing_ids(source, destination) == Some(e),
        },
{
    match source {
        None => Err(ConfigError::MissingSource),
        Some(source) => match destination {
            None => Err(ConfigError::MissingDestination),
            Some(destination) => {
                let op = BatchOperation::Clone {
                    source,
                    mode: clone_mode(clone_type),
                    naming: Naming::exactly(name),
                };
                Batch::new(url, node, destination, destination, 1, op)
            },
        },
    }
}

/// Plans the destruction of `source`: a batch of one target and one worker.
pub fn destroy_vm(url: &str, node: &str, source: Option<i32>) -> (planned: Result<Batch, ConfigError>)
    ensures
        match planned {
            Ok(batch) => source is Some && batch.wf() && batch@ == BatchView::planned(
                url@,
                node@,
                source->0 as int,
                source->0 as int,
                1,
                BatchOperationView::Destroy,
            ),
            Err(e) => source is None && e == ConfigError::MissingSource,
        },
{
    match source {
        None => Err(ConfigError::MissingSource),
        Some(source) => Batch::new(url, node, source, source, 1, BatchOperation::Destroy),
    }
}

} // verus!
