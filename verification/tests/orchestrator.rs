use terrabad::auth::Session;
use terrabad::batch::{Batch, BatchOperation, Naming};
use terrabad::model::{CloneMode, ExecutionError, Failure, Outcome, ResourceKind};
use terrabad::orchestrator::{Dispatch, Orchestrator, Progress};
use terrabad::pipeline::Event;
use terrabad::request::Role;

fn session() -> Session {
    Session { ticket: "T".to_string(), csrf: "C".to_string() }
}

fn clones(min: i32, max: i32, workers: usize) -> Orchestrator {
    let op = BatchOperation::Clone {
        source: 9000,
        mode: CloneMode::Linked,
        naming: Naming::indexed_by("web"),
    };
    let batch = Batch::new("https://pve:8006/", "pve1", min, max, workers, op).unwrap();
    Orchestrator::new(batch, session())
}

fn answer(status: u16, body: &str) -> Event {
    Event::Response { status, body: body.to_string() }
}

fn next(progress: Progress) -> Dispatch {
    match progress {
        Progress::Send(dispatch) => dispatch,
        other => panic!("expected a request, got {:?}", other),
    }
}

/// Answers a request as a server on which every clone works at once.
fn healthy(dispatch: &Dispatch) -> Event {
    match dispatch.request.role {
        Role::Execute(_) => answer(200, "{\"data\":\"UPID:job\"}"),
        Role::Poll => answer(200, "{\"data\":{\"exitstatus\":\"OK\"}}"),
        _ => answer(200, "{\"data\":null}"),
    }
}

#[test]
fn two_clones_with_one_worker_run_one_after_the_other() {
    let mut o = clones(200, 201, 1);
    assert_eq!(o.in_flight(), 0);

    let first = o.launch().unwrap();
    assert_eq!(first.id, 200);
    assert_eq!(first.request.role, Role::Execute(ResourceKind::VirtualMachine));
    assert_eq!(o.launch(), None);
    assert_eq!(o.in_flight(), 1);

    let poll = next(o.deliver(200, answer(200, "{\"data\":\"UPID:a\"}")));
    assert_eq!(poll.id, 200);
    assert_eq!(poll.delay_ms, 350);
    assert_eq!(poll.request.url, "https://pve:8006/api2/json/nodes/pve1/tasks/UPID:a/status");
    assert_eq!(o.launch(), None);
    assert_eq!(o.in_flight(), 1);

    let done = o.deliver(200, answer(200, "{\"data\":{\"exitstatus\":\"OK\"}}"));
    assert_eq!(done, Progress::Finished { id: 200, outcome: Outcome::Succeeded });
    assert_eq!(o.in_flight(), 0);
    assert!(!o.is_finished());
    assert_eq!(o.result(), None);

    let second = o.launch().unwrap();
    assert_eq!(second.id, 201);
    assert_eq!(o.launch(), None);
    assert_eq!(o.in_flight(), 1);
    next(o.deliver(201, answer(200, "{\"data\":\"UPID:b\"}")));
    let done = o.deliver(201, answer(200, "{\"data\":{\"exitstatus\":\"OK\"}}"));
    assert_eq!(done, Progress::Finished { id: 201, outcome: Outcome::Succeeded });

    assert!(o.is_finished());
    assert_eq!(o.launch(), None);
    let result = o.result().unwrap();
    assert_eq!(result.len(), 2);
    assert_eq!(result.get(200), Some(&Outcome::Succeeded));
    assert_eq!(result.get(201), Some(&Outcome::Succeeded));
    assert_eq!(result.get(199), None);
    assert_eq!(result.get(202), None);
    assert_eq!(result.exit_code(), 0);
}

#[test]
fn launch_names_each_clone_by_its_place() {
    let mut o = clones(100, 103, 4);
    let mut names = Vec::new();
    while let Some(dispatch) = o.launch() {
        let body = dispatch.request.body.unwrap();
        let name = body.get("name").unwrap().as_str().unwrap().to_string();
        let newid = body.get("newid").unwrap().as_str().unwrap().to_string();
        names.push((dispatch.id, newid, name));
    }
    assert_eq!(
        names,
        vec![
            (100, "100".to_string(), "web0".to_string()),
            (101, "101".to_string(), "web1".to_string()),
            (102, "102".to_string(), "web2".to_string()),
            (103, "103".to_string(), "web3".to_string()),
        ]
    );
}

#[test]
fn no_more_pipelines_are_out_than_workers() {
    let mut o = clones(1, 9, 3);
    let mut out: Vec<Dispatch> = Vec::new();
    let mut peak = 0;
    let mut launched = 0;
    loop {
        while let Some(dispatch) = o.launch() {
            launched += 1;
            out.push(dispatch);
        }
        assert!(o.in_flight() <= 3);
        assert_eq!(o.in_flight(), out.len());
        peak = peak.max(out.len());
        if out.is_empty() {
            break;
        }
        let dispatch = out.remove(0);
        match o.deliver(dispatch.id, healthy(&dispatch)) {
            Progress::Send(more) => out.push(more),
            Progress::Finished { id, outcome } => {
                assert_eq!(id, dispatch.id);
                assert_eq!(outcome, Outcome::Succeeded);
            },
            Progress::Ignored => panic!("an event for a running target was ignored"),
        }
    }
    assert_eq!(peak, 3);
    assert_eq!(launched, 9);
    assert!(o.is_finished());
    let result = o.result().unwrap();
    assert_eq!(result.len(), 9);
    assert!(result.all_succeeded());
}

#[test]
fn a_transport_failure_stays_with_its_target() {
    let mut o = clones(100, 110, 4);
    let mut out: Vec<Dispatch> = Vec::new();
    loop {
        while let Some(dispatch) = o.launch() {
            out.push(dispatch);
        }
        if out.is_empty() {
            break;
        }
        let dispatch = out.remove(0);
        let event = if dispatch.id == 105 {
            Event::TransportFailure("connection reset".to_string())
        } else {
            healthy(&dispatch)
        };
        if let Progress::Send(more) = o.deliver(dispatch.id, event) {
            out.push(more);
        }
    }
    let result = o.result().unwrap();
    assert_eq!(result.len(), 11);
    for id in 100..=110 {
        if id == 105 {
            assert_eq!(
                result.get(id),
                Some(&Outcome::Failed(Failure::Transport("connection reset".to_string())))
            );
        } else {
            assert_eq!(result.get(id), Some(&Outcome::Succeeded));
        }
    }
    assert_eq!(result.failures(), 1);
    assert_eq!(result.exit_code(), 1);
}

#[test]
fn a_rejected_target_does_not_stop_the_batch() {
    let mut o = clones(1, 3, 1);
    let first = o.launch().unwrap();
    let fallback = next(o.deliver(first.id, answer(500, "")));
    assert_eq!(fallback.id, 1);
    assert_eq!(fallback.request.role, Role::Execute(ResourceKind::Container));
    let failed = o.deliver(1, answer(500, ""));
    assert_eq!(
        failed,
        Progress::Finished {
            id: 1,
            outcome: Outcome::Failed(Failure::Execution(ExecutionError::Rejected(500))),
        }
    );
    let mut out = Vec::new();
    loop {
        while let Some(dispatch) = o.launch() {
            out.push(dispatch);
        }
        if out.is_empty() {
            break;
        }
        let dispatch = out.remove(0);
        if let Progress::Send(more) = o.deliver(dispatch.id, healthy(&dispatch)) {
            out.push(more);
        }
    }
    let result = o.result().unwrap();
    assert_eq!(result.len(), 3);
    assert_eq!(result.get(2), Some(&Outcome::Succeeded));
    assert_eq!(result.get(3), Some(&Outcome::Succeeded));
    assert_eq!(result.failures(), 1);
}

#[test]
fn events_for_targets_without_a_request_out_are_ignored() {
    let mut o = clones(10, 12, 2);
    assert_eq!(o.deliver(10, answer(200, "{\"data\":\"UPID:x\"}")), Progress::Ignored);
    let first = o.launch().unwrap();
    assert_eq!(first.id, 10);
    assert_eq!(o.deliver(9, answer(200, "")), Progress::Ignored);
    assert_eq!(o.deliver(11, answer(200, "")), Progress::Ignored);
    assert_eq!(o.deliver(13, answer(200, "")), Progress::Ignored);
    assert_eq!(o.in_flight(), 1);
    assert_eq!(o.started(), 1);
    next(o.deliver(10, answer(200, "{\"data\":\"UPID:x\"}")));
    let done = o.deliver(10, answer(200, "{\"data\":{\"exitstatus\":\"OK\"}}"));
    assert_eq!(done, Progress::Finished { id: 10, outcome: Outcome::Succeeded });
    assert_eq!(o.deliver(10, answer(200, "{\"data\":{\"exitstatus\":\"OK\"}}")), Progress::Ignored);
    assert_eq!(o.outcome_of(10), Some(&Outcome::Succeeded));
    assert_eq!(o.outcome_of(11), None);
    assert_eq!(o.batch().min(), 10);
}
