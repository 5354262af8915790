use terrabad::auth::Session;
use terrabad::json::Json;
use terrabad::model::{
    CloneMode, ExecutionError, Failure, Operation, Outcome, ResourceKind, Target,
};
use terrabad::pipeline::{Action, Event, Phase, Pipeline, Reply, POLL_DELAY_MS, STATUS_OK};
use terrabad::request::{Method, Request, Role};

const BASE: &str = "https://pve:8006";

fn session() -> Session {
    Session { ticket: "T".to_string(), csrf: "C".to_string() }
}

fn pipeline(id: i32, op: Operation) -> Pipeline {
    Pipeline::new(BASE.to_string(), session(), Target { node: "pve1".to_string(), id }, op)
}

fn clone_op() -> Operation {
    Operation::Clone { source: 9000, mode: CloneMode::Linked, name: Some("web0".to_string()) }
}

fn answer(status: u16, body: &str) -> Event {
    Event::Response { status, body: body.to_string() }
}

fn sent(action: Action) -> (Request, u64) {
    match action {
        Action::Send { request, delay_ms } => (request, delay_ms),
        other => panic!("expected a request, got {:?}", other),
    }
}

#[test]
fn constants_are_those_of_the_api() {
    assert_eq!(STATUS_OK, 200);
    assert_eq!(POLL_DELAY_MS, 350);
}

#[test]
fn clone_succeeds_on_the_virtual_machine_endpoint() {
    let mut p = pipeline(100, clone_op());
    assert!(!p.is_waiting());
    let (first, delay) = sent(p.begin());
    assert_eq!(delay, 0);
    assert_eq!(first.role, Role::Execute(ResourceKind::VirtualMachine));
    assert_eq!(first.url, "https://pve:8006/api2/json/nodes/pve1/qemu/9000/clone");
    assert_eq!(p.phase, Phase::Executing(ResourceKind::VirtualMachine));
    assert!(p.is_waiting());

    let (poll, delay) = sent(p.handle(answer(200, "{\"data\":\"UPID:1\"}")));
    assert_eq!(delay, 350);
    assert_eq!(poll.role, Role::Poll);
    assert_eq!(poll.method, Method::Get);
    assert_eq!(poll.url, "https://pve:8006/api2/json/nodes/pve1/tasks/UPID:1/status");
    assert_eq!(p.phase, Phase::Polling("UPID:1".to_string()));

    let done = p.handle(answer(200, "{\"data\":{\"exitstatus\":\"OK\"}}"));
    assert_eq!(done, Action::Finish(Outcome::Succeeded));
    assert!(p.is_finished());
    assert!(!p.is_waiting());
}

#[test]
fn rejected_clone_falls_back_to_the_container_endpoint_once() {
    let mut p = pipeline(100, clone_op());
    let mut container_calls = 0;
    let (first, _) = sent(p.begin());
    assert_eq!(first.role, Role::Execute(ResourceKind::VirtualMachine));

    let (second, delay) = sent(p.handle(answer(500, "no such vm")));
    assert_eq!(delay, 0);
    assert_eq!(second.role, Role::Execute(ResourceKind::Container));
    assert_eq!(
        second,
        Request::execute(BASE, &session(), &p.target, &clone_op(), ResourceKind::Container)
    );
    assert_eq!(second.url, "https://pve:8006/api2/json/nodes/pve1/lxc/9000/clone");
    container_calls += 1;
    assert_eq!(p.phase, Phase::Executing(ResourceKind::Container));

    let end = p.handle(answer(403, "denied"));
    assert_eq!(end, Action::Finish(Outcome::Failed(Failure::Execution(ExecutionError::Rejected(403)))));
    assert!(p.is_finished());
    assert_eq!(container_calls, 1);
    assert_eq!(p.handle(answer(200, "{\"data\":\"UPID:late\"}")), Action::Nothing);
    assert_eq!(p.begin(), Action::Nothing);
}

#[test]
fn rejected_destroy_falls_back_and_can_still_succeed() {
    let mut p = pipeline(105, Operation::Destroy);
    let (first, _) = sent(p.begin());
    assert_eq!(first.method, Method::Delete);
    assert_eq!(first.url, "https://pve:8006/api2/json/nodes/pve1/qemu/105");
    let (second, _) = sent(p.handle(answer(404, "")));
    assert_eq!(second.method, Method::Delete);
    assert_eq!(second.url, "https://pve:8006/api2/json/nodes/pve1/lxc/105");
    let (poll, delay) = sent(p.handle(answer(200, "{\"data\":\"UPID:d\"}")));
    assert_eq!(delay, 350);
    assert_eq!(poll.url, "https://pve:8006/api2/json/nodes/pve1/tasks/UPID:d/status");
    assert_eq!(p.handle(answer(200, "{\"data\":{\"exitstatus\":\"OK\"}}")), Action::Finish(Outcome::Succeeded));
}

#[test]
fn only_status_200_counts_as_accepted() {
    for status in [0u16, 199, 201, 204, 301, 400, 401, 500, 599, u16::MAX] {
        let mut p = pipeline(1, Operation::Destroy);
        p.begin();
        let (request, _) = sent(p.handle(answer(status, "{\"data\":\"UPID:x\"}")));
        assert_eq!(request.role, Role::Execute(ResourceKind::Container));
        let end = p.handle(answer(status, "{\"data\":\"UPID:x\"}"));
        assert_eq!(
            end,
            Action::Finish(Outcome::Failed(Failure::Execution(ExecutionError::Rejected(status))))
        );
    }
}

#[test]
fn accepted_operation_without_a_handle_is_malformed() {
    let mut p = pipeline(1, clone_op());
    p.begin();
    let end = p.handle(answer(200, "<html>ok</html>"));
    assert_eq!(end, Action::Finish(Outcome::Failed(Failure::Execution(ExecutionError::Malformed))));
    assert!(p.is_finished());

    let mut p = pipeline(1, clone_op());
    p.begin();
    p.handle(answer(500, ""));
    let end = p.handle(answer(200, "{\"data\":null}"));
    assert_eq!(end, Action::Finish(Outcome::Failed(Failure::Execution(ExecutionError::Malformed))));
}

#[test]
fn start_probes_and_follows_the_kind() {
    let mut p = pipeline(300, Operation::Start);
    let (probe, delay) = sent(p.begin());
    assert_eq!(delay, 0);
    assert_eq!(probe.role, Role::Probe);
    assert_eq!(probe.method, Method::Get);
    assert_eq!(probe.url, "https://pve:8006/api2/json/nodes/pve1/lxc/300");
    assert_eq!(p.phase, Phase::Probing);

    let (run, _) = sent(p.handle(answer(200, "{\"data\":null}")));
    assert_eq!(run.role, Role::Execute(ResourceKind::VirtualMachine));
    assert_eq!(run.url, "https://pve:8006/api2/json/nodes/pve1/qemu/300/status/start");

    let mut p = pipeline(300, Operation::Start);
    p.begin();
    let (run, _) = sent(p.handle(answer(200, "{\"data\":[{\"subdir\":\"config\"}]}")));
    assert_eq!(run.role, Role::Execute(ResourceKind::Container));
    assert_eq!(run.url, "https://pve:8006/api2/json/nodes/pve1/lxc/300/status/start");
}

#[test]
fn probe_ignores_the_status_and_reads_the_body() {
    let mut p = pipeline(300, Operation::Stop);
    p.begin();
    let (run, _) = sent(p.handle(answer(500, "{\"data\":null}")));
    assert_eq!(run.url, "https://pve:8006/api2/json/nodes/pve1/qemu/300/status/stop");
}

#[test]
fn unreadable_probe_is_a_resolution_failure_and_sends_nothing() {
    for body in ["", "<html>", "[]", "null", "\"x\""] {
        let mut p = pipeline(300, Operation::Stop);
        p.begin();
        let end = p.handle(answer(200, body));
        assert_eq!(end, Action::Finish(Outcome::Failed(Failure::Resolution)));
        assert!(p.is_finished());
    }
}

#[test]
fn start_and_stop_do_not_fall_back() {
    let mut p = pipeline(300, Operation::Stop);
    p.begin();
    p.handle(answer(200, "{\"data\":null}"));
    let end = p.handle(answer(500, ""));
    assert_eq!(end, Action::Finish(Outcome::Failed(Failure::Execution(ExecutionError::Rejected(500)))));

    let mut p = pipeline(300, Operation::Start);
    p.begin();
    p.handle(answer(200, "{\"data\":{\"vmid\":300}}"));
    let end = p.handle(answer(500, ""));
    assert_eq!(end, Action::Finish(Outcome::Failed(Failure::Execution(ExecutionError::Rejected(500)))));
}

#[test]
fn poller_retries_until_a_status_can_be_read() {
    let mut p = pipeline(100, clone_op());
    p.begin();
    let (first_poll, _) = sent(p.handle(answer(200, "{\"data\":\"UPID:1\"}")));
    for body in ["", "{\"data\":{\"status\":\"running\"}}", "<html>", "{\"data\":null}"] {
        let (again, delay) = sent(p.handle(answer(200, body)));
        assert_eq!(delay, 0);
        assert_eq!(again, first_poll);
        assert_eq!(p.phase, Phase::Polling("UPID:1".to_string()));
    }
    let end = p.handle(answer(200, "{\"data\":{\"exitstatus\":\"OK\"}}"));
    assert_eq!(end, Action::Finish(Outcome::Succeeded));
}

#[test]
fn poller_stops_at_the_first_decoded_status() {
    let mut p = pipeline(100, clone_op());
    p.begin();
    p.handle(answer(200, "{\"data\":\"UPID:1\"}"));
    let end = p.handle(answer(200, "{\"data\":{\"exitstatus\":\"storage full\"}}"));
    assert_eq!(end, Action::Finish(Outcome::Failed(Failure::Poll("storage full".to_string()))));
    assert!(p.is_finished());
    assert_eq!(p.handle(answer(200, "{\"data\":{\"exitstatus\":\"OK\"}}")), Action::Nothing);
    assert_eq!(p.handle(Event::TransportFailure("late".to_string())), Action::Nothing);
    assert!(p.is_finished());
}

#[test]
fn transport_failure_ends_the_pipeline_in_every_phase() {
    let failure = || Event::TransportFailure("connection refused".to_string());
    let expected = Action::Finish(Outcome::Failed(Failure::Transport("connection refused".to_string())));

    let mut p = pipeline(1, Operation::Start);
    p.begin();
    assert_eq!(p.handle(failure()), expected);

    let mut p = pipeline(1, clone_op());
    p.begin();
    assert_eq!(p.handle(failure()), expected);

    let mut p = pipeline(1, clone_op());
    p.begin();
    p.handle(answer(500, ""));
    assert_eq!(p.handle(failure()), expected);

    let mut p = pipeline(1, clone_op());
    p.begin();
    p.handle(answer(200, "{\"data\":\"UPID:1\"}"));
    assert_eq!(p.handle(failure()), expected);
    assert!(p.is_finished());
}

#[test]
fn events_before_the_first_move_change_nothing() {
    let mut p = pipeline(1, clone_op());
    assert_eq!(p.handle(answer(200, "{\"data\":\"UPID:1\"}")), Action::Nothing);
    assert_eq!(p.handle(Event::TransportFailure("x".to_string())), Action::Nothing);
    assert_eq!(p.phase, Phase::Idle);
}

#[test]
fn step_takes_the_parsed_document() {
    let mut p = pipeline(100, Operation::Destroy);
    p.begin();
    let doc = Json::Object(vec![("data".to_string(), Json::Text("UPID:7".to_string()))]);
    let (poll, delay) = sent(p.step(Reply::Response { status: 200, doc: Some(doc) }));
    assert_eq!(delay, 350);
    assert_eq!(poll.url, "https://pve:8006/api2/json/nodes/pve1/tasks/UPID:7/status");
    let status = Json::Object(vec![(
        "data".to_string(),
        Json::Object(vec![("exitstatus".to_string(), Json::Text("OK".to_string()))]),
    )]);
    assert_eq!(
        p.step(Reply::Response { status: 200, doc: Some(status) }),
        Action::Finish(Outcome::Succeeded)
    );
}

#[test]
fn every_request_carries_the_session() {
    let mut p = pipeline(300, Operation::Start);
    let (probe, _) = sent(p.begin());
    assert_eq!(probe.session, Some(session()));
    let (run, _) = sent(p.handle(answer(200, "{\"data\":null}")));
    assert_eq!(run.session, Some(session()));
    let (poll, _) = sent(p.handle(answer(200, "{\"data\":\"UPID:1\"}")));
    assert_eq!(poll.session, Some(session()));
    let (again, _) = sent(p.handle(answer(200, "")));
    assert_eq!(again.session, Some(session()));
}

#[test]
fn event_parse_reads_the_body_and_keeps_the_rest() {
    let reply = answer(201, "{\"data\":null}").parse();
    assert_eq!(
        reply,
        Reply::Response {
            status: 201,
            doc: Some(Json::Object(vec![("data".to_string(), Json::Null)])),
        }
    );
    assert_eq!(answer(200, "<html>").parse(), Reply::Response { status: 200, doc: None });
    assert_eq!(
        Event::TransportFailure("timeout".to_string()).parse(),
        Reply::TransportFailure("timeout".to_string())
    );
}
