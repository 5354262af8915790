use serde_json::Value;
use terrabad::auth::Session;
use terrabad::model::{CloneMode, Operation, ResourceKind, Target};
use terrabad::request::{Method, Request, Role};

fn session() -> Session {
    Session { ticket: "PVE:root@pam:TICKET".to_string(), csrf: "CSRF".to_string() }
}

fn target(id: i32) -> Target {
    Target { node: "pve1".to_string(), id }
}

const BASE: &str = "https://pve:8006";

#[test]
fn clone_request_posts_to_the_clone_endpoint_of_the_source() {
    let op = Operation::Clone { source: 9000, mode: CloneMode::Linked, name: Some("web0".to_string()) };
    let vm = Request::execute(BASE, &session(), &target(100), &op, ResourceKind::VirtualMachine);
    assert_eq!(vm.role, Role::Execute(ResourceKind::VirtualMachine));
    assert_eq!(vm.method, Method::Post);
    assert_eq!(vm.url, "https://pve:8006/api2/json/nodes/pve1/qemu/9000/clone");
    assert_eq!(vm.session, Some(session()));
    let body = vm.body.unwrap();
    assert_eq!(body.get("newid"), Some(&Value::String("100".to_string())));
    assert_eq!(body.get("full"), Some(&Value::Bool(false)));
    assert_eq!(body.get("name"), Some(&Value::String("web0".to_string())));

    let ct = Request::execute(BASE, &session(), &target(100), &op, ResourceKind::Container);
    assert_eq!(ct.role, Role::Execute(ResourceKind::Container));
    assert_eq!(ct.method, Method::Post);
    assert_eq!(ct.url, "https://pve:8006/api2/json/nodes/pve1/lxc/9000/clone");
    let body = ct.body.unwrap();
    assert_eq!(body.get("full"), Some(&Value::Bool(true)));
    assert_eq!(body.get("hostname"), Some(&Value::String("web0".to_string())));
    assert_eq!(body.get("name"), None);
}

#[test]
fn destroy_request_deletes_the_resource() {
    let vm = Request::execute(BASE, &session(), &target(105), &Operation::Destroy, ResourceKind::VirtualMachine);
    assert_eq!(vm.method, Method::Delete);
    assert_eq!(vm.url, "https://pve:8006/api2/json/nodes/pve1/qemu/105");
    assert_eq!(vm.body, None);
    assert_eq!(vm.session, Some(session()));
    let ct = Request::execute(BASE, &session(), &target(105), &Operation::Destroy, ResourceKind::Container);
    assert_eq!(ct.method, Method::Delete);
    assert_eq!(ct.url, "https://pve:8006/api2/json/nodes/pve1/lxc/105");
    assert_eq!(ct.body, None);
}

#[test]
fn start_and_stop_requests_post_to_the_status_endpoints() {
    let start = Request::execute(BASE, &session(), &target(7), &Operation::Start, ResourceKind::VirtualMachine);
    assert_eq!(start.method, Method::Post);
    assert_eq!(start.url, "https://pve:8006/api2/json/nodes/pve1/qemu/7/status/start");
    assert_eq!(start.body, None);
    let start = Request::execute(BASE, &session(), &target(7), &Operation::Start, ResourceKind::Container);
    assert_eq!(start.url, "https://pve:8006/api2/json/nodes/pve1/lxc/7/status/start");
    let stop = Request::execute(BASE, &session(), &target(7), &Operation::Stop, ResourceKind::VirtualMachine);
    assert_eq!(stop.method, Method::Post);
    assert_eq!(stop.url, "https://pve:8006/api2/json/nodes/pve1/qemu/7/status/stop");
    let stop = Request::execute(BASE, &session(), &target(7), &Operation::Stop, ResourceKind::Container);
    assert_eq!(stop.url, "https://pve:8006/api2/json/nodes/pve1/lxc/7/status/stop");
    assert_eq!(stop.role, Role::Execute(ResourceKind::Container));
}

#[test]
fn probe_request_reads_the_container_endpoint() {
    let probe = Request::probe(BASE, &session(), &target(300));
    assert_eq!(probe.role, Role::Probe);
    assert_eq!(probe.method, Method::Get);
    assert_eq!(probe.url, "https://pve:8006/api2/json/nodes/pve1/lxc/300");
    assert_eq!(probe.body, None);
    assert_eq!(probe.session, Some(session()));
}

#[test]
fn poll_request_reads_the_status_of_the_job() {
    let poll = Request::poll(BASE, &session(), &target(300), "UPID:pve1:0001:qmclone");
    assert_eq!(poll.role, Role::Poll);
    assert_eq!(poll.method, Method::Get);
    assert_eq!(poll.url, "https://pve:8006/api2/json/nodes/pve1/tasks/UPID:pve1:0001:qmclone/status");
    assert_eq!(poll.body, None);
    assert_eq!(poll.session, Some(session()));
}

#[test]
fn negative_ids_are_written_with_their_sign() {
    let request = Request::execute(BASE, &session(), &target(-5), &Operation::Destroy, ResourceKind::VirtualMachine);
    assert_eq!(request.url, "https://pve:8006/api2/json/nodes/pve1/qemu/-5");
}
