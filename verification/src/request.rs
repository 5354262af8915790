//! The requests of the management API: where each goes and what it carries.

use vstd::prelude::*;
use vstd::string::*;
use crate::auth::{Session, SessionView};
use crate::model::{Operation, OperationView, ResourceKind, Target, TargetView};
use crate::payload::{clone_body, clone_fields, fields_of, Body, Fields};
use crate::text::{push_signed, signed_decimal};

verus! {

/// The HTTP method of a request.
#[derive(Debug, Clone, Copy, PartialEq, Eq, Structural)]
pub enum Method {
    Get,
    Post,
    Delete,
}

/// What a request is for.
#[derive(Debug, Clone, Copy, PartialEq, Eq, Structural)]
pub enum Role {
    /// Asks for a ticket.
    Login,
    /// Reads the container endpoint of a target to learn its kind.
    Probe,
    /// Asks the endpoint of one kind to carry out the operation.
    Execute(ResourceKind),
    /// Reads the status of a job.
    Poll,
}

/// One request, ready to be sent: the caller adds the identity of `session`
/// to it as headers and sends `body`, where there is one, as JSON.
#[derive(Debug, PartialEq)]
pub struct Request {
    pub role: Role,
    pub method: Method,
    pub url: String,
    pub session: Option<Session>,
    pub body: Option<Body>,
}

/// A [`Request`] as a mathematical value.
pub struct RequestView {
    pub role: Role,
    pub method: Method,
    pub url: Seq<char>,
    pub session: Option<SessionView>,
    pub body: Option<Fields>,
}

impl View for Request {
    type V = RequestView;

    open spec fn view(&self) -> RequestView {
        RequestView {
            role: self.role,
            method: self.method,
            url: self.url@,
            session: match self.session {
                Some(s) => Some(s@),
                None => None,
            },
            body: match self.body {
                Some(b) => Some(fields_of(b)),
                None => None,
            },
        }
    }
}

/// The path segment of a kind.
pub open spec fn kind_segment(kind: ResourceKind) -> Seq<char> {
    match kind {
        ResourceKind::VirtualMachine => "qemu"@,
        ResourceKind::Container => "lxc"@,
    }
}

/// The URL of the resource `id` of `kind` on `node`.
pub open spec fn resource_url(base: Seq<char>, node: Seq<char>, kind: ResourceKind, id: int) -> Seq<
    char,
> {
    base + "/api2/json/nodes/"@ + node + "/"@ + kind_segment(kind) + "/"@ + signed_decimal(id)
}

/// The URL that clones the resource `source` of `kind`.
pub open spec fn clone_url(base: Seq<char>, node: Seq<char>, kind: ResourceKind, source: int) -> Seq<
    char,
> {
    resource_url(base, node, kind, source) + "/clone"@
}

/// The URL that starts the resource `id` of `kind`.
pub open spec fn start_url(base: Seq<char>, node: Seq<char>, kind: ResourceKind, id: int) -> Seq<
    char,
> {
    resource_url(base, node, kind, id) + "/status/start"@
}

/// The URL that stops the resource `id` of `kind`.
pub open spec fn stop_url(base: Seq<char>, node: Seq<char>, kind: ResourceKind, id: int) -> Seq<
    char,
> {
    resource_url(base, node, kind, id) + "/status/stop"@
}

/// The URL of the status of the job `handle` on `node`.
pub open spec fn task_url(base: Seq<char>, node: Seq<char>, handle: Seq<char>) -> Seq<char> {
    base + "/api2/json/nodes/"@ + node + "/tasks/"@ + handle + "/status"@
}

/// The request that asks the endpoint of `kind` to carry out `op` on `target`.
pub open spec fn execute_spec(
    base: Seq<char>,
    session: SessionView,
    target: TargetView,
    op: OperationView,
    kind: ResourceKind,
) -> RequestView {
    match op {
        OperationView::Clone { source, mode, name } => RequestView {
            role: Role::Execute(kind),
            method: Method::Post,
            url: clone_url(base, target.node, kind, source),
            session: Some(session),
            body: Some(clone_fields(kind, target.node, source, target.id, mode, name)),
        },
        OperationView::Destroy => RequestView {
            role: Role::Execute(kind),
            method: Method::Delete,
            url: resource_url(base, target.node, kind, target.id),
            session: Some(session),
            body: None,
        },
        OperationView::Start => RequestView {
            role: Role::Execute(kind),
            method: Method::Post,
            url: start_url(base, target.node, kind, target.id),
            session: Some(session),
            body: None,
        },
        OperationView::Stop => RequestView {
            role: Role::Execute(kind),
            method: Method::Post,
            url: stop_url(base, target.node, kind, target.id),
            session: Some(session),
            body: None,
        },
    }
}

/// The request that reads the container endpoint of `target`.
pub open spec fn probe_spec(base: Seq<char>, session: SessionView, target: TargetView) -> RequestView {
    RequestView {
        role: Role::Probe,
        method: Method::Get,
        url: resource_url(base, target.node, ResourceKind::Container, target.id),
        session: Some(session),
        body: None,
    }
}

/// The request that reads the status of the job `handle`.
pub open spec fn poll_spec(
    base: Seq<char>,
    session: SessionView,
    target: TargetView,
    handle: Seq<char>,
) -> RequestView {
    RequestView {
        role: Role::Poll,
        method: Method::Get,
        url: task_url(base, target.node, handle),
        session: Some(session),
        body: None,
    }
}

/// Builds the URL of the resource `id` of `kind` on `node`.
fn build_resource_url(base: &str, node: &str, kind: ResourceKind, id: i32) -> (url: String)
    ensures
        url@ == resource_url(base@, node@, kind, id as int),
{
    let mut url = String::from_str(base);
    url.append("/api2/json/nodes/");
    url.append(node);
    url.append("/");
    match kind {
        ResourceKind::VirtualMachine => url.append("qemu"),
        ResourceKind::Container => url.append("lxc"),
    }
    url.append("/");
    push_signed(&mut url, id as i64);
    url
}

impl Request {
    /// The request that asks the endpoint of `kind` to carry out `op` on `target`.
    pub fn execute(
        base: &str,
        session: &Session,
        target: &Target,
        op: &Operation,
        kind: ResourceKind,
    ) -> (request: Request)
        ensures
            request@ == execute_spec(base@, session@, target@, op@, kind),
    {
        match op {
            Operation::Clone { source, mode, name } => {
                let mut url = build_resource_url(base, target.node.as_str(), kind, *source);
                url.append("/clone");
                let node = target.node.as_str();
                let body = match name {
                    Some(n) => clone_body(kind, node, *source, target.id, *mode, Some(n.as_str())),
                    None => clone_body(kind, node, *source, target.id, *mode, None),
                };
                Request {
                    role: Role::Execute(kind),
                    method: Method::Post,
                    url,
                    session: Some(session.clone()),
                    body: Some(body),
                }
            },
            Operation::Destroy => Request {
                role: Role::Execute(kind),
                method: Method::Delete,
                url: build_resource_url(base, target.node.as_str(), kind, target.id),
                session: Some(session.clone()),
                body: None,
            },
            Operation::Start => {
                let mut url = build_resource_url(base, target.node.as_str(), kind, target.id);
                url.append("/status/start");
                Request {
                    role: Role::Execute(kind),
                    method: Method::Post,
                    url,
                    session: Some(session.clone()),
                    body: None,
                }
            },
            Operation::Stop => {
                let mut url = build_resource_url(base, target.node.as_str(), kind, target.id);
                url.append("/status/stop");
                Request {
                    role: Role::Execute(kind),
                    method: Method::Post,
                    url,
                    session: Some(session.clone()),
                    body: None,
                }
            },
        }
    }

    /// The request that reads the container endpoint of `target`, whose answer
    /// tells the kind of the target.
    pub fn probe(base: &str, session: &Session, target: &Target) -> (request: Request)
        ensures
            request@ == probe_spec(base@, session@, target@),
    {
        Request {
            role: Role::Probe,
            method: Method::Get,
            url: build_resource_url(base, target.node.as_str(), ResourceKind::Container, target.id),
            session: Some(session.clone()),
            body: None,
        }
    }

    /// The request that reads the status of the job `handle`.
    pub fn poll(base: &str, session: &Session, target: &Target, handle: &str) -> (request: Request)
        ensures
            request@ == poll_spec(base@, session@, target@, handle@),
    {
        let mut url = String::from_str(base);
        url.append("/api2/json/nodes/");
        url.append(target.node.as_str());
        url.append("/tasks/");
        url.append(handle);
        url.append("/status");
        Request {
            role: Role::Poll,
            method: Method::Get,
            url,
            session: Some(session.clone()),
            body: None,
        }
    }
}

} // verus!
