//! Request bodies, held in a `serde_json::Map` and filled field by field.

use vstd::prelude::*;
use crate::model::{CloneMode, ResourceKind};
use crate::text::{decimal_text, signed_decimal};

verus! {

/// The `serde_json::Map` type: a JSON object as `serde_json` holds it. What
/// a map holds is known through [`fields_of`] alone.
#[verifier::external_type_specification]
#[verifier::external_body]
#[verifier::reject_recursive_types(K)]
#[verifier::reject_recursive_types(V)]
pub struct ExJsonMap<K, V>(serde_json::Map<K, V>);

/// A request body: the JSON object that is sent.
pub type Body = serde_json::Map<String, serde_json::Value>;

/// What one field of a request body holds: a JSON string or a JSON boolean.
pub enum Field {
    Text(Seq<char>),
    Flag(bool),
}

/// The fields of a request body, by key.
pub type Fields = Map<Seq<char>, Field>;

/// The fields of a request body whose value is a string or a boolean, each
/// under its key.
pub uninterp spec fn fields_of(body: Body) -> Fields;

/// `serde_json::Map::new`: a body without fields.
#[verifier::external_body]
fn empty_body() -> (body: Body)
    ensures
        fields_of(body) == Fields::empty(),
{
    serde_json::Map::new()
}

/// `serde_json::Map::insert` with a JSON string as the value: `key` then holds
/// `value`, whatever it held before, and the other fields stay.
#[verifier::external_body]
fn put_text(body: &mut Body, key: &str, value: &str)
    ensures
        fields_of(*final(body)) == fields_of(*old(body)).insert(key@, Field::Text(value@)),
{
    body.insert(key.to_string(), serde_json::Value::String(value.to_string()));
}

/// `serde_json::Map::insert` with a JSON boolean as the value: `key` then holds
/// `value`, whatever it held before, and the other fields stay.
#[verifier::external_body]
fn put_flag(body: &mut Body, key: &str, value: bool)
    ensures
        fields_of(*final(body)) == fields_of(*old(body)).insert(key@, Field::Flag(value)),
{
    body.insert(key.to_string(), serde_json::Value::Bool(value));
}

/// Whether a clone for `kind` is a full copy: always for a container, which
/// has no linked clones, and for a virtual machine where `mode` asks for it.
pub open spec fn clones_in_full(kind: ResourceKind, mode: CloneMode) -> bool {
    kind == ResourceKind::Container || mode == CloneMode::Full
}

/// The key under which a clone's name is sent.
pub open spec fn name_key(kind: ResourceKind) -> Seq<char> {
    match kind {
        ResourceKind::VirtualMachine => "name"@,
        ResourceKind::Container => "hostname"@,
    }
}

/// The body of a clone request: the new id, the node, the source id and the
/// clone mode, and the name under the key of the kind where one is given.
pub open spec fn clone_fields(
    kind: ResourceKind,
    node: Seq<char>,
    source: int,
    dest: int,
    mode: CloneMode,
    name: Option<Seq<char>>,
) -> Fields {
    let core = Fields::empty().insert("newid"@, Field::Text(signed_decimal(dest))).insert(
        "node"@,
        Field::Text(node),
    ).insert("vmid"@, Field::Text(signed_decimal(source))).insert(
        "full"@,
        Field::Flag(clones_in_full(kind, mode)),
    );
    match name {
        Some(n) => core.insert(name_key(kind), Field::Text(n)),
        None => core,
    }
}

/// The body of a login request.
pub open spec fn login_fields(user: Seq<char>, password: Seq<char>) -> Fields {
    Fields::empty().insert("username"@, Field::Text(user)).insert(
        "password"@,
        Field::Text(password),
    )
}

/// Builds the body of a clone request for the endpoint of `kind`.
pub fn clone_body(
    kind: ResourceKind,
    node: &str,
    source: i32,
    dest: i32,
    mode: CloneMode,
    name: Option<&str>,
) -> (body: Body)
    ensures
        fields_of(body) == clone_fields(
            kind,
            node@,
            source as int,
            dest as int,
            mode,
            match name {
                Some(n) => Some(n@),
                None => None,
            },
        ),
{
    let full: bool = match kind {
        ResourceKind::Container => true,
        ResourceKind::VirtualMachine => match mode {
            CloneMode::Full => true,
            CloneMode::Linked => false,
        },
    };
    let mut body = empty_body();
    let newid = decimal_text(dest as i64);
    put_text(&mut body, "newid", newid.as_str());
    put_text(&mut body, "node", node);
    let vmid = decimal_text(source as i64);
    put_text(&mut body, "vmid", vmid.as_str());
    put_flag(&mut body, "full", full);
    match name {
        Some(n) => {
            match kind {
                ResourceKind::VirtualMachine => put_text(&mut body, "name", n),
                ResourceKind::Container => put_text(&mut body, "hostname", n),
            }
        },
        None => {},
    }
    body
}

/// Builds the body of a login request.
pub fn login_body(user: &str, password: &str) -> (body: Body)
    ensures
        fields_of(body) == login_fields(user@, password@),
{
    let mut body = empty_body();
    put_text(&mut body, "username", user);
    put_text(&mut body, "password", password);
    body
}

} // verus!
