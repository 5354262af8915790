//! Bulk lifecycle operations (clone, destroy, start, stop) on the virtual
//! machines and containers of a Proxmox node.
//!
//! The library decides and never sends. [`mgmt`] plans a batch and reads the
//! answers of the API; [`orchestrator`] runs a batch as a state machine that
//! hands out the requests to send and takes in what came of them, with
//! [`dispatcher`] counting the workers and [`pipeline`] taking each target
//! from the resolution of its kind through the operation to the end of its
//! job. Every function is verified against a contract over the mathematical
//! views of its arguments; the calls into `serde_json`, in [`json`] and
//! [`payload`], are the only code that is trusted.

pub mod auth;
pub mod batch;
pub mod dispatcher;
pub mod json;
pub mod mgmt;
pub mod model;
pub mod orchestrator;
pub mod payload;
pub mod pipeline;
pub mod report;
pub mod request;
pub mod text;
