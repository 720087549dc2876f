//! Interception shim for a console's application-management IPC service.
//!
//! The shim stands in front of the real service under its well-known name,
//! answers a handful of commands itself by splicing a synthetic "extra
//! application" into the real backend's results, and forwards everything
//! else verbatim. This crate holds the decision and merge logic of that
//! shim: the identity classifier, the synthetic catalog, the merge engine
//! and the command-dispatch tables. The IPC transport itself lives outside
//! the library; callers hand the upstream backend's results in as plain
//! values and carry the merged buffers back out.

pub mod types;
pub mod catalog;
pub mod merge;
pub mod dispatch;
pub mod front;
pub mod upstream;
