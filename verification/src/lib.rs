//! Verified core of the OpenCode Kubernetes ephemeral-workspace platform:
//! the gateway's workspace lifecycle rules, validation and naming, the preview
//! and sandbox routers' host parsing, and the supervisor's checkpoint and
//! process-monitoring decisions.

pub mod gateway;
pub mod text;
pub mod urls;
pub mod digest;
pub mod headers;
pub mod router;
pub mod supervisor;
