//! Lifecycle supervision of a single sidecar process that serves an HTTP API.

pub mod error;
pub mod lifecycle;
pub mod process;
pub mod readiness;
pub mod request;
pub mod response;
pub mod sidecar;
pub mod status;
