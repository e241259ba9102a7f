//! Provisioning of the native SRT library and the error type of its bindings.
pub mod error;
pub mod layout;
pub mod fetch;
pub mod native_build;
pub mod link_plan;
pub mod interface;
pub mod pipeline;
pub mod runs;
