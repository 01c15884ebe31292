//! Credential matching for a host credential manager: reads the caller's
//! request and the manifest of local credentials, selects the entries whose
//! tags meet the requested profiles, and lays out the registration calls that
//! present them to the host.

pub mod diagnostics;
pub mod json;
pub mod manifest;
pub mod matcher;
pub mod orchestrator;
pub mod presenter;
pub mod request;
pub mod text;
pub mod transfer;
pub mod views;
