//! Endpoints of the e-signature API.

mod folders;
mod request_logs;

pub use folders::Folders;
pub use request_logs::RequestLogs;
