//! Endpoints of the email delivery API.

mod teammates;

pub use teammates::Teammates;
