//! Endpoints of the video conferencing API.

mod sip_phone;

pub use sip_phone::SipPhone;
