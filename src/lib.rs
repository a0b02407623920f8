//! Request building and page-by-page collection for REST API clients.
//!
//! Every endpoint method builds a [`RequestDescriptor`]: the HTTP verb, the
//! path with its percent-encoded parameters, the filtered query parameters
//! and an optional serialized body. Collection endpoints that span several
//! pages are followed with a [`Pager`], a state machine that decides, page by
//! page, what to request next and what to return once the last page is in.

mod client;
mod docusign;
mod gusto;
mod paging;
mod query;
mod request;
mod sendgrid;
mod text;
mod zoom;

pub use client::Client;
pub use docusign::{Folders, RequestLogs};
pub use gusto::PaySchedules;
pub use paging::{
    inject_token, status_error, FetchError, Page, PageToken, Pager, Progress, TokenScheme,
};
pub use query::{render_form, render_raw, QueryBuilder};
pub use request::{Method, QueryStyle, RequestDescriptor};
pub use sendgrid::Teammates;
pub use text::{decimal_string, encode_path};
pub use zoom::SipPhone;
