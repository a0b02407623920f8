//! The API request log kept for troubleshooting.

use vstd::prelude::*;

use crate::client::Client;
use crate::paging::{start, Pager, TokenScheme};
use crate::query::{text_param, QueryBuilder};
use crate::request::{Method, QueryStyle, RequestDescriptor, RequestView};
use crate::text::{encoded, path_with};

verus! {

/// The request log endpoints.
pub struct RequestLogs {
    client: Client,
}

impl View for RequestLogs {
    type V = Seq<char>;

    closed spec fn view(&self) -> Seq<char> {
        self.client@
    }
}

/// `GET /v2.1/diagnostics/request_logs/{requestLogId}`.
pub open spec fn log_entry_request(request_log_id: Seq<char>) -> RequestView {
    RequestView {
        method: Method::Get,
        path: "/v2.1/diagnostics/request_logs/"@ + encoded(request_log_id),
        query: seq![],
        style: QueryStyle::Raw,
        body: None,
    }
}

impl RequestLogs {
    pub fn new(client: Client) -> (r: RequestLogs)
        ensures
            r@ == client@,
    {
        RequestLogs { client }
    }

    pub fn client(&self) -> (r: &Client)
        ensures
            r@ == self@,
    {
        &self.client
    }

    /// `GET /v2.1/diagnostics/request_logs`: the log entries.
    pub fn api_request_log_get_log(&self, encoding: &str) -> (r: RequestDescriptor)
        ensures
            r@ == (RequestView {
                method: Method::Get,
                path: "/v2.1/diagnostics/request_logs"@,
                query: text_param("encoding"@, encoding@),
                style: QueryStyle::Raw,
                body: None,
            }),
    {
        let mut q = QueryBuilder::new();
        q.text("encoding", encoding);
        let params = q.finish();
        proof {
            assert(params.deep_view() =~= text_param("encoding"@, encoding@));
        }
        RequestDescriptor::new(
            Method::Get,
            String::from_str("/v2.1/diagnostics/request_logs"),
            params,
            QueryStyle::Raw,
            None,
        )
    }

    /// `DELETE /v2.1/diagnostics/request_logs`: clears the log.
    pub fn api_request_log_delete_logs(&self) -> (r: RequestDescriptor)
        ensures
            r@ == (RequestView {
                method: Method::Delete,
                path: "/v2.1/diagnostics/request_logs"@,
                query: seq![],
                style: QueryStyle::Raw,
                body: None,
            }),
    {
        RequestDescriptor::plain(
            Method::Delete,
            String::from_str("/v2.1/diagnostics/request_logs"),
            QueryStyle::Raw,
        )
    }

    /// `GET /v2.1/diagnostics/request_logs/{requestLogId}`: one log entry.
    pub fn api_request_log_get(&self, request_log_id: &str) -> (r: RequestDescriptor)
        ensures
            r@ == log_entry_request(request_log_id@),
    {
        RequestDescriptor::plain(
            Method::Get,
            path_with("/v2.1/diagnostics/request_logs/", request_log_id),
            QueryStyle::Raw,
        )
    }

    /// Every page of `GET /v2.1/diagnostics/request_logs/{requestLogId}`,
    /// followed by start position.
    pub fn api_request_log_get_request_logs<T>(&self, request_log_id: &str) -> (r: Pager<T>)
        ensures
            r@ == start::<T>(log_entry_request(request_log_id@), TokenScheme::StartPosition),
    {
        Pager::new(self.api_request_log_get(request_log_id), TokenScheme::StartPosition)
    }

    /// `GET /v2.1/diagnostics/settings`: the logging setting and the entries
    /// left.
    pub fn api_request_log_get_setting(&self) -> (r: RequestDescriptor)
        ensures
            r@ == (RequestView {
                method: Method::Get,
                path: "/v2.1/diagnostics/settings"@,
                query: seq![],
                style: QueryStyle::Raw,
                body: None,
            }),
    {
        RequestDescriptor::plain(
            Method::Get,
            String::from_str("/v2.1/diagnostics/settings"),
            QueryStyle::Raw,
        )
    }

    /// `PUT /v2.1/diagnostics/settings`: turns request logging on or off;
    /// `body` is the serialized settings.
    pub fn api_request_log_put_settings(&self, body: Vec<u8>) -> (r: RequestDescriptor)
        ensures
            r@ == (RequestView {
                method: Method::Put,
                path: "/v2.1/diagnostics/settings"@,
                query: seq![],
                style: QueryStyle::Raw,
                body: Some(body@),
            }),
    {
        RequestDescriptor::with_body(
            Method::Put,
            String::from_str("/v2.1/diagnostics/settings"),
            QueryStyle::Raw,
            body,
        )
    }
}

} // verus!
