//! Teammates of an account and their access requests.

use vstd::prelude::*;

use crate::client::Client;
use crate::paging::{start, Pager, TokenScheme};
use crate::query::{number_param, positive_param, QueryBuilder};
use crate::request::{Method, QueryStyle, RequestDescriptor, RequestView};
use crate::text::{encoded, path_with};

verus! {

/// The teammate endpoints. This API writes its query strings in the
/// `application/x-www-form-urlencoded` format.
pub struct Teammates {
    pub client: Client,
}

impl View for Teammates {
    type V = Seq<char>;

    open spec fn view(&self) -> Seq<char> {
        self.client@
    }
}

/// `GET /scopes/requests` with the limit and offset that are positive.
pub open spec fn scopes_requests_request(limit: i64, offset: i64) -> RequestView {
    RequestView {
        method: Method::Get,
        path: "/scopes/requests"@,
        query: positive_param("limit"@, limit) + positive_param("offset"@, offset),
        style: QueryStyle::Form,
        body: None,
    }
}

/// A request to `path` without query parameters.
pub open spec fn bare_request(method: Method, path: Seq<char>, body: Option<Seq<u8>>) -> RequestView {
    RequestView { method, path, query: seq![], style: QueryStyle::Form, body }
}

impl Teammates {
    pub fn new(client: Client) -> (r: Teammates)
        ensures
            r@ == client@,
    {
        Teammates { client }
    }

    /// `GET /teammates`: one page of the current teammates.
    pub fn get_v_3(&self, limit: u64, offset: u64) -> (r: RequestDescriptor)
        ensures
            r@ == (RequestView {
                method: Method::Get,
                path: "/teammates"@,
                query: number_param("limit"@, limit) + number_param("offset"@, offset),
                style: QueryStyle::Form,
                body: None,
            }),
    {
        let mut q = QueryBuilder::new();
        q.number("limit", limit);
        q.number("offset", offset);
        let params = q.finish();
        proof {
            assert(params.deep_view() =~= number_param("limit"@, limit) + number_param(
                "offset"@,
                offset,
            ));
        }
        RequestDescriptor::new(
            Method::Get,
            String::from_str("/teammates"),
            params,
            QueryStyle::Form,
            None,
        )
    }

    /// `POST /teammates`: invites a teammate; `body` is the serialized
    /// invitation.
    pub fn post_v_3_teammate(&self, body: Vec<u8>) -> (r: RequestDescriptor)
        ensures
            r@ == bare_request(Method::Post, "/teammates"@, Some(body@)),
    {
        RequestDescriptor::with_body(
            Method::Post,
            String::from_str("/teammates"),
            QueryStyle::Form,
            body,
        )
    }

    /// `POST /teammates/pending/{token}/resend`: resends an invitation.
    pub fn post_v_3_pending_token_resend(&self, token: &str) -> (r: RequestDescriptor)
        ensures
            r@ == bare_request(
                Method::Post,
                "/teammates/pending/"@ + encoded(token@) + "/resend"@,
                None,
            ),
    {
        let mut path = path_with("/teammates/pending/", token);
        path.append("/resend");
        RequestDescriptor::plain(Method::Post, path, QueryStyle::Form)
    }

    /// `GET /scopes/requests`: one page of the recent access requests.
    pub fn get_v_3_scopes_requests(&self, limit: i64, offset: i64) -> (r: RequestDescriptor)
        ensures
            r@ == scopes_requests_request(limit, offset),
    {
        let mut q = QueryBuilder::new();
        q.positive("limit", limit);
        q.positive("offset", offset);
        let params = q.finish();
        proof {
            assert(params.deep_view() =~= positive_param("limit"@, limit) + positive_param(
                "offset"@,
                offset,
            ));
        }
        RequestDescriptor::new(
            Method::Get,
            String::from_str("/scopes/requests"),
            params,
            QueryStyle::Form,
            None,
        )
    }

    /// Every page of the recent access requests, followed by offset.
    pub fn get_all_v_3_scopes_requests<T>(&self, limit: i64, offset: i64) -> (r: Pager<T>)
        ensures
            r@ == start::<T>(scopes_requests_request(limit, offset), TokenScheme::Offset),
    {
        Pager::new(self.get_v_3_scopes_requests(limit, offset), TokenScheme::Offset)
    }

    /// `GET /teammates/pending`: the pending invitations.
    pub fn get_v_3_pending(&self) -> (r: RequestDescriptor)
        ensures
            r@ == bare_request(Method::Get, "/teammates/pending"@, None),
    {
        RequestDescriptor::plain(
            Method::Get,
            String::from_str("/teammates/pending"),
            QueryStyle::Form,
        )
    }

    /// `GET /teammates/{username}`: one teammate.
    pub fn get_v_3_username(&self, username: &str) -> (r: RequestDescriptor)
        ensures
            r@ == bare_request(Method::Get, "/teammates/"@ + encoded(username@), None),
    {
        RequestDescriptor::plain(Method::Get, path_with("/teammates/", username), QueryStyle::Form)
    }

    /// `DELETE /teammates/{username}`: removes a teammate.
    pub fn delete_v_3_username(&self, username: &str) -> (r: RequestDescriptor)
        ensures
            r@ == bare_request(Method::Delete, "/teammates/"@ + encoded(username@), None),
    {
        RequestDescriptor::plain(
            Method::Delete,
            path_with("/teammates/", username),
            QueryStyle::Form,
        )
    }

    /// `PATCH /teammates/{username}`: updates a teammate's permissions;
    /// `body` is the serialized update.
    pub fn patch_v_3_username(&self, username: &str, body: Vec<u8>) -> (r: RequestDescriptor)
        ensures
            r@ == bare_request(Method::Patch, "/teammates/"@ + encoded(username@), Some(body@)),
    {
        RequestDescriptor::with_body(
            Method::Patch,
            path_with("/teammates/", username),
            QueryStyle::Form,
            body,
        )
    }

    /// `PATCH /scopes/requests/{request_id}/approve`: approves an access
    /// request.
    pub fn patch_v_3_scopes_requests_approve(&self, request_id: &str) -> (r: RequestDescriptor)
        ensures
            r@ == bare_request(
                Method::Patch,
                "/scopes/requests/"@ + encoded(request_id@) + "/approve"@,
                None,
            ),
    {
        let mut path = path_with("/scopes/requests/", request_id);
        path.append("/approve");
        RequestDescriptor::plain(Method::Patch, path, QueryStyle::Form)
    }

    /// `DELETE /scopes/requests/{request_id}`: denies an access request.
    pub fn delete_v_3_scopes_requests_request(&self, request_id: &str) -> (r: RequestDescriptor)
        ensures
            r@ == bare_request(Method::Delete, "/scopes/requests/"@ + encoded(request_id@), None),
    {
        RequestDescriptor::plain(
            Method::Delete,
            path_with("/scopes/requests/", request_id),
            QueryStyle::Form,
        )
    }

    /// `DELETE /teammates/pending/{token}`: withdraws an invitation.
    pub fn delete_v_3_pending_token(&self, token: &str) -> (r: RequestDescriptor)
        ensures
            r@ == bare_request(Method::Delete, "/teammates/pending/"@ + encoded(token@), None),
    {
        RequestDescriptor::plain(
            Method::Delete,
            path_with("/teammates/pending/", token),
            QueryStyle::Form,
        )
    }
}

} // verus!
