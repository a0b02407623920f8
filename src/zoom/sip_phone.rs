//! SIP phones of an account.

use vstd::prelude::*;

use crate::client::Client;
use crate::query::{positive_param, text_param, QueryBuilder};
use crate::request::{Method, QueryStyle, RequestDescriptor, RequestView};
use crate::text::{encoded, path_with};

verus! {

/// The SIP phone endpoints.
pub struct SipPhone {
    client: Client,
}

impl View for SipPhone {
    type V = Seq<char>;

    closed spec fn view(&self) -> Seq<char> {
        self.client@
    }
}

impl SipPhone {
    pub fn new(client: Client) -> (r: SipPhone)
        ensures
            r@ == client@,
    {
        SipPhone { client }
    }

    pub fn client(&self) -> (r: &Client)
        ensures
            r@ == self@,
    {
        &self.client
    }

    /// `GET /sip_phones`: the SIP phones of the account, one page of them.
    pub fn list_sip_phones(
        &self,
        page_number: i64,
        search_key: &str,
        page_size: i64,
        next_page_token: &str,
    ) -> (r: RequestDescriptor)
        ensures
            r@ == (RequestView {
                method: Method::Get,
                path: "/sip_phones"@,
                query: text_param("next_page_token"@, next_page_token@) + positive_param(
                    "page_number"@,
                    page_number,
                ) + positive_param("page_size"@, page_size) + text_param(
                    "search_key"@,
                    search_key@,
                ),
                style: QueryStyle::Raw,
                body: None,
            }),
    {
        let mut q = QueryBuilder::new();
        q.text("next_page_token", next_page_token);
        q.positive("page_number", page_number);
        q.positive("page_size", page_size);
        q.text("search_key", search_key);
        let params = q.finish();
        proof {
            assert(params.deep_view() =~= text_param("next_page_token"@, next_page_token@)
                + positive_param("page_number"@, page_number) + positive_param(
                "page_size"@,
                page_size,
            ) + text_param("search_key"@, search_key@));
        }
        RequestDescriptor::new(
            Method::Get,
            String::from_str("/sip_phones"),
            params,
            QueryStyle::Raw,
            None,
        )
    }

    /// `POST /sip_phones`: enables SIP phone use for a user; `body` is the
    /// serialized request.
    pub fn create_sip_phone(&self, body: Vec<u8>) -> (r: RequestDescriptor)
        ensures
            r@ == (RequestView {
                method: Method::Post,
                path: "/sip_phones"@,
                query: seq![],
                style: QueryStyle::Raw,
                body: Some(body@),
            }),
    {
        RequestDescriptor::with_body(
            Method::Post,
            String::from_str("/sip_phones"),
            QueryStyle::Raw,
            body,
        )
    }

    /// `DELETE /sip_phones/{phoneId}`: removes a SIP phone.
    pub fn delete_sip_phone(&self, phone_id: &str) -> (r: RequestDescriptor)
        ensures
            r@ == (RequestView {
                method: Method::Delete,
                path: "/sip_phones/"@ + encoded(phone_id@),
                query: seq![],
                style: QueryStyle::Raw,
                body: None,
            }),
    {
        RequestDescriptor::plain(Method::Delete, path_with("/sip_phones/", phone_id), QueryStyle::Raw)
    }

    /// `PATCH /sip_phones/{phoneId}`: updates a SIP phone; `body` is the
    /// serialized update.
    pub fn update_sip_phone(&self, phone_id: &str, body: Vec<u8>) -> (r: RequestDescriptor)
        ensures
            r@ == (RequestView {
                method: Method::Patch,
                path: "/sip_phones/"@ + encoded(phone_id@),
                query: seq![],
                style: QueryStyle::Raw,
                body: Some(body@),
            }),
    {
        RequestDescriptor::with_body(
            Method::Patch,
            path_with("/sip_phones/", phone_id),
            QueryStyle::Raw,
            body,
        )
    }
}

} // verus!
