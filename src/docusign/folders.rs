//! Folders of an e-signature account.

use vstd::prelude::*;

use crate::client::Client;
use crate::query::{text_param, QueryBuilder};
use crate::request::{Method, QueryStyle, RequestDescriptor, RequestView};
use crate::text::{encoded, path_with, path_with2};

verus! {

/// The folder endpoints.
pub struct Folders {
    client: Client,
}

impl View for Folders {
    type V = Seq<char>;

    closed spec fn view(&self) -> Seq<char> {
        self.client@
    }
}

impl Folders {
    pub fn new(client: Client) -> (r: Folders)
        ensures
            r@ == client@,
    {
        Folders { client }
    }

    pub fn client(&self) -> (r: &Client)
        ensures
            r@ == self@,
    {
        &self.client
    }

    /// `GET /v2.1/accounts/{accountId}/folders`: the folders of the account.
    /// `folder_types` is the comma-separated list of folder kinds wanted.
    pub fn get(
        &self,
        account_id: &str,
        folder_types: &str,
        include_items: &str,
        start_position: &str,
        template: &str,
        user_filter: &str,
    ) -> (r: RequestDescriptor)
        ensures
            r@ == (RequestView {
                method: Method::Get,
                path: "/v2.1/accounts/"@ + encoded(account_id@) + "/folders"@,
                query: text_param("incl\u{75}de"@, folder_types@) + text_param(
                    "include_items"@,
                    include_items@,
                ) + text_param("start_position"@, start_position@) + text_param(
                    "template"@,
                    template@,
                ) + text_param("user_filter"@, user_filter@),
                style: QueryStyle::Raw,
                body: None,
            }),
    {
        let mut q = QueryBuilder::new();
        q.text("incl\u{75}de", folder_types);
        q.text("include_items", include_items);
        q.text("start_position", start_position);
        q.text("template", template);
        q.text("user_filter", user_filter);
        let mut path = path_with("/v2.1/accounts/", account_id);
        path.append("/folders");
        let params = q.finish();
        proof {
            assert(params.deep_view() =~= text_param("incl\u{75}de"@, folder_types@) + text_param(
                "include_items"@,
                include_items@,
            ) + text_param("start_position"@, start_position@) + text_param(
                "template"@,
                template@,
            ) + text_param("user_filter"@, user_filter@));
        }
        RequestDescriptor::new(Method::Get, path, params, QueryStyle::Raw, None)
    }

    /// `GET /v2.1/accounts/{accountId}/folders/{folderId}`: the envelopes in
    /// a folder, narrowed by the search criteria that are set.
    pub fn get_folder_items(
        &self,
        account_id: &str,
        folder_id: &str,
        from_date: &str,
        include_items: &str,
        owner_email: &str,
        owner_name: &str,
        search_text: &str,
        start_position: &str,
        status: &str,
        to_date: &str,
    ) -> (r: RequestDescriptor)
        ensures
            r@ == (RequestView {
                method: Method::Get,
                path: "/v2.1/accounts/"@ + encoded(account_id@) + "/folders/"@ + encoded(folder_id@),
                query: text_param("from_date"@, from_date@) + text_param(
                    "include_items"@,
                    include_items@,
                ) + text_param("owner_email"@, owner_email@) + text_param(
                    "owner_name"@,
                    owner_name@,
                ) + text_param("search_text"@, search_text@) + text_param(
                    "start_position"@,
                    start_position@,
                ) + text_param("status"@, status@) + text_param("to_date"@, to_date@),
                style: QueryStyle::Raw,
                body: None,
            }),
    {
        let mut q = QueryBuilder::new();
        q.text("from_date", from_date);
        q.text("include_items", include_items);
        q.text("owner_email", owner_email);
        q.text("owner_name", owner_name);
        q.text("search_text", search_text);
        q.text("start_position", start_position);
        q.text("status", status);
        q.text("to_date", to_date);
        let path = path_with2("/v2.1/accounts/", account_id, "/folders/", folder_id);
        let params = q.finish();
        proof {
            assert(params.deep_view() =~= text_param("from_date"@, from_date@) + text_param(
                "include_items"@,
                include_items@,
            ) + text_param("owner_email"@, owner_email@) + text_param(
                "owner_name"@,
                owner_name@,
            ) + text_param("search_text"@, search_text@) + text_param(
                "start_position"@,
                start_position@,
            ) + text_param("status"@, status@) + text_param("to_date"@, to_date@));
        }
        RequestDescriptor::new(Method::Get, path, params, QueryStyle::Raw, None)
    }

    /// `PUT /v2.1/accounts/{accountId}/folders/{folderId}`: moves envelopes
    /// to the folder; `body` is the serialized request.
    pub fn put_folder_by(&self, account_id: &str, folder_id: &str, body: Vec<u8>) -> (r:
        RequestDescriptor)
        ensures
            r@ == (RequestView {
                method: Method::Put,
                path: "/v2.1/accounts/"@ + encoded(account_id@) + "/folders/"@ + encoded(folder_id@),
                query: seq![],
                style: QueryStyle::Raw,
                body: Some(body@),
            }),
    {
        let path = path_with2("/v2.1/accounts/", account_id, "/folders/", folder_id);
        RequestDescriptor::with_body(Method::Put, path, QueryStyle::Raw, body)
    }

    /// `GET /v2.1/accounts/{accountId}/search_folders/{searchFolderId}`: the
    /// envelopes of a search folder that match the criteria that are set.
    pub fn search_get_folder_contents(
        &self,
        account_id: &str,
        search_folder_id: &str,
        all: &str,
        count: &str,
        from_date: &str,
        include_recipients: &str,
        order: &str,
        order_by: &str,
        start_position: &str,
        to_date: &str,
    ) -> (r: RequestDescriptor)
        ensures
            r@ == (RequestView {
                method: Method::Get,
                path: "/v2.1/accounts/"@ + encoded(account_id@) + "/search_folders/"@ + encoded(search_folder_id@),
                query: text_param("all"@, all@) + text_param("count"@, count@) + text_param(
                    "from_date"@,
                    from_date@,
                ) + text_param("include_recipients"@, include_recipients@) + text_param(
                    "order"@,
                    order@,
                ) + text_param("order_by"@, order_by@) + text_param(
                    "start_position"@,
                    start_position@,
                ) + text_param("to_date"@, to_date@),
                style: QueryStyle::Raw,
                body: None,
            }),
    {
        let mut q = QueryBuilder::new();
        q.text("all", all);
        q.text("count", count);
        q.text("from_date", from_date);
        q.text("include_recipients", include_recipients);
        q.text("order", order);
        q.text("order_by", order_by);
        q.text("start_position", start_position);
        q.text("to_date", to_date);
        let path = path_with2(
            "/v2.1/accounts/",
            account_id,
            "/search_folders/",
            search_folder_id,
        );
        let params = q.finish();
        proof {
            assert(params.deep_view() =~= text_param("all"@, all@) + text_param("count"@, count@)
                + text_param("from_date"@, from_date@) + text_param(
                "include_recipients"@,
                include_recipients@,
            ) + text_param("order"@, order@) + text_param("order_by"@, order_by@) + text_param(
                "start_position"@,
                start_position@,
            ) + text_param("to_date"@, to_date@));
        }
        RequestDescriptor::new(Method::Get, path, params, QueryStyle::Raw, None)
    }
}

} // verus!
