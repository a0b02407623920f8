//! Pay schedules of a company.

use vstd::prelude::*;

use crate::client::Client;
use crate::paging::{start, Pager, TokenScheme};
use crate::request::{Method, QueryStyle, RequestDescriptor, RequestView};
use crate::text::{encoded, path_with, path_with2};

verus! {

/// The pay schedule endpoints.
pub struct PaySchedules {
    client: Client,
}

impl View for PaySchedules {
    type V = Seq<char>;

    closed spec fn view(&self) -> Seq<char> {
        self.client@
    }
}

/// `GET /v1/companies/{company_id}/pay_schedules`.
pub open spec fn schedules_request(company_id: Seq<char>) -> RequestView {
    RequestView {
        method: Method::Get,
        path: "/v1/companies/"@ + encoded(company_id) + "/pay_schedules"@,
        query: seq![],
        style: QueryStyle::Raw,
        body: None,
    }
}

/// The path of one pay schedule of a company.
pub open spec fn schedule_path(company_id_or_uuid: Seq<char>, pay_schedule_id_or_uuid: Seq<char>) -> Seq<char> {
    "/v1/companies/"@ + encoded(company_id_or_uuid) + "/pay_schedules/"@ + encoded(
        pay_schedule_id_or_uuid,
    )
}

impl PaySchedules {
    pub fn new(client: Client) -> (r: PaySchedules)
        ensures
            r@ == client@,
    {
        PaySchedules { client }
    }

    pub fn client(&self) -> (r: &Client)
        ensures
            r@ == self@,
    {
        &self.client
    }

    /// `GET /v1/companies/{company_id}/pay_schedules`: the pay schedules of
    /// a company.
    pub fn get_v_1_companies_company_id_pay_schedules(&self, company_id: &str) -> (r:
        RequestDescriptor)
        ensures
            r@ == schedules_request(company_id@),
    {
        let mut path = path_with("/v1/companies/", company_id);
        path.append("/pay_schedules");
        RequestDescriptor::plain(Method::Get, path, QueryStyle::Raw)
    }

    /// Every page of the pay schedules of a company, followed by page
    /// number.
    pub fn get_all_v_1_companies_company_id_pay_schedules<T>(&self, company_id: &str) -> (r:
        Pager<T>)
        ensures
            r@ == start::<T>(schedules_request(company_id@), TokenScheme::PageNumber),
    {
        Pager::new(
            self.get_v_1_companies_company_id_pay_schedules(company_id),
            TokenScheme::PageNumber,
        )
    }

    /// `GET /v1/companies/{company_id_or_uuid}/pay_schedules/{pay_schedule_id_or_uuid}`:
    /// one pay schedule.
    pub fn get_v_1_companies_company_id_pay_schedules_pay_schedule_id(
        &self,
        company_id_or_uuid: &str,
        pay_schedule_id_or_uuid: &str,
    ) -> (r: RequestDescriptor)
        ensures
            r@ == (RequestView {
                method: Method::Get,
                path: schedule_path(company_id_or_uuid@, pay_schedule_id_or_uuid@),
                query: seq![],
                style: QueryStyle::Raw,
                body: None,
            }),
    {
        let path = path_with2(
            "/v1/companies/",
            company_id_or_uuid,
            "/pay_schedules/",
            pay_schedule_id_or_uuid,
        );
        RequestDescriptor::plain(Method::Get, path, QueryStyle::Raw)
    }

    /// `PUT /v1/companies/{company_id_or_uuid}/pay_schedules/{pay_schedule_id_or_uuid}`:
    /// updates a pay schedule; `body` is the serialized update.
    pub fn put_v_1_companies_company_id_pay_schedules_pay_schedule_id(
        &self,
        company_id_or_uuid: &str,
        pay_schedule_id_or_uuid: &str,
        body: Vec<u8>,
    ) -> (r: RequestDescriptor)
        ensures
            r@ == (RequestView {
                method: Method::Put,
                path: schedule_path(company_id_or_uuid@, pay_schedule_id_or_uuid@),
                query: seq![],
                style: QueryStyle::Raw,
                body: Some(body@),
            }),
    {
        let path = path_with2(
            "/v1/companies/",
            company_id_or_uuid,
            "/pay_schedules/",
            pay_schedule_id_or_uuid,
        );
        RequestDescriptor::with_body(Method::Put, path, QueryStyle::Raw, body)
    }
}

} // verus!
