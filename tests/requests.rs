use api_paging::{
    decimal_string, encode_path, render_form, render_raw, Client, Folders, Method, PaySchedules,
    QueryBuilder, QueryStyle, RequestDescriptor, RequestLogs, SipPhone, Teammates,
};

fn pairs(p: &[(&str, &str)]) -> Vec<(String, String)> {
    p.iter().map(|(a, b)| (a.to_string(), b.to_string())).collect()
}

fn client() -> Client {
    Client::new("https://api.example.com")
}

#[test]
fn decimal_numbers() {
    assert_eq!(decimal_string(0), "0");
    assert_eq!(decimal_string(7), "7");
    assert_eq!(decimal_string(10), "10");
    assert_eq!(decimal_string(1234567890), "1234567890");
    assert_eq!(decimal_string(u64::MAX), "18446744073709551615");
}

#[test]
fn path_encoding() {
    assert_eq!(encode_path(""), "");
    assert_eq!(encode_path("AZaz09-._~"), "AZaz09-._~");
    assert_eq!(encode_path("a b/c"), "a%20b%2Fc");
    assert_eq!(encode_path("50%?#"), "50%25%3F%23");
    assert_eq!(encode_path("é"), "%C3%A9");
}

#[test]
fn builder_skips_unset_parameters() {
    let mut q = QueryBuilder::new();
    q.text("a", "1");
    q.text("b", "");
    q.positive("c", 0);
    q.positive("d", -4);
    q.positive("e", 25);
    q.number("f", 0);
    assert_eq!(q.finish(), pairs(&[("a", "1"), ("e", "25"), ("f", "0")]));
}

#[test]
fn raw_query_rendering() {
    assert_eq!(render_raw(&Vec::new()), "");
    assert_eq!(render_raw(&pairs(&[("a", "1")])), "a=1");
    assert_eq!(render_raw(&pairs(&[("a", "x y"), ("b", "2")])), "a=x y&b=2");
}

#[test]
fn form_query_rendering() {
    assert_eq!(render_form(&Vec::new()), "");
    assert_eq!(render_form(&pairs(&[("limit", "10"), ("offset", "0")])), "limit=10&offset=0");
    assert_eq!(render_form(&pairs(&[("a b", "c&d")])), "a+b=c%26d");
    assert_eq!(render_form(&pairs(&[("q", "comté*-._")])), "q=comt%C3%A9*-._");
}

#[test]
fn descriptor_target() {
    let plain = RequestDescriptor::plain(Method::Get, "/x".to_string(), QueryStyle::Raw);
    assert_eq!(plain.target(), "/x");
    assert!(plain.query().is_empty());
    assert_eq!(plain.body(), None);
    let d = RequestDescriptor::new(
        Method::Get,
        "/x".to_string(),
        pairs(&[("q", "a b")]),
        QueryStyle::Form,
        None,
    );
    assert_eq!(d.target(), "/x?q=a+b");
}

#[test]
fn with_param_sets_and_clears() {
    let d = RequestDescriptor::new(
        Method::Get,
        "/x".to_string(),
        pairs(&[("a", "1"), ("b", "2"), ("a", "3")]),
        QueryStyle::Raw,
        None,
    );
    assert_eq!(d.with_param("a", "9").target(), "/x?b=2&a=9");
    assert_eq!(d.with_param("c", "4").target(), "/x?a=1&b=2&a=3&c=4");
    assert_eq!(d.with_param("a", "").target(), "/x?b=2");
    assert_eq!(d.target(), "/x?a=1&b=2&a=3");
}

#[test]
fn method_names() {
    assert_eq!(Method::Get.as_str(), "GET");
    assert_eq!(Method::Post.as_str(), "POST");
    assert_eq!(Method::Put.as_str(), "PUT");
    assert_eq!(Method::Patch.as_str(), "PATCH");
    assert_eq!(Method::Delete.as_str(), "DELETE");
}

#[test]
fn client_url() {
    let c = client();
    assert_eq!(c.base_url(), "https://api.example.com");
    let d = RequestDescriptor::plain(Method::Get, "/teammates".to_string(), QueryStyle::Form);
    assert_eq!(c.url(&d), "https://api.example.com/teammates");
}

#[test]
fn folders_requests() {
    let f = Folders::new(client());
    assert_eq!(f.client().base_url(), "https://api.example.com");
    let d = f.get("acc 1", "envelope_folders", "", "20", "", "owned_by_me");
    assert_eq!(d.method(), Method::Get);
    assert_eq!(
        d.target(),
        "/v2.1/accounts/acc%201/folders?incl\u{75}de=envelope_folders&start_position=20&user_filter=owned_by_me"
    );
    let d = f.get("a", "", "", "", "", "");
    assert_eq!(d.target(), "/v2.1/accounts/a/folders");
    let d = f.get_folder_items("a", "f/1", "2020-01-01", "true", "", "", "", "", "sent", "");
    assert_eq!(
        d.target(),
        "/v2.1/accounts/a/folders/f%2F1?from_date=2020-01-01&include_items=true&status=sent"
    );
    let d = f.put_folder_by("a", "recyclebin", b"{}".to_vec());
    assert_eq!(d.method(), Method::Put);
    assert_eq!(d.target(), "/v2.1/accounts/a/folders/recyclebin");
    assert_eq!(d.body(), Some(&b"{}".to_vec()));
    let d = f.search_get_folder_contents("a", "drafts", "", "10", "", "", "asc", "sent", "", "");
    assert_eq!(
        d.target(),
        "/v2.1/accounts/a/search_folders/drafts?count=10&order=asc&order_by=sent"
    );
}

#[test]
fn request_logs_requests() {
    let r = RequestLogs::new(client());
    assert_eq!(r.client().base_url(), "https://api.example.com");
    assert_eq!(r.api_request_log_get_log("").target(), "/v2.1/diagnostics/request_logs");
    assert_eq!(
        r.api_request_log_get_log("base64").target(),
        "/v2.1/diagnostics/request_logs?encoding=base64"
    );
    let d = r.api_request_log_delete_logs();
    assert_eq!(d.method(), Method::Delete);
    assert_eq!(d.target(), "/v2.1/diagnostics/request_logs");
    assert_eq!(r.api_request_log_get("id 7").target(), "/v2.1/diagnostics/request_logs/id%207");
    let pager = r.api_request_log_get_request_logs::<u8>("id");
    assert_eq!(pager.request().target(), "/v2.1/diagnostics/request_logs/id");
    assert_eq!(r.api_request_log_get_setting().target(), "/v2.1/diagnostics/settings");
    let d = r.api_request_log_put_settings(vec![1]);
    assert_eq!(d.method(), Method::Put);
    assert_eq!(d.body(), Some(&vec![1u8]));
}

#[test]
fn pay_schedules_requests() {
    let p = PaySchedules::new(client());
    assert_eq!(p.client().base_url(), "https://api.example.com");
    assert_eq!(
        p.get_v_1_companies_company_id_pay_schedules("c1").target(),
        "/v1/companies/c1/pay_schedules"
    );
    let pager = p.get_all_v_1_companies_company_id_pay_schedules::<u8>("c1");
    assert_eq!(pager.request().target(), "/v1/companies/c1/pay_schedules");
    assert_eq!(
        p.get_v_1_companies_company_id_pay_schedules_pay_schedule_id("c1", "s 2").target(),
        "/v1/companies/c1/pay_schedules/s%202"
    );
    let d = p.put_v_1_companies_company_id_pay_schedules_pay_schedule_id("c1", "s2", vec![]);
    assert_eq!(d.method(), Method::Put);
    assert_eq!(d.target(), "/v1/companies/c1/pay_schedules/s2");
}

#[test]
fn teammates_requests() {
    let t = Teammates::new(client());
    assert_eq!(t.client.base_url(), "https://api.example.com");
    assert_eq!(t.get_v_3(10, 0).target(), "/teammates?limit=10&offset=0");
    let d = t.post_v_3_teammate(b"{\"email\":\"a@b.c\"}".to_vec());
    assert_eq!(d.method(), Method::Post);
    assert_eq!(d.target(), "/teammates");
    assert_eq!(
        t.post_v_3_pending_token_resend("tok").target(),
        "/teammates/pending/tok/resend"
    );
    assert_eq!(t.get_v_3_scopes_requests(0, 0).target(), "/scopes/requests");
    assert_eq!(t.get_v_3_scopes_requests(5, -1).target(), "/scopes/requests?limit=5");
    let pager = t.get_all_v_3_scopes_requests::<u8>(5, 10);
    assert_eq!(pager.request().target(), "/scopes/requests?limit=5&offset=10");
    assert_eq!(t.get_v_3_pending().target(), "/teammates/pending");
    assert_eq!(t.get_v_3_username("jo@x").target(), "/teammates/jo%40x");
    assert_eq!(t.delete_v_3_username("jo").method(), Method::Delete);
    let d = t.patch_v_3_username("jo", vec![7]);
    assert_eq!(d.method(), Method::Patch);
    assert_eq!(d.body(), Some(&vec![7u8]));
    assert_eq!(
        t.patch_v_3_scopes_requests_approve("r1").target(),
        "/scopes/requests/r1/approve"
    );
    assert_eq!(t.delete_v_3_scopes_requests_request("r1").target(), "/scopes/requests/r1");
    assert_eq!(t.delete_v_3_pending_token("tok").target(), "/teammates/pending/tok");
}

#[test]
fn sip_phone_requests() {
    let s = SipPhone::new(client());
    assert_eq!(s.client().base_url(), "https://api.example.com");
    assert_eq!(
        s.list_sip_phones(2, "me@x.com", 30, "tkn").target(),
        "/sip_phones?next_page_token=tkn&page_number=2&page_size=30&search_key=me@x.com"
    );
    assert_eq!(s.list_sip_phones(0, "", 0, "").target(), "/sip_phones");
    assert_eq!(s.create_sip_phone(vec![]).method(), Method::Post);
    let d = s.delete_sip_phone("phone-9");
    assert_eq!(d.method(), Method::Delete);
    assert_eq!(d.target(), "/sip_phones/phone-9");
    let d = s.update_sip_phone("phone-9", vec![3]);
    assert_eq!(d.method(), Method::Patch);
    assert_eq!(d.target(), "/sip_phones/phone-9");
}
