use api_paging::{
    inject_token, status_error, FetchError, Method, Page, PageToken, Pager, Progress, QueryStyle,
    RequestDescriptor, TokenScheme,
};

fn initial() -> RequestDescriptor {
    RequestDescriptor::new(
        Method::Get,
        "/items".to_string(),
        vec![("limit".to_string(), "2".to_string())],
        QueryStyle::Raw,
        None,
    )
}

/// Runs a pager against scripted page outcomes, one per call; returns the
/// result and the targets that were requested.
fn drive<T>(
    mut pager: Pager<T>,
    mut pages: Vec<Result<Page<T>, FetchError>>,
) -> (Result<Vec<T>, FetchError>, Vec<String>) {
    pages.reverse();
    let mut targets = Vec::new();
    loop {
        targets.push(pager.request().target());
        let outcome = pages.pop().expect("the pager asked for a page past the script");
        match pager.receive(outcome) {
            Progress::Next(next) => pager = next,
            Progress::Done(items) => return (Ok(items), targets),
            Progress::Failed(e) => return (Err(e), targets),
        }
    }
}

fn page(items: Vec<u32>, token: Option<u64>) -> Result<Page<u32>, FetchError> {
    Ok(Page { items, next_token: token.map(PageToken::Offset) })
}

#[test]
fn pages_are_concatenated_in_order() {
    let pages = vec![
        page(vec![1, 2], Some(2)),
        page(vec![3, 4], Some(4)),
        page(vec![5, 6], None),
    ];
    let (result, targets) = drive(Pager::new(initial(), TokenScheme::Offset), pages);
    assert_eq!(result.unwrap(), vec![1, 2, 3, 4, 5, 6]);
    assert_eq!(
        targets,
        vec![
            "/items?limit=2".to_string(),
            "/items?limit=2&offset=2".to_string(),
            "/items?limit=2&offset=4".to_string(),
        ]
    );
}

#[test]
fn many_pages_give_n_times_k_items() {
    let n: u32 = 7;
    let k: u32 = 3;
    let mut pages = Vec::new();
    for i in 0..n {
        let items: Vec<u32> = (0..k).map(|j| i * k + j).collect();
        let token = if i + 1 < n { Some(((i + 1) * k) as u64) } else { None };
        pages.push(page(items, token));
    }
    let (result, targets) = drive(Pager::new(initial(), TokenScheme::Offset), pages);
    let items = result.unwrap();
    assert_eq!(items.len(), (n * k) as usize);
    assert_eq!(items, (0..n * k).collect::<Vec<u32>>());
    assert_eq!(targets.len(), n as usize);
}

#[test]
fn first_page_transport_error_is_returned() {
    let pages = vec![Err(FetchError::Transport("connection reset".to_string()))];
    let (result, targets) = drive::<u32>(Pager::new(initial(), TokenScheme::Offset), pages);
    assert_eq!(result, Err(FetchError::Transport("connection reset".to_string())));
    assert_eq!(targets.len(), 1);
}

#[test]
fn failure_on_third_of_five_pages_discards_earlier_items() {
    let pages = vec![
        page(vec![1], Some(1)),
        page(vec![2], Some(2)),
        Err(FetchError::Api { status: 500, detail: "boom".to_string() }),
        page(vec![4], Some(4)),
        page(vec![5], None),
    ];
    let (result, targets) = drive(Pager::new(initial(), TokenScheme::Offset), pages);
    assert_eq!(result, Err(FetchError::Api { status: 500, detail: "boom".to_string() }));
    assert_eq!(targets.len(), 3);
}

#[test]
fn single_page_without_token_takes_one_fetch() {
    let pages = vec![page(vec![9, 8, 7], None), page(vec![1], None)];
    let (result, targets) = drive(Pager::new(initial(), TokenScheme::Offset), pages);
    assert_eq!(result.unwrap(), vec![9, 8, 7]);
    assert_eq!(targets, vec!["/items?limit=2".to_string()]);
}

#[test]
fn empty_first_page_without_token_is_empty_result() {
    let pages = vec![page(vec![], None)];
    let (result, targets) = drive(Pager::new(initial(), TokenScheme::Offset), pages);
    assert_eq!(result.unwrap(), Vec::<u32>::new());
    assert_eq!(targets.len(), 1);
}

#[test]
fn empty_page_with_token_continues() {
    let pages = vec![page(vec![], Some(5)), page(vec![1, 2], None)];
    let (result, targets) = drive(Pager::new(initial(), TokenScheme::Offset), pages);
    assert_eq!(result.unwrap(), vec![1, 2]);
    assert_eq!(targets.len(), 2);
}

#[test]
fn decode_error_is_returned() {
    let pages = vec![page(vec![1], Some(1)), Err(FetchError::Decode("bad json".to_string()))];
    let (result, _) = drive(Pager::new(initial(), TokenScheme::Offset), pages);
    assert_eq!(result, Err(FetchError::Decode("bad json".to_string())));
}

#[test]
fn token_injection_is_deterministic() {
    let d = initial();
    let token = PageToken::Text("abc".to_string());
    let a = inject_token(&d, TokenScheme::NextPageToken, &token);
    let b = inject_token(&d, TokenScheme::NextPageToken, &token);
    assert_eq!(a.target(), b.target());
    assert_eq!(a.target(), "/items?limit=2&next_page_token=abc");
    assert_eq!(a.query(), b.query());
    assert_eq!(d.target(), "/items?limit=2");
}

#[test]
fn token_injection_replaces_earlier_value() {
    let d = initial();
    let first = inject_token(&d, TokenScheme::StartPosition, &PageToken::Offset(10));
    let second = inject_token(&first, TokenScheme::StartPosition, &PageToken::Offset(20));
    assert_eq!(second.target(), "/items?limit=2&start_position=20");
    let paged = inject_token(&d, TokenScheme::PageNumber, &PageToken::Offset(3));
    assert_eq!(paged.target(), "/items?limit=2&page=3");
}

#[test]
fn token_injection_keeps_method_path_and_body() {
    let d = RequestDescriptor::with_body(Method::Post, "/x".to_string(), QueryStyle::Form, vec![1, 2]);
    let next = inject_token(&d, TokenScheme::Offset, &PageToken::Offset(4));
    assert_eq!(next.method(), Method::Post);
    assert_eq!(next.path(), "/x");
    assert_eq!(next.style(), QueryStyle::Form);
    assert_eq!(next.body(), Some(&vec![1u8, 2]));
    assert_eq!(next.target(), "/x?offset=4");
}

#[test]
fn token_text() {
    assert_eq!(PageToken::Offset(1200).to_text(), "1200");
    assert_eq!(PageToken::Text("c/ur sor".to_string()).to_text(), "c/ur sor");
    assert_eq!(TokenScheme::NextPageToken.param_name(), "next_page_token");
    assert_eq!(TokenScheme::StartPosition.param_name(), "start_position");
}

#[test]
fn pager_accessors() {
    let pager: Pager<u32> = Pager::new(initial(), TokenScheme::Offset);
    assert_eq!(pager.scheme(), TokenScheme::Offset);
    assert_eq!(pager.collected_len(), 0);
    match pager.receive(page(vec![1, 2, 3], Some(3))) {
        Progress::Next(next) => {
            assert_eq!(next.collected_len(), 3);
            assert_eq!(next.request().target(), "/items?limit=2&offset=3");
        }
        _ => panic!("expected another page"),
    }
}

#[test]
fn status_classification() {
    assert_eq!(status_error(200, String::new()), None);
    assert_eq!(status_error(299, "x".to_string()), None);
    assert_eq!(
        status_error(404, "missing".to_string()),
        Some(FetchError::Api { status: 404, detail: "missing".to_string() })
    );
    assert_eq!(
        status_error(199, String::new()),
        Some(FetchError::Api { status: 199, detail: String::new() })
    );
    assert_eq!(
        status_error(300, String::new()),
        Some(FetchError::Api { status: 300, detail: String::new() })
    );
}
