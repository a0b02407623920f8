//! Following a paginated collection to its end.
//!
//! A [`Pager`] holds the request for the next page and the items gathered so
//! far. Whoever performs the HTTP calls hands it each page's outcome with
//! [`Pager::receive`]; it answers with the next request to make, the whole
//! collection once a page comes without a continuation token, or the error
//! of the first page that failed.

use vstd::prelude::*;

use crate::request::{set_param, RequestDescriptor, RequestView};
use crate::text::{decimal, decimal_string};

verus! {

/// A continuation token: what a page says about where the next one starts.
#[derive(Clone, Debug, PartialEq, Eq)]
pub enum PageToken {
    /// An opaque cursor, sent back as it came.
    Text(String),
    /// A position in the collection, sent back in decimal.
    Offset(u64),
}

/// The token as it is written into the next request.
pub open spec fn token_text(t: PageToken) -> Seq<char> {
    match t {
        PageToken::Text(s) => s@,
        PageToken::Offset(n) => decimal(n as nat),
    }
}

impl PageToken {
    /// The token as it is written into the next request.
    pub fn to_text(&self) -> (r: String)
        ensures
            r@ == token_text(*self),
    {
        match self {
            PageToken::Text(s) => s.clone(),
            PageToken::Offset(n) => decimal_string(*n),
        }
    }
}

/// Which query parameter an API family reads the continuation token from.
#[derive(Clone, Copy, Debug, PartialEq, Eq, Structural)]
pub enum TokenScheme {
    /// `start_position`, a position in the result set.
    StartPosition,
    /// `next_page_token`, an opaque cursor.
    NextPageToken,
    /// `offset`, the number of items to skip.
    Offset,
    /// `page`, the number of the page.
    PageNumber,
}

/// The name of the query parameter that carries the token.
pub open spec fn scheme_param(s: TokenScheme) -> Seq<char> {
    match s {
        TokenScheme::StartPosition => "start_position"@,
        TokenScheme::NextPageToken => "next_page_token"@,
        TokenScheme::Offset => "offset"@,
        TokenScheme::PageNumber => "page"@,
    }
}

impl TokenScheme {
    /// The name of the query parameter that carries the token.
    pub fn param_name(&self) -> (r: &'static str)
        ensures
            r@ == scheme_param(*self),
    {
        match self {
            TokenScheme::StartPosition => "start_position",
            TokenScheme::NextPageToken => "next_page_token",
            TokenScheme::Offset => "offset",
            TokenScheme::PageNumber => "page",
        }
    }
}

/// The request for the page after the one that returned `token`: the same
/// request with the scheme's parameter set to the token.
pub open spec fn next_request(d: RequestView, scheme: TokenScheme, token: PageToken) -> RequestView {
    RequestView { query: set_param(d.query, scheme_param(scheme), token_text(token)), ..d }
}

/// Builds the request for the page after the one that returned `token`.
/// The result depends on the arguments alone.
pub fn inject_token(d: &RequestDescriptor, scheme: TokenScheme, token: &PageToken) -> (r:
    RequestDescriptor)
    ensures
        r@ == next_request(d@, scheme, *token),
{
    let value = token.to_text();
    d.with_param(scheme.param_name(), value.as_str())
}

/// Why fetching a page failed.
#[derive(Clone, Debug, PartialEq, Eq)]
pub enum FetchError {
    /// The connection failed or timed out.
    Transport(String),
    /// The body could not be read as the declared response type.
    Decode(String),
    /// The server answered with a status outside 2xx; its error detail.
    Api { status: u16, detail: String },
}

/// Whether an HTTP status is a success (2xx).
pub open spec fn is_success(status: u16) -> bool {
    200 <= status <= 299
}

/// The error for a response with the given status and body: none for a
/// success, else the status with the body as the server's detail.
pub fn status_error(status: u16, body: String) -> (r: Option<FetchError>)
    ensures
        is_success(status) <==> r is None,
        !is_success(status) ==> (r matches Some(FetchError::Api { status: s, detail }) && s
            == status && detail@ == body@),
{
    if 200 <= status && status <= 299 {
        None
    } else {
        Some(FetchError::Api { status, detail: body })
    }
}

/// One page of a collection: its items in server order, and the token for
/// the next page if there is one.
pub struct Page<T> {
    pub items: Vec<T>,
    pub next_token: Option<PageToken>,
}

/// What a pager stands for: the next request, the family's token scheme,
/// and the items gathered so far.
pub struct PagerView<T> {
    pub request: RequestView,
    pub scheme: TokenScheme,
    pub collected: Seq<T>,
}

/// Where a collection stands after some pages.
pub enum Outcome<T> {
    /// More pages are wanted; the pager's state.
    Pending(PagerView<T>),
    /// The last page is in; every item, in order.
    Done(Seq<T>),
    /// A page failed; its error, and nothing else.
    Failed(FetchError),
}

/// The state before the first page.
pub open spec fn start<T>(request: RequestView, scheme: TokenScheme) -> PagerView<T> {
    PagerView { request, scheme, collected: Seq::empty() }
}

/// One page's outcome applied to a pager: an error ends everything; a page
/// without a token ends the collection; a page with a token, empty or not,
/// asks for the next page.
pub open spec fn step<T>(st: PagerView<T>, r: Result<Page<T>, FetchError>) -> Outcome<T> {
    match r {
        Err(e) => Outcome::Failed(e),
        Ok(p) => match p.next_token {
            None => Outcome::Done(st.collected + p.items@),
            Some(t) => Outcome::Pending(
                PagerView {
                    request: next_request(st.request, st.scheme, t),
                    scheme: st.scheme,
                    collected: st.collected + p.items@,
                },
            ),
        },
    }
}

/// The outcomes of successive pages applied in turn, stopping at the first
/// that ends the collection; later ones are never looked at.
pub open spec fn run<T>(st: PagerView<T>, pages: Seq<Result<Page<T>, FetchError>>) -> Outcome<T>
    decreases pages.len(),
{
    if pages.len() == 0 {
        Outcome::Pending(st)
    } else {
        match step(st, pages[0]) {
            Outcome::Pending(next) => run(next, pages.drop_first()),
            ended => ended,
        }
    }
}

/// Drives the fetching of a paginated collection, one page at a time.
pub struct Pager<T> {
    request: RequestDescriptor,
    scheme: TokenScheme,
    collected: Vec<T>,
}

/// What to do after a page: fetch the next one, or stop with a result.
pub enum Progress<T> {
    /// Fetch `pager.request()` and hand its outcome to `pager.receive`.
    Next(Pager<T>),
    /// The collection is complete.
    Done(Vec<T>),
    /// A page failed; the items of earlier pages are dropped.
    Failed(FetchError),
}

impl<T> View for Pager<T> {
    type V = PagerView<T>;

    closed spec fn view(&self) -> PagerView<T> {
        PagerView { request: self.request@, scheme: self.scheme, collected: self.collected@ }
    }
}

/// What a progress value stands for.
pub open spec fn progress_view<T>(p: Progress<T>) -> Outcome<T> {
    match p {
        Progress::Next(pager) => Outcome::Pending(pager@),
        Progress::Done(items) => Outcome::Done(items@),
        Progress::Failed(e) => Outcome::Failed(e),
    }
}

impl<T> Pager<T> {
    /// A pager whose first request is `initial`.
    pub fn new(initial: RequestDescriptor, scheme: TokenScheme) -> (r: Pager<T>)
        ensures
            r@ == start::<T>(initial@, scheme),
    {
        Pager { request: initial, scheme, collected: Vec::new() }
    }

    /// The request for the next page.
    pub fn request(&self) -> (r: &RequestDescriptor)
        ensures
            r@ == self@.request,
    {
        &self.request
    }

    /// The token scheme of the collection.
    pub fn scheme(&self) -> (r: TokenScheme)
        ensures
            r == self@.scheme,
    {
        self.scheme
    }

    /// The number of items gathered from the pages so far.
    pub fn collected_len(&self) -> (r: usize)
        ensures
            r == self@.collected.len(),
    {
        self.collected.len()
    }

    /// Takes the outcome of fetching `self.request()` and says what comes
    /// next.
    pub fn receive(self, result: Result<Page<T>, FetchError>) -> (r: Progress<T>)
        ensures
            progress_view(r) == step(self@, result),
    {
        let ghost st = self@;
        match result {
            Err(e) => Progress::Failed(e),
            Ok(page) => {
                let Page { items, next_token } = page;
                let mut collected = self.collected;
                let mut items = items;
                let ghost page_items = items@;
                collected.append(&mut items);
                proof {
                    assert(collected@ == st.collected + page_items);
                }
                match next_token {
                    None => Progress::Done(collected),
                    Some(t) => {
                        let request = inject_token(&self.request, self.scheme, &t);
                        Progress::Next(Pager { request, scheme: self.scheme, collected })
                    },
                }
            },
        }
    }
}

/// The items of a page outcome: none for a failure.
pub open spec fn items_of<T>(r: Result<Page<T>, FetchError>) -> Seq<T> {
    match r {
        Ok(p) => p.items@,
        Err(_) => Seq::empty(),
    }
}

/// The items of successive page outcomes, page after page, each page's in
/// its own order.
pub open spec fn all_items<T>(pages: Seq<Result<Page<T>, FetchError>>) -> Seq<T>
    decreases pages.len(),
{
    if pages.len() == 0 {
        Seq::empty()
    } else {
        items_of(pages[0]) + all_items(pages.drop_first())
    }
}

/// A complete chain of pages: at least one, every fetch succeeded, and every
/// page but the last carries a continuation token.
pub open spec fn is_complete_chain<T>(pages: Seq<Result<Page<T>, FetchError>>) -> bool {
    &&& pages.len() > 0
    &&& forall|i: int| 0 <= i < pages.len() ==> #[trigger] pages[i] is Ok
    &&& forall|i: int|
        0 <= i < pages.len() ==> (#[trigger] pages[i]->Ok_0.next_token is Some <==> i
            < pages.len() - 1)
}

proof fn lemma_chain_run<T>(st: PagerView<T>, pages: Seq<Result<Page<T>, FetchError>>)
    requires
        is_complete_chain(pages),
    ensures
        run(st, pages) == Outcome::<T>::Done(st.collected + all_items(pages)),
    decreases pages.len(),
{
    let p = pages[0]->Ok_0;
    assert(pages[0] is Ok);
    assert(p.next_token is Some <==> 0 < pages.len() - 1);
    assert(all_items(pages) == p.items@ + all_items(pages.drop_first()));
    if pages.len() == 1 {
        assert(pages.drop_first().len() == 0);
        assert(all_items(pages.drop_first()) == Seq::<T>::empty());
        assert(p.items@ + Seq::<T>::empty() =~= p.items@);
    } else {
        let rest = pages.drop_first();
        let t = p.next_token->Some_0;
        let next = PagerView {
            request: next_request(st.request, st.scheme, t),
            scheme: st.scheme,
            collected: st.collected + p.items@,
        };
        assert forall|i: int| 0 <= i < rest.len() implies #[trigger] rest[i] is Ok by {
            assert(rest[i] == pages[i + 1]);
        }
        assert forall|i: int| 0 <= i < rest.len() implies (#[trigger] rest[i]->Ok_0.next_token is Some
            <==> i < rest.len() - 1) by {
            assert(rest[i] == pages[i + 1]);
            assert(pages[i + 1] is Ok);
            assert(pages[i + 1]->Ok_0.next_token is Some <==> i + 1 < pages.len() - 1);
        }
        assert(step(st, pages[0]) == Outcome::Pending(next));
        lemma_chain_run(next, rest);
        assert(st.collected + p.items@ + all_items(rest) =~= st.collected + (p.items@ + all_items(
            rest)));
    }
}

proof fn lemma_uniform_items<T>(pages: Seq<Result<Page<T>, FetchError>>, k: nat)
    requires
        forall|i: int| 0 <= i < pages.len() ==> (#[trigger] items_of(pages[i])).len() == k,
    ensures
        all_items(pages).len() == pages.len() * k,
        forall|i: int, j: int|
            0 <= i < pages.len() && 0 <= j < k ==> all_items(pages)[i * k + j] == #[trigger] items_of(
                pages[i],
            )[j],
    decreases pages.len(),
{
    if pages.len() > 0 {
        let rest = pages.drop_first();
        assert forall|i: int| 0 <= i < rest.len() implies (#[trigger] items_of(rest[i])).len()
            == k by {
            assert(rest[i] == pages[i + 1]);
        }
        lemma_uniform_items(rest, k);
        let first = items_of(pages[0]);
        assert(all_items(pages) == first + all_items(rest));
        assert(first.len() == k);
        let n = pages.len() as int;
        assert(k + (n - 1) * k == n * k) by (nonlinear_arith);
        assert forall|i: int, j: int| 0 <= i < pages.len() && 0 <= j < k implies all_items(
            pages,
        )[i * k + j] == #[trigger] items_of(pages[i])[j] by {
            if i == 0 {
                assert(i * k + j == j);
            } else {
                assert(i * k + j - k == (i - 1) * k + j) by (nonlinear_arith);
                assert(i * k + j >= k) by (nonlinear_arith)
                    requires
                        i >= 1,
                        j >= 0,
                        k >= 0,
                ;
                assert(rest[i - 1] == pages[i]);
                assert(all_items(rest)[(i - 1) * k + j] == items_of(rest[i - 1])[j]);
                assert((i - 1) * k + j < (n - 1) * k) by (nonlinear_arith)
                    requires
                        1 <= i < n,
                        0 <= j < k,
                ;
                assert(all_items(pages)[i * k + j] == all_items(rest)[(i - 1) * k + j]);
            }
        }
    }
}

/// A collection of pages that each hold `k` items, where every page but the
/// last carries a continuation token, comes out whole: `pages.len() * k`
/// items, page after page, each page's items in their order.
pub proof fn lemma_complete_chain_collects_every_item<T>(
    request: RequestView,
    scheme: TokenScheme,
    pages: Seq<Result<Page<T>, FetchError>>,
    k: nat,
)
    requires
        is_complete_chain(pages),
        forall|i: int| 0 <= i < pages.len() ==> (#[trigger] items_of(pages[i])).len() == k,
    ensures
        run(start::<T>(request, scheme), pages) == Outcome::<T>::Done(all_items(pages)),
        all_items(pages).len() == pages.len() * k,
        forall|i: int, j: int|
            0 <= i < pages.len() && 0 <= j < k ==> all_items(pages)[i * k + j] == #[trigger] items_of(
                pages[i],
            )[j],
{
    lemma_chain_run(start::<T>(request, scheme), pages);
    assert(Seq::<T>::empty() + all_items(pages) =~= all_items(pages));
    lemma_uniform_items(pages, k);
}

proof fn lemma_failure_from<T>(st: PagerView<T>, pages: Seq<Result<Page<T>, FetchError>>, f: int)
    requires
        0 <= f < pages.len(),
        pages[f] is Err,
        forall|i: int| 0 <= i < f ==> #[trigger] pages[i] is Ok && pages[i]->Ok_0.next_token is Some,
    ensures
        run(st, pages) == Outcome::<T>::Failed(pages[f]->Err_0),
    decreases f,
{
    if f > 0 {
        assert(pages[0] is Ok);
        let p = pages[0]->Ok_0;
        let next = PagerView {
            request: next_request(st.request, st.scheme, p.next_token->Some_0),
            scheme: st.scheme,
            collected: st.collected + p.items@,
        };
        let rest = pages.drop_first();
        assert(rest[f - 1] == pages[f]);
        assert forall|i: int| 0 <= i < f - 1 implies #[trigger] rest[i] is Ok
            && rest[i]->Ok_0.next_token is Some by {
            assert(rest[i] == pages[i + 1]);
            assert(pages[i + 1] is Ok);
        }
        lemma_failure_from(next, rest, f - 1);
    }
}

/// When every page before page `f` succeeds with a continuation token and
/// page `f` fails, the collection fails with that page's error: no item of
/// the earlier pages is returned, and no later page is looked at.
pub proof fn lemma_failed_page_aborts<T>(
    request: RequestView,
    scheme: TokenScheme,
    pages: Seq<Result<Page<T>, FetchError>>,
    f: int,
)
    requires
        0 <= f < pages.len(),
        pages[f] is Err,
        forall|i: int| 0 <= i < f ==> #[trigger] pages[i] is Ok && pages[i]->Ok_0.next_token is Some,
    ensures
        run(start::<T>(request, scheme), pages) == Outcome::<T>::Failed(pages[f]->Err_0),
{
    lemma_failure_from(start::<T>(request, scheme), pages, f);
}

/// A first page without a continuation token is the whole collection: its
/// items are returned as they are, and nothing after it is requested.
pub proof fn lemma_page_without_token_is_last<T>(
    request: RequestView,
    scheme: TokenScheme,
    page: Page<T>,
    later: Seq<Result<Page<T>, FetchError>>,
)
    requires
        page.next_token is None,
    ensures
        run(start::<T>(request, scheme), seq![Ok(page)] + later) == Outcome::<T>::Done(page.items@),
{
    let pages = seq![Ok(page)] + later;
    assert(pages[0] == Ok::<Page<T>, FetchError>(page));
    assert(Seq::<T>::empty() + page.items@ =~= page.items@);
}

/// Once a run of pages has ended, in success or failure, pages after them
/// change nothing: the pager never asks for another one.
pub proof fn lemma_ended_run_reads_no_more<T>(
    st: PagerView<T>,
    pages: Seq<Result<Page<T>, FetchError>>,
    later: Seq<Result<Page<T>, FetchError>>,
)
    requires
        !(run(st, pages) is Pending),
    ensures
        run(st, pages + later) == run(st, pages),
    decreases pages.len(),
{
    assert(pages.len() > 0);
    assert((pages + later)[0] == pages[0]);
    match step(st, pages[0]) {
        Outcome::Pending(next) => {
            assert((pages + later).drop_first() =~= pages.drop_first() + later);
            lemma_ended_run_reads_no_more(next, pages.drop_first(), later);
        },
        _ => {},
    }
}

/// The request for the next page is a function of the request and the
/// token: equal inputs give equal requests, and only the scheme's query
/// parameter differs from the request it came from.
pub proof fn lemma_next_request_is_functional(
    d1: RequestView,
    d2: RequestView,
    scheme: TokenScheme,
    t1: PageToken,
    t2: PageToken,
)
    requires
        d1 == d2,
        t1 == t2,
    ensures
        next_request(d1, scheme, t1) == next_request(d2, scheme, t2),
        next_request(d1, scheme, t1).method == d1.method,
        next_request(d1, scheme, t1).path == d1.path,
        next_request(d1, scheme, t1).style == d1.style,
        next_request(d1, scheme, t1).body == d1.body,
{
}

} // verus!
