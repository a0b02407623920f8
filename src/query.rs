//! Query parameters: collecting the ones that are set, and writing them out
//! as a query string.

use vstd::prelude::*;
use vstd::utf8::encode_utf8;

use crate::text::{decimal, decimal_string, percent_byte};

verus! {

/// Query parameters in their order: pairs of name and value.
pub type ParamsView = Seq<(Seq<char>, Seq<char>)>;

/// `name=value`, as written without encoding.
pub open spec fn raw_pair(p: (Seq<char>, Seq<char>)) -> Seq<char> {
    p.0 + seq!['='] + p.1
}

/// Parameters written as `name=value` pairs joined by `&`, without encoding.
pub open spec fn raw_query(q: ParamsView) -> Seq<char>
    decreases q.len(),
{
    if q.len() == 0 {
        seq![]
    } else if q.len() == 1 {
        raw_pair(q[0])
    } else {
        raw_query(q.drop_last()) + seq!['&'] + raw_pair(q.last())
    }
}

/// The parameter `name=value` when `value` is not empty, else nothing.
pub open spec fn text_param(name: Seq<char>, value: Seq<char>) -> ParamsView {
    if value.len() > 0 {
        seq![(name, value)]
    } else {
        seq![]
    }
}

/// The parameter `name` with the decimal value when `value` is positive,
/// else nothing.
pub open spec fn positive_param(name: Seq<char>, value: i64) -> ParamsView {
    if value > 0 {
        seq![(name, decimal(value as nat))]
    } else {
        seq![]
    }
}

/// The parameter `name` with the decimal value.
pub open spec fn number_param(name: Seq<char>, value: u64) -> ParamsView {
    seq![(name, decimal(value as nat))]
}

/// Bytes that the `application/x-www-form-urlencoded` format keeps as they are.
pub open spec fn form_unchanged(b: u8) -> bool {
    b == 0x2a || b == 0x2d || b == 0x2e || (0x30 <= b <= 0x39) || (0x41 <= b <= 0x5a) || b == 0x5f
        || (0x61 <= b <= 0x7a)
}

/// A byte string in the `application/x-www-form-urlencoded` format: kept
/// bytes as characters, a space as `+`, every other byte as `%XX`.
pub open spec fn form_component(bytes: Seq<u8>) -> Seq<char>
    decreases bytes.len(),
{
    if bytes.len() == 0 {
        seq![]
    } else {
        let b = bytes.last();
        form_component(bytes.drop_last()) + if form_unchanged(b) {
            seq![b as char]
        } else if b == 0x20 {
            seq!['+']
        } else {
            percent_byte(b)
        }
    }
}

/// `name=value` with both sides form-encoded from their UTF-8 bytes.
pub open spec fn form_pair(p: (Seq<char>, Seq<char>)) -> Seq<char> {
    form_component(encode_utf8(p.0)) + seq!['='] + form_component(encode_utf8(p.1))
}

/// Parameters in the `application/x-www-form-urlencoded` format: form-encoded
/// `name=value` pairs joined by `&`.
pub open spec fn form_query(q: ParamsView) -> Seq<char>
    decreases q.len(),
{
    if q.len() == 0 {
        seq![]
    } else if q.len() == 1 {
        form_pair(q[0])
    } else {
        form_query(q.drop_last()) + seq!['&'] + form_pair(q.last())
    }
}

/// Relies on `serde_urlencoded::to_string`: a sequence of string pairs is
/// written as `name=value` pairs joined by `&`, each side through
/// `form_urlencoded::byte_serialize`; string pairs are always accepted.
#[verifier::external_body]
fn form_urlencode(params: &Vec<(String, String)>) -> (r: Option<String>)
    ensures
        r is Some,
        r.unwrap()@ == form_query(params.deep_view()),
{
    serde_urlencoded::to_string(params).ok()
}

/// Writes the parameters as `name=value` pairs joined by `&`, as given.
pub fn render_raw(params: &Vec<(String, String)>) -> (r: String)
    ensures
        r@ == raw_query(params.deep_view()),
{
    let ghost q = params.deep_view();
    let mut out = String::new();
    let mut i: usize = 0;
    while i < params.len()
        invariant
            i <= params.len(),
            q == params.deep_view(),
            out@ == raw_query(q.take(i as int)),
        decreases params.len() - i,
    {
        proof {
            assert(q.take(i + 1).drop_last() =~= q.take(i as int));
            assert(q.take(i + 1).last() == q[i as int]);
        }
        if i > 0 {
            out.append("&");
        }
        out.append(params[i].0.as_str());
        out.append("=");
        out.append(params[i].1.as_str());
        proof {
            reveal_strlit("&");
            reveal_strlit("=");
            assert(out@ =~= raw_query(q.take(i + 1)));
        }
        i = i + 1;
    }
    proof {
        assert(q.take(params.len() as int) =~= q);
    }
    out
}

/// Writes the parameters in the `application/x-www-form-urlencoded` format.
pub fn render_form(params: &Vec<(String, String)>) -> (r: String)
    ensures
        r@ == form_query(params.deep_view()),
{
    match form_urlencode(params) {
        Some(s) => s,
        None => String::new(),
    }
}

/// Collects the optional query parameters of one request, keeping only
/// those that are set, in the order they are given.
pub struct QueryBuilder {
    params: Vec<(String, String)>,
}

impl View for QueryBuilder {
    type V = ParamsView;

    closed spec fn view(&self) -> ParamsView {
        self.params.deep_view()
    }
}

impl QueryBuilder {
    /// A builder with no parameters.
    pub fn new() -> (r: QueryBuilder)
        ensures
            r@ == Seq::<(Seq<char>, Seq<char>)>::empty(),
    {
        QueryBuilder { params: Vec::new() }
    }

    fn push_pair(&mut self, name: &str, value: String)
        ensures
            final(self)@ == old(self)@.push((name@, value@)),
    {
        let ghost before = self@;
        self.params.push((name.to_owned(), value));
        proof {
            assert(self@ =~= before.push((name@, value@)));
        }
    }

    /// Adds `name=value` when `value` is not empty.
    pub fn text(&mut self, name: &str, value: &str)
        ensures
            final(self)@ == old(self)@ + text_param(name@, value@),
    {
        if !value.is_empty() {
            self.push_pair(name, value.to_owned());
        }
        proof {
            assert(self@ =~= old(self)@ + text_param(name@, value@));
        }
    }

    /// Adds `name` with the decimal value when `value` is positive.
    pub fn positive(&mut self, name: &str, value: i64)
        ensures
            final(self)@ == old(self)@ + positive_param(name@, value),
    {
        if value > 0 {
            self.push_pair(name, decimal_string(value as u64));
        }
        proof {
            assert(self@ =~= old(self)@ + positive_param(name@, value));
        }
    }

    /// Adds `name` with the decimal value, whatever the value.
    pub fn number(&mut self, name: &str, value: u64)
        ensures
            final(self)@ == old(self)@ + number_param(name@, value),
    {
        self.push_pair(name, decimal_string(value));
        proof {
            assert(self@ =~= old(self)@ + number_param(name@, value));
        }
    }

    /// The collected parameters.
    pub fn finish(self) -> (r: Vec<(String, String)>)
        ensures
            r.deep_view() == self@,
    {
        self.params
    }
}

} // verus!
