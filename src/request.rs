//! The description of one HTTP call, fixed before it is made.

use vstd::prelude::*;

use crate::query::{form_query, raw_query, render_form, render_raw, ParamsView};

verus! {

/// The HTTP verb of a request.
#[derive(Clone, Copy, Debug, PartialEq, Eq, Structural)]
pub enum Method {
    Get,
    Post,
    Put,
    Patch,
    Delete,
}

/// The verb as it stands in the request line.
pub open spec fn method_name(m: Method) -> Seq<char> {
    match m {
        Method::Get => "GET"@,
        Method::Post => "POST"@,
        Method::Put => "PUT"@,
        Method::Patch => "PATCH"@,
        Method::Delete => "DELETE"@,
    }
}

impl Method {
    /// The verb as it stands in the request line.
    pub fn as_str(&self) -> (r: &'static str)
        ensures
            r@ == method_name(*self),
    {
        match self {
            Method::Get => "GET",
            Method::Post => "POST",
            Method::Put => "PUT",
            Method::Patch => "PATCH",
            Method::Delete => "DELETE",
        }
    }
}

/// How the query parameters of an API family are written out.
#[derive(Clone, Copy, Debug, PartialEq, Eq, Structural)]
pub enum QueryStyle {
    /// `name=value` pairs joined by `&`, the values as given.
    Raw,
    /// The `application/x-www-form-urlencoded` format.
    Form,
}

/// What a request descriptor stands for.
pub struct RequestView {
    pub method: Method,
    pub path: Seq<char>,
    pub query: ParamsView,
    pub style: QueryStyle,
    pub body: Option<Seq<u8>>,
}

/// The query string of a request, in the family's style.
pub open spec fn query_text(style: QueryStyle, q: ParamsView) -> Seq<char> {
    match style {
        QueryStyle::Raw => raw_query(q),
        QueryStyle::Form => form_query(q),
    }
}

/// The request target: the path, then `?` and the query string when there
/// are parameters.
pub open spec fn target_of(v: RequestView) -> Seq<char> {
    if v.query.len() == 0 {
        v.path
    } else {
        v.path + seq!['?'] + query_text(v.style, v.query)
    }
}

/// The parameters without any named `name`, in their order.
pub open spec fn without_param(q: ParamsView, name: Seq<char>) -> ParamsView
    decreases q.len(),
{
    if q.len() == 0 {
        seq![]
    } else if q.last().0 == name {
        without_param(q.drop_last(), name)
    } else {
        without_param(q.drop_last(), name).push(q.last())
    }
}

/// The parameters with `name` set to `value`: earlier values of `name` are
/// dropped and the new one goes last; an empty value leaves `name` unset.
pub open spec fn set_param(q: ParamsView, name: Seq<char>, value: Seq<char>) -> ParamsView {
    if value.len() > 0 {
        without_param(q, name).push((name, value))
    } else {
        without_param(q, name)
    }
}

/// One HTTP call, fully described before it is made: verb, path with its
/// parameters encoded, query parameters, and the serialized body if any.
pub struct RequestDescriptor {
    method: Method,
    path: String,
    query: Vec<(String, String)>,
    style: QueryStyle,
    body: Option<Vec<u8>>,
}

impl View for RequestDescriptor {
    type V = RequestView;

    closed spec fn view(&self) -> RequestView {
        RequestView {
            method: self.method,
            path: self.path@,
            query: self.query.deep_view(),
            style: self.style,
            body: match self.body {
                Some(b) => Some(b@),
                None => None,
            },
        }
    }
}

impl RequestDescriptor {
    /// A descriptor from its parts.
    pub fn new(
        method: Method,
        path: String,
        query: Vec<(String, String)>,
        style: QueryStyle,
        body: Option<Vec<u8>>,
    ) -> (r: RequestDescriptor)
        ensures
            r@ == (RequestView {
                method,
                path: path@,
                query: query.deep_view(),
                style,
                body: match body {
                    Some(b) => Some(b@),
                    None => None,
                },
            }),
    {
        RequestDescriptor { method, path, query, style, body }
    }

    /// A request without query parameters or body.
    pub fn plain(method: Method, path: String, style: QueryStyle) -> (r: RequestDescriptor)
        ensures
            r@ == (RequestView { method, path: path@, query: seq![], style, body: None }),
    {
        let query: Vec<(String, String)> = Vec::new();
        proof {
            assert(query.deep_view() =~= seq![]);
        }
        RequestDescriptor { method, path, query, style, body: None }
    }

    /// A request without query parameters, carrying a serialized body.
    pub fn with_body(method: Method, path: String, style: QueryStyle, body: Vec<u8>) -> (r:
        RequestDescriptor)
        ensures
            r@ == (RequestView { method, path: path@, query: seq![], style, body: Some(body@) }),
    {
        let query: Vec<(String, String)> = Vec::new();
        proof {
            assert(query.deep_view() =~= seq![]);
        }
        RequestDescriptor { method, path, query, style, body: Some(body) }
    }

    pub fn method(&self) -> (r: Method)
        ensures
            r == self@.method,
    {
        self.method
    }

    pub fn path(&self) -> (r: &str)
        ensures
            r@ == self@.path,
    {
        self.path.as_str()
    }

    pub fn style(&self) -> (r: QueryStyle)
        ensures
            r == self@.style,
    {
        self.style
    }

    pub fn query(&self) -> (r: &Vec<(String, String)>)
        ensures
            r.deep_view() == self@.query,
    {
        &self.query
    }

    pub fn body(&self) -> (r: Option<&Vec<u8>>)
        ensures
            r is Some <==> self@.body is Some,
            r is Some ==> r.unwrap()@ == self@.body.unwrap(),
    {
        match &self.body {
            Some(b) => Some(b),
            None => None,
        }
    }

    /// The request target: the path, then `?` and the query string when
    /// there are parameters.
    pub fn target(&self) -> (r: String)
        ensures
            r@ == target_of(self@),
    {
        let mut out = self.path.clone();
        if self.query.len() > 0 {
            let q = match self.style {
                QueryStyle::Raw => render_raw(&self.query),
                QueryStyle::Form => render_form(&self.query),
            };
            out.append("?");
            out.append(q.as_str());
            proof {
                reveal_strlit("?");
                assert(out@ =~= target_of(self@));
            }
        }
        out
    }

    /// This request with the query parameter `name` set to `value`; an
    /// empty value leaves `name` unset. Everything else is kept.
    pub fn with_param(&self, name: &str, value: &str) -> (r: RequestDescriptor)
        ensures
            r@ == (RequestView { query: set_param(self@.query, name@, value@), ..self@ }),
    {
        let ghost q = self.query.deep_view();
        let key = name.to_owned();
        let mut kept: Vec<(String, String)> = Vec::new();
        let mut i: usize = 0;
        while i < self.query.len()
            invariant
                i <= self.query.len(),
                q == self.query.deep_view(),
                key@ == name@,
                kept.deep_view() == without_param(q.take(i as int), name@),
            decreases self.query.len() - i,
        {
            proof {
                assert(q.take(i + 1).drop_last() =~= q.take(i as int));
                assert(q.take(i + 1).last() == q[i as int]);
            }
            if self.query[i].0 != key {
                let ghost before = kept.deep_view();
                kept.push((self.query[i].0.clone(), self.query[i].1.clone()));
                proof {
                    assert(kept.deep_view() =~= before.push(q[i as int]));
                }
            }
            i = i + 1;
        }
        proof {
            assert(q.take(self.query.len() as int) =~= q);
        }
        if !value.is_empty() {
            let ghost before = kept.deep_view();
            kept.push((key, value.to_owned()));
            proof {
                assert(kept.deep_view() =~= before.push((name@, value@)));
            }
        }
        let body = match &self.body {
            Some(b) => Some(b.clone()),
            None => None,
        };
        RequestDescriptor {
            method: self.method,
            path: self.path.clone(),
            query: kept,
            style: self.style,
            body,
        }
    }
}

} // verus!
