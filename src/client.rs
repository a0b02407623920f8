//! The API a set of endpoints talks to.

use vstd::prelude::*;

use crate::request::{target_of, RequestDescriptor};

verus! {

/// Where an API is served: the base URL, without a trailing `/`, that
/// request targets are appended to.
pub struct Client {
    base_url: String,
}

impl View for Client {
    type V = Seq<char>;

    closed spec fn view(&self) -> Seq<char> {
        self.base_url@
    }
}

impl Client {
    /// A client for the API served at `base_url`.
    pub fn new(base_url: &str) -> (r: Client)
        ensures
            r@ == base_url@,
    {
        Client { base_url: base_url.to_owned() }
    }

    pub fn base_url(&self) -> (r: &str)
        ensures
            r@ == self@,
    {
        self.base_url.as_str()
    }

    /// The full URL of a request: the base URL, then the request target.
    pub fn url(&self, request: &RequestDescriptor) -> (r: String)
        ensures
            r@ == self@ + target_of(request@),
    {
        let mut out = self.base_url.clone();
        let target = request.target();
        out.append(target.as_str());
        out
    }
}

} // verus!
