use vstd::prelude::*;

use crate::model::body::Body;
use crate::model::headers::Headers;
use crate::model::method::Method;
use crate::model::url::Url;

verus! {

/// An HTTP request: one method, one target locator, a collection of headers
/// and at most one body.
///
/// Headers change in place through [`Request::headers_mut`]; a body is
/// attached by the consuming step [`Request::with_body`] and taken out, once,
/// by the consuming [`Request::into_body`].
#[derive(Debug)]
pub struct Request<'a> {
    method: Method,
    url: Url,
    headers: Headers,
    body: Option<Body<'a>>,
}

impl<'a> Request<'a> {
    /// The method of the request.
    pub closed spec fn spec_method(&self) -> Method {
        self.method
    }

    /// The target locator of the request.
    pub closed spec fn spec_url(&self) -> Url {
        self.url
    }

    /// The headers of the request.
    pub closed spec fn spec_headers(&self) -> Headers {
        self.headers
    }

    /// The attached body, or `None` when there is none.
    pub closed spec fn spec_body(&self) -> Option<Body<'a>> {
        self.body
    }

    /// `next` is this request with `body` attached in place of whatever body
    /// it had: method, locator and headers are the same.
    pub open spec fn body_replaced(&self, next: Request<'a>, body: Body<'a>) -> bool {
        &&& next.spec_method() == self.spec_method()
        &&& next.spec_url() == self.spec_url()
        &&& next.spec_headers() == self.spec_headers()
        &&& next.spec_body() == Some(body)
    }

    /// This request is for `method` on `url` and has no header and no body.
    pub open spec fn is_fresh(&self, method: Method, url: Url) -> bool {
        &&& self.spec_method() == method
        &&& self.spec_url() == url
        &&& self.spec_headers()@ == Seq::<(Seq<u8>, Seq<u8>)>::empty()
        &&& self.spec_body() is None
    }

    /// A request for `method` on `url`, with no header and no body.
    pub fn new(method: Method, url: Url) -> (r: Request<'a>)
        ensures
            r.is_fresh(method, url),
    {
        Request { method, url, headers: Headers::new(), body: None }
    }

    /// The method, by reference.
    pub fn method(&self) -> (r: &Method)
        ensures
            *r == self.spec_method(),
    {
        &self.method
    }

    /// The target locator, by reference.
    pub fn url(&self) -> (r: &Url)
        ensures
            *r == self.spec_url(),
    {
        &self.url
    }

    /// The headers, by reference.
    pub fn headers(&self) -> (r: &Headers)
        ensures
            *r == self.spec_headers(),
    {
        &self.headers
    }

    /// Exclusive access to the headers, for the length of the borrow. What
    /// is written through it becomes the request's headers; nothing else of
    /// the request changes.
    pub fn headers_mut(&mut self) -> (r: &mut Headers)
        ensures
            *r == old(self).spec_headers(),
            final(self).spec_headers() == *final(r),
            final(self).spec_method() == old(self).spec_method(),
            final(self).spec_url() == old(self).spec_url(),
            final(self).spec_body() == old(self).spec_body(),
    {
        &mut self.headers
    }

    /// The attached body, by reference, or `None` when there is none.
    pub fn body(&self) -> (r: Option<&Body<'a>>)
        ensures
            r matches Some(b) ==> self.spec_body() == Some(*b),
            r is None <==> self.spec_body() is None,
    {
        self.body.as_ref()
    }

    /// This request with `body` attached, replacing any earlier body.
    pub fn with_body(self, body: Body<'a>) -> (r: Request<'a>)
        ensures
            self.body_replaced(r, body),
    {
        let mut this = self;
        this.body = Some(body);
        this
    }

    /// Consumes the request and hands over its body, or `None` when it has
    /// none.
    pub fn into_body(self) -> (r: Option<Body<'a>>)
        ensures
            r == self.spec_body(),
    {
        self.body
    }
}

/// A request that was never given a body hands over none.
pub proof fn lemma_fresh_request_has_no_body<'a>(r: Request<'a>, method: Method, url: Url)
    requires
        r.is_fresh(method, url),
    ensures
        r.spec_body() is None,
{
}

/// Attaching `first` and then `second` leaves only `second`: the request
/// ends with the method, locator and headers it started with, and a body
/// that is `second`, bytes and all.
pub proof fn lemma_second_body_replaces_first<'a>(
    r: Request<'a>,
    with_first: Request<'a>,
    with_second: Request<'a>,
    first: Body<'a>,
    second: Body<'a>,
)
    requires
        r.body_replaced(with_first, first),
        with_first.body_replaced(with_second, second),
    ensures
        r.body_replaced(with_second, second),
        with_second.spec_body() matches Some(b) && b@ == second@,
{
}

} // verus!
