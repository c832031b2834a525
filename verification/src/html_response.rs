//! The markup/text response wrapper: a payload already rendered to raw body
//! bytes, plus an ordered list of cookie strings.

use crate::transport::cookie_headers;
use crate::transport::headers_view;
use crate::transport::push_cookie_headers;
use crate::transport::Header;
use crate::transport::HeaderName;
use crate::transport::RespView;
use crate::transport::TransportResponse;
use crate::transport::WrapperView;
use vstd::prelude::*;

verus! {

/// A response carrying raw body bytes. Its documentation schema is its
/// payload's own: the wrapper is a transparent pass-through.
pub struct HtmlResponse {
    data: Vec<u8>,
    cookies: Vec<String>,
}

impl View for HtmlResponse {
    type V = WrapperView;

    closed spec fn view(&self) -> WrapperView {
        WrapperView { body: self.data@, cookies: self.cookies.deep_view() }
    }
}

/// What rendering a markup/text wrapper produces: status 200, one `Set-Cookie`
/// header per storable cookie in order, and the payload bytes as the body.
pub open spec fn html_render(w: WrapperView) -> RespView {
    RespView { status: 200, headers: cookie_headers(w.cookies), body: w.body }
}

impl HtmlResponse {
    /// Wraps a payload with no cookies.
    pub fn new(data: Vec<u8>) -> (r: Self)
        ensures
            r@.body == data@,
            r@.cookies == Seq::<Seq<char>>::empty(),
    {
        let r = HtmlResponse { data, cookies: Vec::new() };
        proof {
            assert(r@.cookies =~= Seq::<Seq<char>>::empty());
        }
        r
    }

    /// Appends one cookie string; order is preserved and duplicates are
    /// allowed. The string is not validated here: one that cannot stand in a
    /// header is dropped at render time.
    #[must_use]
    pub fn with_cookie(self, cookie: String) -> (r: Self)
        ensures
            r@.body == self@.body,
            r@.cookies == self@.cookies.push(cookie@),
    {
        let ghost w = self@;
        let ghost c = cookie@;
        let HtmlResponse { data, mut cookies } = self;
        cookies.push(cookie);
        let r = HtmlResponse { data, cookies };
        proof {
            assert(r@.cookies =~= w.cookies.push(c));
        }
        r
    }

    /// Renders the wrapper into a transport response.
    pub fn into_response(self) -> (r: TransportResponse)
        ensures
            r@ == html_render(self@),
    {
        let ghost w = self@;
        let HtmlResponse { data, cookies } = self;
        let mut headers: Vec<Header> = Vec::new();
        proof {
            assert(headers_view(headers@) =~= Seq::<(HeaderName, Seq<char>)>::empty());
        }
        push_cookie_headers(&mut headers, cookies);
        let r = TransportResponse { status: 200, headers, body: data };
        proof {
            assert(r@.headers =~= cookie_headers(w.cookies));
            assert(r@ =~= html_render(w));
        }
        r
    }
}

} // verus!
