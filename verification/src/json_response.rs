//! The structured-document response wrapper: a payload serialized to JSON by
//! the collaborating serializer, plus an ordered list of cookie strings.

use crate::transport::cookie_headers;
use crate::transport::headers_view;
use crate::transport::push_cookie_headers;
use crate::transport::Header;
use crate::transport::HeaderName;
use crate::transport::RespView;
use crate::transport::TransportResponse;
use crate::transport::WrapperView;
use vstd::prelude::*;
use vstd::string::StringExecFns;

verus! {

/// A response carrying a JSON-serialized payload. Its documentation schema is
/// its payload's own: the wrapper is a transparent pass-through.
pub struct JsonResponse {
    data: Vec<u8>,
    cookies: Vec<String>,
}

impl View for JsonResponse {
    type V = WrapperView;

    closed spec fn view(&self) -> WrapperView {
        WrapperView { body: self.data@, cookies: self.cookies.deep_view() }
    }
}

/// What rendering a structured-document wrapper produces: status 200, a
/// `Content-Type: application/json` header, then one `Set-Cookie` header per
/// storable cookie in order, and the serialized payload as the body.
pub open spec fn json_render(w: WrapperView) -> RespView {
    RespView {
        status: 200,
        headers: seq![(HeaderName::ContentType, "application/json"@)] + cookie_headers(w.cookies),
        body: w.body,
    }
}

impl JsonResponse {
    /// Wraps a serialized payload with no cookies.
    pub fn new(data: Vec<u8>) -> (r: Self)
        ensures
            r@.body == data@,
            r@.cookies == Seq::<Seq<char>>::empty(),
    {
        let r = JsonResponse { data, cookies: Vec::new() };
        proof {
            assert(r@.cookies =~= Seq::<Seq<char>>::empty());
        }
        r
    }

    /// Appends one cookie string; order is preserved and duplicates are
    /// allowed. The string is not validated here: one that cannot stand in a
    /// header is dropped at render time.
    #[must_use]
    pub fn with_cookie(self, cookie: String) -> (r: Self)
        ensures
            r@.body == self@.body,
            r@.cookies == self@.cookies.push(cookie@),
    {
        let ghost w = self@;
        let ghost c = cookie@;
        let JsonResponse { data, mut cookies } = self;
        cookies.push(cookie);
        let r = JsonResponse { data, cookies };
        proof {
            assert(r@.cookies =~= w.cookies.push(c));
        }
        r
    }

    /// Renders the wrapper into a transport response.
    pub fn into_response(self) -> (r: TransportResponse)
        ensures
            r@ == json_render(self@),
    {
        let ghost w = self@;
        let JsonResponse { data, cookies } = self;
        let mut headers: Vec<Header> = Vec::new();
        headers.push(
            Header { name: HeaderName::ContentType, value: String::from_str("application/json") },
        );
        proof {
            assert(headers_view(headers@) =~= seq![
                (HeaderName::ContentType, "application/json"@),
            ]);
        }
        push_cookie_headers(&mut headers, cookies);
        let r = TransportResponse { status: 200, headers, body: data };
        proof {
            assert(r@.headers =~= json_render(w).headers);
            assert(r@ =~= json_render(w));
        }
        r
    }
}

} // verus!
