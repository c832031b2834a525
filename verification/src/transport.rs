//! The transport-response model: a status code, an ordered list of headers and
//! a body. Rendering and contract application work on this model; handing it
//! to an actual HTTP server is the transport's own concern.

use vstd::prelude::*;

verus! {

/// The header names this library ever writes.
#[derive(Clone, Copy, PartialEq, Eq, Debug, Structural)]
pub enum HeaderName {
    ContentType,
    SetCookie,
}

/// One header entry.
#[derive(Clone, Debug, PartialEq, Eq)]
pub struct Header {
    pub name: HeaderName,
    pub value: String,
}

/// The mathematical model of a header list: name and character content of
/// each entry, in order.
pub open spec fn headers_view(hs: Seq<Header>) -> Seq<(HeaderName, Seq<char>)> {
    hs.map_values(|h: Header| (h.name, h.value@))
}

/// The mathematical model of a response wrapper: the rendered payload body
/// and the stored cookies, in insertion order.
#[verifier::ext_equal]
pub ghost struct WrapperView {
    pub body: Seq<u8>,
    pub cookies: Seq<Seq<char>>,
}

/// The mathematical model of a transport response.
#[verifier::ext_equal]
pub ghost struct RespView {
    pub status: u16,
    pub headers: Seq<(HeaderName, Seq<char>)>,
    pub body: Seq<u8>,
}

/// A transport response under construction: status, ordered headers, body.
#[derive(Clone, Debug, PartialEq, Eq)]
pub struct TransportResponse {
    pub status: u16,
    pub headers: Vec<Header>,
    pub body: Vec<u8>,
}

impl View for TransportResponse {
    type V = RespView;

    open spec fn view(&self) -> RespView {
        RespView { status: self.status, headers: headers_view(self.headers@), body: self.body@ }
    }
}

/// Whether a character may stand in an HTTP header value: horizontal tab, or
/// anything outside the ASCII control range. For characters above U+007F every
/// byte of the UTF-8 encoding is at least 0x80, so this character rule agrees
/// with the transport's byte rule.
pub open spec fn is_header_value_char(c: char) -> bool {
    c as u32 == 9 || (c as u32 >= 32 && c as u32 != 127)
}

/// Whether a string may stand as an HTTP header value.
pub open spec fn valid_header_value(s: Seq<char>) -> bool {
    forall|i: int| 0 <= i < s.len() ==> is_header_value_char(#[trigger] s[i])
}

/// Relies on `axum::http::HeaderValue::from_str` (the `http` crate), which
/// accepts a string exactly when every byte is either 9 (tab) or at least 32
/// and not 127.
#[verifier::external_body]
pub fn header_value_ok(s: &str) -> (r: bool)
    ensures
        r == valid_header_value(s@),
{
    axum::http::HeaderValue::from_str(s).is_ok()
}

/// The `Set-Cookie` headers that a cookie list renders to: one entry per
/// cookie, in stored order; a cookie that cannot stand in a header value is
/// dropped.
pub open spec fn cookie_headers(cookies: Seq<Seq<char>>) -> Seq<(HeaderName, Seq<char>)>
    decreases cookies.len(),
{
    if cookies.len() == 0 {
        Seq::empty()
    } else {
        cookie_headers(cookies.drop_last()) + (if valid_header_value(cookies.last()) {
            seq![(HeaderName::SetCookie, cookies.last())]
        } else {
            Seq::empty()
        })
    }
}

/// A cookie list whose entries can all stand in a header renders to exactly
/// one `Set-Cookie` header per cookie, in stored order, values unchanged.
pub proof fn lemma_valid_cookies_render_in_order(cookies: Seq<Seq<char>>)
    requires
        forall|i: int| 0 <= i < cookies.len() ==> valid_header_value(#[trigger] cookies[i]),
    ensures
        cookie_headers(cookies).len() == cookies.len(),
        forall|i: int|
            0 <= i < cookies.len() ==> cookie_headers(cookies)[i] == (
                HeaderName::SetCookie,
                cookies[i],
            ),
    decreases cookies.len(),
{
    if cookies.len() > 0 {
        lemma_valid_cookies_render_in_order(cookies.drop_last());
        assert(valid_header_value(cookies.last()));
    }
}

/// Appends one `Set-Cookie` header per cookie, in stored order, dropping any
/// cookie that cannot stand in a header value.
pub fn push_cookie_headers(headers: &mut Vec<Header>, cookies: Vec<String>)
    ensures
        headers_view(final(headers)@) == headers_view(old(headers)@) + cookie_headers(
            cookies.deep_view(),
        ),
{
    let ghost orig = headers_view(headers@);
    let ghost all = cookies.deep_view();
    let mut i: usize = 0;
    while i < cookies.len()
        invariant
            i <= cookies.len(),
            all == cookies.deep_view(),
            all.len() == cookies.len(),
            forall|j: int| 0 <= j < cookies.len() ==> all[j] == cookies@[j]@,
            headers_view(headers@) == orig + cookie_headers(all.take(i as int)),
        decreases cookies.len() - i,
    {
        let ghost before = headers_view(headers@);
        let valid = header_value_ok(cookies[i].as_str());
        if valid {
            let value = cookies[i].clone();
            headers.push(Header { name: HeaderName::SetCookie, value });
            proof {
                assert(headers_view(headers@) =~= before + seq![
                    (HeaderName::SetCookie, all[i as int]),
                ]);
            }
        }
        proof {
            assert(all.take(i + 1).drop_last() =~= all.take(i as int));
            assert(all.take(i + 1).last() == all[i as int]);
            assert(headers_view(headers@) =~= orig + cookie_headers(all.take(i + 1)));
        }
        i = i + 1;
    }
    proof {
        assert(all.take(cookies.len() as int) =~= all);
    }
}

} // verus!
