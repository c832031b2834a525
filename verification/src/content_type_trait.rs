//! The content-type registry: a closed set of symbolic tags, each mapping to a
//! MIME type and to its header-ready form `<mime>; charset=utf-8`.

use crate::charset_suffix;
use crate::text::str_eq;
use vstd::prelude::*;

verus! {

/// A type in the registry names one MIME type and its header-ready form.
/// Every implementation is bound to return the header-ready form as the MIME
/// type followed by the charset suffix.
pub trait ContentTypeTrait {
    /// The MIME type this tag stands for.
    spec fn mime_spec() -> Seq<char>;

    /// The MIME type, e.g. for keying a documentation entry.
    fn content_type() -> (r: &'static str)
        ensures
            r@ == Self::mime_spec(),
    ;

    /// The header-ready value: the MIME type with the charset suffix.
    fn content_type_header() -> (r: &'static str)
        ensures
            r@ == Self::mime_spec() + charset_suffix(),
    ;
}

/// Marker for `text/html`.
pub struct ContentTypeHtml {}

/// Marker for `text/css`.
pub struct ContentTypeCss {}

/// Marker for `text/javascript`.
pub struct ContentTypeJs {}

impl ContentTypeTrait for ContentTypeHtml {
    open spec fn mime_spec() -> Seq<char> {
        "text/html"@
    }

    fn content_type() -> (r: &'static str) {
        "text/html"
    }

    fn content_type_header() -> (r: &'static str) {
        proof {
            reveal_strlit("text/html");
            reveal_strlit("; charset=utf-8");
            reveal_strlit("text/html; charset=utf-8");
            assert("text/html; charset=utf-8"@ =~= "text/html"@ + charset_suffix());
        }
        "text/html; charset=utf-8"
    }
}

impl ContentTypeTrait for ContentTypeCss {
    open spec fn mime_spec() -> Seq<char> {
        "text/css"@
    }

    fn content_type() -> (r: &'static str) {
        "text/css"
    }

    fn content_type_header() -> (r: &'static str) {
        proof {
            reveal_strlit("text/css");
            reveal_strlit("; charset=utf-8");
            reveal_strlit("text/css; charset=utf-8");
            assert("text/css; charset=utf-8"@ =~= "text/css"@ + charset_suffix());
        }
        "text/css; charset=utf-8"
    }
}

impl ContentTypeTrait for ContentTypeJs {
    open spec fn mime_spec() -> Seq<char> {
        "text/javascript"@
    }

    fn content_type() -> (r: &'static str) {
        "text/javascript"
    }

    fn content_type_header() -> (r: &'static str) {
        proof {
            reveal_strlit("text/javascript");
            reveal_strlit("; charset=utf-8");
            reveal_strlit("text/javascript; charset=utf-8");
            assert("text/javascript; charset=utf-8"@ =~= "text/javascript"@ + charset_suffix());
        }
        "text/javascript; charset=utf-8"
    }
}

/// A symbolic content-type tag, the value form of the registry used by
/// response contracts.
#[derive(Clone, Copy, PartialEq, Eq, Debug, Structural)]
pub enum ContentTypeTag {
    Html,
    Css,
    Js,
    Json,
}

/// The MIME type of a tag.
pub open spec fn mime_of(t: ContentTypeTag) -> Seq<char> {
    match t {
        ContentTypeTag::Html => "text/html"@,
        ContentTypeTag::Css => "text/css"@,
        ContentTypeTag::Js => "text/javascript"@,
        ContentTypeTag::Json => "application/json"@,
    }
}

/// The header-ready value of a tag: its MIME type with the charset suffix.
pub open spec fn header_value_of(t: ContentTypeTag) -> Seq<char> {
    mime_of(t) + charset_suffix()
}

/// For every tag of the registry, the header-ready value is the MIME type
/// followed by `; charset=utf-8`.
pub proof fn lemma_header_value_charset(t: ContentTypeTag)
    ensures
        header_value_of(t) == mime_of(t) + charset_suffix(),
{
}

impl ContentTypeTag {
    /// The MIME type this tag stands for.
    pub fn mime(&self) -> (r: &'static str)
        ensures
            r@ == mime_of(*self),
    {
        match self {
            ContentTypeTag::Html => "text/html",
            ContentTypeTag::Css => "text/css",
            ContentTypeTag::Js => "text/javascript",
            ContentTypeTag::Json => "application/json",
        }
    }

    /// The header-ready value: the MIME type with the charset suffix.
    pub fn header_value(&self) -> (r: &'static str)
        ensures
            r@ == header_value_of(*self),
    {
        proof {
            reveal_strlit("; charset=utf-8");
        }
        match self {
            ContentTypeTag::Html => {
                proof {
                    reveal_strlit("text/html");
                    reveal_strlit("text/html; charset=utf-8");
                    assert("text/html; charset=utf-8"@ =~= "text/html"@ + charset_suffix());
                }
                "text/html; charset=utf-8"
            },
            ContentTypeTag::Css => {
                proof {
                    reveal_strlit("text/css");
                    reveal_strlit("text/css; charset=utf-8");
                    assert("text/css; charset=utf-8"@ =~= "text/css"@ + charset_suffix());
                }
                "text/css; charset=utf-8"
            },
            ContentTypeTag::Js => {
                proof {
                    reveal_strlit("text/javascript");
                    reveal_strlit("text/javascript; charset=utf-8");
                    assert("text/javascript; charset=utf-8"@ =~= "text/javascript"@
                        + charset_suffix());
                }
                "text/javascript; charset=utf-8"
            },
            ContentTypeTag::Json => {
                proof {
                    reveal_strlit("application/json");
                    reveal_strlit("application/json; charset=utf-8");
                    assert("application/json; charset=utf-8"@ =~= "application/json"@
                        + charset_suffix());
                }
                "application/json; charset=utf-8"
            },
        }
    }
}

/// The closed vocabulary of MIME names a response contract may declare.
pub open spec fn spec_content_tag_from_mime(s: Seq<char>) -> Option<ContentTypeTag> {
    if s == "text/html"@ {
        Some(ContentTypeTag::Html)
    } else if s == "text/css"@ {
        Some(ContentTypeTag::Css)
    } else if s == "application/json"@ {
        Some(ContentTypeTag::Json)
    } else {
        None
    }
}

/// Looks a declared MIME name up in the closed vocabulary; any other name is
/// unsupported and must fail synthesis.
pub fn content_tag_from_mime(s: &str) -> (r: Option<ContentTypeTag>)
    ensures
        r == spec_content_tag_from_mime(s@),
{
    if str_eq(s, "text/html") {
        Some(ContentTypeTag::Html)
    } else if str_eq(s, "text/css") {
        Some(ContentTypeTag::Css)
    } else if str_eq(s, "application/json") {
        Some(ContentTypeTag::Json)
    } else {
        None
    }
}

} // verus!
