//! The response-contract synthesizer. From one declaration — the shape of a
//! declared wrapper type plus its annotation block — it derives a contract
//! that drives both runtime rendering and documentation, so the two can never
//! drift apart. Malformed declarations fail synthesis with a precise error;
//! nothing is deferred to request time.

use crate::content_type_trait::content_tag_from_mime;
use crate::content_type_trait::header_value_of;
use crate::content_type_trait::mime_of;
use crate::content_type_trait::spec_content_tag_from_mime;
use crate::content_type_trait::ContentTypeTag;
use crate::schema::Schema;
use crate::schema::SchemaView;
use crate::status_code_trait::status_hi;
use crate::status_code_trait::status_lo;
use crate::status_code_trait::StatusTag;
use crate::text::dec_str;
use crate::text::parse_u16;
use crate::text::spec_parse_u16;
use crate::text::str_eq;
use crate::text::u16_to_dec_string;
use crate::transport::Header;
use crate::transport::HeaderName;
use crate::transport::RespView;
use crate::transport::TransportResponse;
use crate::charset_suffix;
use crate::html_response::html_render;
use crate::html_response::HtmlResponse;
use crate::json_response::json_render;
use crate::json_response::JsonResponse;
use crate::transport::headers_view;
use crate::transport::WrapperView;
use vstd::prelude::*;
use vstd::string::StringExecFns;

verus! {

/// How a declared response type is shaped. Only a tuple struct with exactly
/// one field — the inner wrapper — is a legal declaration.
#[derive(Clone, Copy, PartialEq, Eq, Debug, Structural)]
pub enum DeclShape {
    /// A tuple struct with the given number of unnamed fields.
    Unnamed(usize),
    /// A record struct with the given number of named fields.
    Named(usize),
    /// A struct with no fields at all.
    Unit,
    /// Not a struct.
    NotStruct,
}

/// One `key = "value"` entry of a declaration's annotation block.
pub struct Annotation {
    pub key: String,
    pub value: String,
}

/// The mathematical model of an annotation entry.
#[verifier::ext_equal]
pub ghost struct AnnotationView {
    pub key: Seq<char>,
    pub value: Seq<char>,
}

impl View for Annotation {
    type V = AnnotationView;

    open spec fn view(&self) -> AnnotationView {
        AnnotationView { key: self.key@, value: self.value@ }
    }
}

/// The model of a whole annotation block.
pub open spec fn annotations_view(attrs: Seq<Annotation>) -> Seq<AnnotationView> {
    attrs.map_values(|a: Annotation| a@)
}

/// Why a declaration was refused. Synthesis aborts on the first offence, in
/// declaration order: an unknown annotation key, then an illegal type shape,
/// then an unsupported content type, then a malformed or illegal status.
#[derive(Clone, Debug, PartialEq, Eq)]
pub enum SynthesisError {
    /// An annotation key outside the vocabulary, carrying the key.
    UnknownKey(String),
    /// The declared type is not a tuple struct with exactly one field.
    BadShape(DeclShape),
    /// A content value outside the closed registry, carrying the value.
    UnknownContentType(String),
    /// A status value that is neither a known name nor a numeral.
    UnparseableStatus(String),
    /// A numeric status outside the legal range, carrying the number.
    StatusOutOfRange(u16),
}

/// The mathematical model of a synthesis error.
#[verifier::ext_equal]
pub ghost enum SynthesisErrorView {
    UnknownKey(Seq<char>),
    BadShape(DeclShape),
    UnknownContentType(Seq<char>),
    UnparseableStatus(Seq<char>),
    StatusOutOfRange(u16),
}

impl View for SynthesisError {
    type V = SynthesisErrorView;

    open spec fn view(&self) -> SynthesisErrorView {
        match self {
            SynthesisError::UnknownKey(k) => SynthesisErrorView::UnknownKey(k@),
            SynthesisError::BadShape(s) => SynthesisErrorView::BadShape(*s),
            SynthesisError::UnknownContentType(v) => SynthesisErrorView::UnknownContentType(v@),
            SynthesisError::UnparseableStatus(v) => SynthesisErrorView::UnparseableStatus(v@),
            SynthesisError::StatusOutOfRange(n) => SynthesisErrorView::StatusOutOfRange(*n),
        }
    }
}

/// The diagnostic text for each kind of offence.
pub open spec fn message_spec(e: SynthesisErrorView) -> Seq<char> {
    match e {
        SynthesisErrorView::UnknownKey(_) => "not a valid annotation key"@,
        SynthesisErrorView::BadShape(_) => "declaration must be a tuple struct with exactly one field"@,
        SynthesisErrorView::UnknownContentType(_) => "not a valid content type"@,
        SynthesisErrorView::UnparseableStatus(_) => "status is neither a known name nor a numeral"@,
        SynthesisErrorView::StatusOutOfRange(_) => "status code must lie between 100 and 599"@,
    }
}

impl SynthesisError {
    /// A short diagnostic naming the kind of offence.
    pub fn message(&self) -> (r: &'static str)
        ensures
            r@ == message_spec(self@),
    {
        match self {
            SynthesisError::UnknownKey(_) => "not a valid annotation key",
            SynthesisError::BadShape(_) => "declaration must be a tuple struct with exactly one field",
            SynthesisError::UnknownContentType(_) => "not a valid content type",
            SynthesisError::UnparseableStatus(_) => "status is neither a known name nor a numeral",
            SynthesisError::StatusOutOfRange(_) => "status code must lie between 100 and 599",
        }
    }
}

/// The annotation values gathered from a block, later entries overriding
/// earlier ones, as in an attribute walk.
#[verifier::ext_equal]
pub ghost struct CollectedAnnotations {
    pub description: Option<Seq<char>>,
    pub content: Option<Seq<char>>,
    pub status: Option<Seq<char>>,
    pub error: Option<Seq<char>>,
}

/// The annotation vocabulary.
pub open spec fn is_known_key(k: Seq<char>) -> bool {
    k == "description"@ || k == "content"@ || k == "status"@ || k == "error"@
}

/// Walks an annotation block from the front: each known key stores its value,
/// a later entry overriding an earlier one; the first unknown key aborts the
/// walk and is reported.
pub open spec fn collect(attrs: Seq<AnnotationView>) -> Result<CollectedAnnotations, Seq<char>>
    decreases attrs.len(),
{
    if attrs.len() == 0 {
        Ok(
            CollectedAnnotations {
                description: None,
                content: None,
                status: None,
                error: None,
            },
        )
    } else {
        match collect(attrs.drop_last()) {
            Err(k) => Err(k),
            Ok(c) => {
                let a = attrs.last();
                if a.key == "description"@ {
                    Ok(CollectedAnnotations { description: Some(a.value), ..c })
                } else if a.key == "content"@ {
                    Ok(CollectedAnnotations { content: Some(a.value), ..c })
                } else if a.key == "status"@ {
                    Ok(CollectedAnnotations { status: Some(a.value), ..c })
                } else if a.key == "error"@ {
                    Ok(CollectedAnnotations { error: Some(a.value), ..c })
                } else {
                    Err(a.key)
                }
            },
        }
    }
}

/// Resolves a declared content value against the closed registry.
pub open spec fn resolve_content(o: Option<Seq<char>>) -> Result<
    Option<ContentTypeTag>,
    SynthesisErrorView,
> {
    match o {
        None => Ok(None),
        Some(s) => match spec_content_tag_from_mime(s) {
            Some(t) => Ok(Some(t)),
            None => Err(SynthesisErrorView::UnknownContentType(s)),
        },
    }
}

/// Resolves a declared status value: one of the known names, or a numeral
/// whose value must lie in the legal status range.
pub open spec fn resolve_status(o: Option<Seq<char>>) -> Result<
    Option<StatusTag>,
    SynthesisErrorView,
> {
    match o {
        None => Ok(None),
        Some(s) => if s == "OK"@ {
            Ok(Some(StatusTag::OK))
        } else if s == "CREATED"@ {
            Ok(Some(StatusTag::Created))
        } else if s == "NO_CONTENT"@ {
            Ok(Some(StatusTag::NoContent))
        } else {
            match spec_parse_u16(s) {
                None => Err(SynthesisErrorView::UnparseableStatus(s)),
                Some(n) => if status_lo() <= n && n <= status_hi() {
                    Ok(Some(StatusTag::Numeric(n)))
                } else {
                    Err(SynthesisErrorView::StatusOutOfRange(n))
                },
            }
        },
    }
}

/// The mathematical model of a synthesized response contract.
#[verifier::ext_equal]
pub ghost struct ContractView {
    pub status: Option<StatusTag>,
    pub content: Option<ContentTypeTag>,
    pub description: Option<Seq<char>>,
    pub error: Option<Seq<char>>,
}

impl ContractView {
    /// Every status tag a contract holds is well-formed.
    pub open spec fn wf(self) -> bool {
        match self.status {
            Some(t) => t.wf(),
            None => true,
        }
    }
}

/// A synthesized response contract: the declared status, content-type and
/// description that drive rendering and documentation in lock-step.
#[derive(Debug)]
pub struct ResponseContract {
    status: Option<StatusTag>,
    content: Option<ContentTypeTag>,
    description: Option<String>,
    error: Option<String>,
}

impl View for ResponseContract {
    type V = ContractView;

    closed spec fn view(&self) -> ContractView {
        ContractView {
            status: self.status,
            content: self.content,
            description: match self.description {
                None => None,
                Some(d) => Some(d@),
            },
            error: match self.error {
                None => None,
                Some(e) => Some(e@),
            },
        }
    }
}

/// What one declaration synthesizes to: the contract, or the first offence.
pub open spec fn synthesize_spec(shape: DeclShape, attrs: Seq<AnnotationView>) -> Result<
    ContractView,
    SynthesisErrorView,
> {
    match collect(attrs) {
        Err(k) => Err(SynthesisErrorView::UnknownKey(k)),
        Ok(c) => if shape != DeclShape::Unnamed(1) {
            Err(SynthesisErrorView::BadShape(shape))
        } else {
            match resolve_content(c.content) {
                Err(e) => Err(e),
                Ok(content) => match resolve_status(c.status) {
                    Err(e) => Err(e),
                    Ok(status) => Ok(
                        ContractView {
                            status,
                            content,
                            description: c.description,
                            error: c.error,
                        },
                    ),
                },
            }
        },
    }
}

/// An error while walking a block propagates to the whole block.
proof fn lemma_collect_err_propagates(attrs: Seq<AnnotationView>, i: int, j: int)
    requires
        0 <= i < j <= attrs.len(),
        collect(attrs.take(i)) is Ok,
        !is_known_key(attrs[i].key),
    ensures
        collect(attrs.take(j)) == Err::<CollectedAnnotations, Seq<char>>(attrs[i].key),
    decreases j - i,
{
    if j == i + 1 {
        assert(attrs.take(j).drop_last() =~= attrs.take(i));
        assert(attrs.take(j).last() == attrs[i]);
    } else {
        lemma_collect_err_propagates(attrs, i, j - 1);
        assert(attrs.take(j).drop_last() =~= attrs.take(j - 1));
    }
}

/// The collected annotation strings in executable form.
struct CollectedStrings {
    description: Option<String>,
    content: Option<String>,
    status: Option<String>,
    error: Option<String>,
}

/// The model of an optional string.
pub open spec fn opt_view(o: Option<String>) -> Option<Seq<char>> {
    match o {
        None => None,
        Some(s) => Some(s@),
    }
}

/// Walks the annotation block, storing each known key's value and refusing
/// the first unknown key.
fn collect_annotations(attrs: &Vec<Annotation>) -> (r: Result<CollectedStrings, SynthesisError>)
    ensures
        match (r, collect(annotations_view(attrs@))) {
            (Ok(c), Ok(cv)) => opt_view(c.description) == cv.description && opt_view(c.content)
                == cv.content && opt_view(c.status) == cv.status && opt_view(c.error) == cv.error,
            (Err(e), Err(k)) => e@ == SynthesisErrorView::UnknownKey(k),
            _ => false,
        },
{
    let ghost views = annotations_view(attrs@);
    let mut description: Option<String> = None;
    let mut content: Option<String> = None;
    let mut status: Option<String> = None;
    let mut error: Option<String> = None;
    let mut i: usize = 0;
    while i < attrs.len()
        invariant
            i <= attrs.len(),
            views == annotations_view(attrs@),
            views.len() == attrs.len(),
            forall|k: int| 0 <= k < attrs.len() ==> views[k] == attrs@[k]@,
            collect(views.take(i as int)) matches Ok(c) && opt_view(description) == c.description
                && opt_view(content) == c.content && opt_view(status) == c.status && opt_view(
                error,
            ) == c.error,
        decreases attrs.len() - i,
    {
        let a = &attrs[i];
        let ghost prefix = views.take(i as int);
        proof {
            assert(views.take(i + 1).drop_last() =~= prefix);
            assert(views.take(i + 1).last() == views[i as int]);
        }
        if str_eq(a.key.as_str(), "description") {
            description = Some(a.value.clone());
        } else if str_eq(a.key.as_str(), "content") {
            content = Some(a.value.clone());
        } else if str_eq(a.key.as_str(), "status") {
            status = Some(a.value.clone());
        } else if str_eq(a.key.as_str(), "error") {
            error = Some(a.value.clone());
        } else {
            proof {
                assert(!is_known_key(views[i as int].key));
                lemma_collect_err_propagates(views, i as int, views.len() as int);
                assert(views.take(views.len() as int) =~= views);
            }
            return Err(SynthesisError::UnknownKey(a.key.clone()));
        }
        i = i + 1;
    }
    proof {
        assert(views.take(attrs.len() as int) =~= views);
    }
    Ok(CollectedStrings { description, content, status, error })
}

impl ResponseContract {
    /// Every status tag the contract holds is legal.
    pub open spec fn wf(&self) -> bool {
        self@.wf()
    }

    /// The explicit registration step: builds a contract directly from the
    /// chosen status, content-type and description.
    pub fn new(
        status: Option<StatusTag>,
        content: Option<ContentTypeTag>,
        description: Option<String>,
    ) -> (r: Self)
        requires
            match status {
                Some(t) => t.wf(),
                None => true,
            },
        ensures
            r@.status == status,
            r@.content == content,
            r@.description == opt_view(description),
            r@.error == Option::<Seq<char>>::None,
            r.wf(),
    {
        ResponseContract { status, content, description, error: None }
    }

    /// Synthesizes a contract from a declaration: its type shape and its
    /// annotation block. Exactly the legal declarations are accepted, and the
    /// first offence is reported; an accepted contract is well-formed.
    pub fn synthesize(shape: DeclShape, attrs: &Vec<Annotation>) -> (r: Result<
        ResponseContract,
        SynthesisError,
    >)
        ensures
            match (r, synthesize_spec(shape, annotations_view(attrs@))) {
                (Ok(c), Ok(cv)) => c@ == cv && c.wf(),
                (Err(e), Err(ev)) => e@ == ev,
                _ => false,
            },
    {
        let collected = match collect_annotations(attrs) {
            Ok(c) => c,
            Err(e) => {
                return Err(e);
            },
        };
        if !(shape == DeclShape::Unnamed(1)) {
            return Err(SynthesisError::BadShape(shape));
        }
        let content: Option<ContentTypeTag> = match collected.content {
            None => None,
            Some(s) => match content_tag_from_mime(s.as_str()) {
                Some(t) => Some(t),
                None => {
                    return Err(SynthesisError::UnknownContentType(s));
                },
            },
        };
        let status: Option<StatusTag> = match collected.status {
            None => None,
            Some(s) => {
                if str_eq(s.as_str(), "OK") {
                    Some(StatusTag::OK)
                } else if str_eq(s.as_str(), "CREATED") {
                    Some(StatusTag::Created)
                } else if str_eq(s.as_str(), "NO_CONTENT") {
                    Some(StatusTag::NoContent)
                } else {
                    match parse_u16(s.as_str()) {
                        None => {
                            return Err(SynthesisError::UnparseableStatus(s));
                        },
                        Some(n) => match StatusTag::numeric(n) {
                            Some(t) => Some(t),
                            None => {
                                return Err(SynthesisError::StatusOutOfRange(n));
                            },
                        },
                    }
                }
            },
        };
        Ok(
            ResponseContract {
                status,
                content,
                description: collected.description,
                error: collected.error,
            },
        )
    }
}

/// A header list with every `Content-Type` entry removed, other entries kept
/// in order.
pub open spec fn without_content_type(hs: Seq<(HeaderName, Seq<char>)>) -> Seq<
    (HeaderName, Seq<char>),
>
    decreases hs.len(),
{
    if hs.len() == 0 {
        Seq::empty()
    } else {
        without_content_type(hs.drop_last()) + (if hs.last().0 == HeaderName::ContentType {
            Seq::empty()
        } else {
            seq![hs.last()]
        })
    }
}

/// A response with its `Content-Type` overwritten: any previous entry is
/// removed and the new value appended.
pub open spec fn set_content_type(v: RespView, value: Seq<char>) -> RespView {
    RespView {
        headers: without_content_type(v.headers).push((HeaderName::ContentType, value)),
        ..v
    }
}

/// What applying a contract to an already-rendered response produces: a
/// declared content type overwrites the `Content-Type` header, then a
/// declared status overwrites the status; an absent annotation leaves the
/// inner rendering's own choice untouched.
pub open spec fn apply_spec(c: ContractView, v: RespView) -> RespView {
    let with_content = match c.content {
        None => v,
        Some(t) => set_content_type(v, header_value_of(t)),
    };
    match c.status {
        None => with_content,
        Some(t) => RespView { status: t.code_spec(), ..with_content },
    }
}

/// The values of the `Content-Type` entries of a header list, in order.
pub open spec fn content_type_values(hs: Seq<(HeaderName, Seq<char>)>) -> Seq<Seq<char>>
    decreases hs.len(),
{
    if hs.len() == 0 {
        Seq::empty()
    } else {
        content_type_values(hs.drop_last()) + (if hs.last().0 == HeaderName::ContentType {
            seq![hs.last().1]
        } else {
            Seq::empty()
        })
    }
}

proof fn lemma_ctv_push(hs: Seq<(HeaderName, Seq<char>)>, e: (HeaderName, Seq<char>))
    ensures
        e.0 == HeaderName::ContentType ==> content_type_values(hs.push(e)) == content_type_values(
            hs,
        ) + seq![e.1],
        e.0 != HeaderName::ContentType ==> content_type_values(hs.push(e)) == content_type_values(
            hs,
        ),
{
    assert(hs.push(e).drop_last() =~= hs);
    assert(hs.push(e).last() == e);
    if e.0 != HeaderName::ContentType {
        assert(content_type_values(hs.push(e)) =~= content_type_values(hs));
    }
}

/// Removing the `Content-Type` entries leaves none behind.
proof fn lemma_without_content_type_clean(hs: Seq<(HeaderName, Seq<char>)>)
    ensures
        content_type_values(without_content_type(hs)) == Seq::<Seq<char>>::empty(),
    decreases hs.len(),
{
    if hs.len() == 0 {
    } else {
        lemma_without_content_type_clean(hs.drop_last());
        if hs.last().0 == HeaderName::ContentType {
            assert(without_content_type(hs) =~= without_content_type(hs.drop_last()));
        } else {
            assert(without_content_type(hs) =~= without_content_type(hs.drop_last()).push(
                hs.last(),
            ));
            lemma_ctv_push(without_content_type(hs.drop_last()), hs.last());
        }
    }
}

/// Declared attributes take precedence over whatever the wrapped value's own
/// rendering chose; an absent annotation leaves that choice untouched, and
/// the body is never altered.
pub proof fn lemma_declared_attributes_override(c: ContractView, v: RespView)
    ensures
        c.status matches Some(t) ==> apply_spec(c, v).status == t.code_spec(),
        c.status is None ==> apply_spec(c, v).status == v.status,
        c.content matches Some(t) ==> content_type_values(apply_spec(c, v).headers) == seq![
            header_value_of(t),
        ],
        c.content is None ==> apply_spec(c, v).headers == v.headers,
        apply_spec(c, v).body == v.body,
{
    if let Some(t) = c.content {
        lemma_without_content_type_clean(v.headers);
        lemma_ctv_push(without_content_type(v.headers), (HeaderName::ContentType, header_value_of(t)));
        assert(content_type_values(apply_spec(c, v).headers) =~= seq![header_value_of(t)]);
    }
}

/// A documentation fragment: one response entry of the aggregated document,
/// keyed by status code, with its content type, body schema and description.
#[derive(Clone, Debug, PartialEq, Eq)]
pub struct DocFragment {
    pub status_code: String,
    pub content_type: String,
    pub body_schema: Schema,
    pub description: String,
}

/// The mathematical model of a documentation fragment.
#[verifier::ext_equal]
pub ghost struct DocFragmentView {
    pub status_code: Seq<char>,
    pub content_type: Seq<char>,
    pub body_schema: SchemaView,
    pub description: Seq<char>,
}

impl View for DocFragment {
    type V = DocFragmentView;

    open spec fn view(&self) -> DocFragmentView {
        DocFragmentView {
            status_code: self.status_code@,
            content_type: self.content_type@,
            body_schema: self.body_schema@,
            description: self.description@,
        }
    }
}

/// The status code a contract documents: the declared one, else 200.
pub open spec fn resolved_code(c: ContractView) -> u16 {
    match c.status {
        None => 200,
        Some(t) => t.code_spec(),
    }
}

/// The MIME type a contract documents: the declared one, else `text/html`.
pub open spec fn resolved_mime(c: ContractView) -> Seq<char> {
    match c.content {
        None => "text/html"@,
        Some(t) => mime_of(t),
    }
}

/// The description a contract documents: the declared one, else empty.
pub open spec fn resolved_description(c: ContractView) -> Seq<char> {
    match c.description {
        None => Seq::empty(),
        Some(d) => d,
    }
}

/// What documenting a contract produces: a fragment keyed by the numeral of
/// the resolved status code, with the resolved MIME type, the payload's own
/// schema unchanged, and the resolved description.
pub open spec fn document_spec(c: ContractView, s: SchemaView) -> DocFragmentView {
    DocFragmentView {
        status_code: dec_str(resolved_code(c) as int),
        content_type: resolved_mime(c),
        body_schema: s,
        description: resolved_description(c),
    }
}

impl ResponseContract {
    /// Applies the contract to an already-rendered response: a declared
    /// content type overwrites the `Content-Type` header, a declared status
    /// overwrites the status code; anything undeclared is left untouched.
    pub fn apply(&self, resp: TransportResponse) -> (r: TransportResponse)
        ensures
            r@ == apply_spec(self@, resp@),
    {
        let ghost cv = self@;
        let ghost v0 = resp@;
        let TransportResponse { mut status, mut headers, body } = resp;
        if let Some(tag) = &self.content {
            let mut kept: Vec<Header> = Vec::new();
            proof {
                assert(headers_view(headers@).take(0) =~= Seq::<(HeaderName, Seq<char>)>::empty());
                assert(headers_view(kept@) =~= without_content_type(headers_view(headers@).take(0)));
            }
            let mut i: usize = 0;
            while i < headers.len()
                invariant
                    i <= headers.len(),
                    headers_view(headers@) == v0.headers,
                    headers_view(kept@) == without_content_type(v0.headers.take(i as int)),
                decreases headers.len() - i,
            {
                let ghost before = headers_view(kept@);
                proof {
                    assert(v0.headers.take(i + 1).drop_last() =~= v0.headers.take(i as int));
                    assert(v0.headers.take(i + 1).last() == v0.headers[i as int]);
                    assert(v0.headers[i as int] == (headers@[i as int].name, headers@[i as int].value@));
                }
                let keep = match headers[i].name {
                    HeaderName::ContentType => false,
                    _ => true,
                };
                if keep {
                    let value = headers[i].value.clone();
                    kept.push(Header { name: headers[i].name, value });
                    proof {
                        assert(headers_view(kept@) =~= before.push(v0.headers[i as int]));
                        assert(headers_view(kept@) =~= without_content_type(v0.headers.take(i + 1)));
                    }
                } else {
                    proof {
                        assert(headers_view(kept@) =~= without_content_type(v0.headers.take(i + 1)));
                    }
                }
                i = i + 1;
            }
            proof {
                assert(v0.headers.take(headers.len() as int) =~= v0.headers);
            }
            let ghost before = headers_view(kept@);
            kept.push(Header { name: HeaderName::ContentType, value: String::from_str(tag.header_value()) });
            proof {
                assert(headers_view(kept@) =~= before.push(
                    (HeaderName::ContentType, header_value_of(*tag)),
                ));
            }
            headers = kept;
        }
        if let Some(t) = &self.status {
            status = t.code();
        }
        let r = TransportResponse { status, headers, body };
        proof {
            assert(r@ =~= apply_spec(cv, v0));
        }
        r
    }

    /// Builds the contract's documentation fragment around the payload's own
    /// schema.
    pub fn document(&self, body_schema: Schema) -> (r: DocFragment)
        ensures
            r@ == document_spec(self@, body_schema@),
    {
        let code: u16 = match &self.status {
            None => 200,
            Some(t) => t.code(),
        };
        let status_code = u16_to_dec_string(code);
        let content_type = match &self.content {
            None => String::from_str("text/html"),
            Some(t) => String::from_str(t.mime()),
        };
        let description = match &self.description {
            None => String::new(),
            Some(d) => d.clone(),
        };
        let r = DocFragment { status_code, content_type, body_schema, description };
        proof {
            assert(r@ =~= document_spec(self@, r.body_schema@));
        }
        r
    }
}

/// The mathematical model of a declared response value: its contract and the
/// wrapper it lifts.
#[verifier::ext_equal]
pub ghost struct DescribedView {
    pub contract: ContractView,
    pub inner: WrapperView,
}

/// The runtime form of a declared markup/text response: the synthesized
/// contract around the inner wrapper. Lifting, rendering and documenting all
/// derive from the one contract.
pub struct DescribedHtmlResponse {
    contract: ResponseContract,
    inner: HtmlResponse,
}

impl View for DescribedHtmlResponse {
    type V = DescribedView;

    closed spec fn view(&self) -> DescribedView {
        DescribedView { contract: self.contract@, inner: self.inner@ }
    }
}

impl DescribedHtmlResponse {
    /// The lifting conversion: simple wrapping, total and infallible.
    pub fn lift(contract: ResponseContract, inner: HtmlResponse) -> (r: Self)
        ensures
            r@.contract == contract@,
            r@.inner == inner@,
    {
        DescribedHtmlResponse { contract, inner }
    }

    /// Renders the inner wrapper, then lets the declared attributes override
    /// its choices.
    pub fn into_response(self) -> (r: TransportResponse)
        ensures
            r@ == apply_spec(self@.contract, html_render(self@.inner)),
    {
        let DescribedHtmlResponse { contract, inner } = self;
        let resp = inner.into_response();
        contract.apply(resp)
    }

    /// Contributes the declared response's documentation fragment, built
    /// around the payload's own schema.
    pub fn document(&self, body_schema: Schema) -> (r: DocFragment)
        ensures
            r@ == document_spec(self@.contract, body_schema@),
    {
        self.contract.document(body_schema)
    }
}

/// The runtime form of a declared structured-document response: the
/// synthesized contract around the inner wrapper.
pub struct DescribedJsonResponse {
    contract: ResponseContract,
    inner: JsonResponse,
}

impl View for DescribedJsonResponse {
    type V = DescribedView;

    closed spec fn view(&self) -> DescribedView {
        DescribedView { contract: self.contract@, inner: self.inner@ }
    }
}

impl DescribedJsonResponse {
    /// The lifting conversion: simple wrapping, total and infallible.
    pub fn lift(contract: ResponseContract, inner: JsonResponse) -> (r: Self)
        ensures
            r@.contract == contract@,
            r@.inner == inner@,
    {
        DescribedJsonResponse { contract, inner }
    }

    /// Renders the inner wrapper, then lets the declared attributes override
    /// its choices.
    pub fn into_response(self) -> (r: TransportResponse)
        ensures
            r@ == apply_spec(self@.contract, json_render(self@.inner)),
    {
        let DescribedJsonResponse { contract, inner } = self;
        let resp = inner.into_response();
        contract.apply(resp)
    }

    /// Contributes the declared response's documentation fragment, built
    /// around the payload's own schema.
    pub fn document(&self, body_schema: Schema) -> (r: DocFragment)
        ensures
            r@ == document_spec(self@.contract, body_schema@),
    {
        self.contract.document(body_schema)
    }
}

/// A contract declaring nothing documents the backward-compatible default: a
/// fragment keyed `200`, with content type `text/html` and an empty
/// description.
pub proof fn lemma_default_document(c: ContractView, s: SchemaView)
    requires
        c.status is None,
        c.content is None,
        c.description is None,
    ensures
        document_spec(c, s).status_code == "200"@,
        document_spec(c, s).content_type == "text/html"@,
        document_spec(c, s).description == Seq::<char>::empty(),
        document_spec(c, s).body_schema == s,
{
    reveal_strlit("200");
    assert(dec_str(2) =~= seq!['2']);
    assert(dec_str(20) =~= dec_str(2).push('0'));
    assert(dec_str(200) =~= dec_str(20).push('0'));
    assert(dec_str(200) =~= "200"@);
}

/// The rendering path and the documentation path of one contract agree: the
/// fragment's key is the numeral of the status the rendered response carries;
/// with a content type declared, the rendered `Content-Type` header is
/// exactly the fragment's content type with the charset suffix; and the
/// fragment's body schema is the payload's own, unchanged.
pub proof fn lemma_render_document_lock_step(c: ContractView, v: RespView, s: SchemaView)
    requires
        v.status == 200,
    ensures
        document_spec(c, s).status_code == dec_str(apply_spec(c, v).status as int),
        c.content is Some ==> content_type_values(apply_spec(c, v).headers) == seq![
            document_spec(c, s).content_type + charset_suffix(),
        ],
        document_spec(c, s).body_schema == s,
{
    lemma_declared_attributes_override(c, v);
}

/// The lock-step guarantee on the two concrete render paths: whatever wrapper
/// value a declared response carries, in either flavor, the documentation
/// fragment's key is the numeral of the status the served response carries,
/// and a declared content type reaches both paths as one value.
pub proof fn lemma_declaration_paths_agree(c: ContractView, w: WrapperView, s: SchemaView)
    ensures
        document_spec(c, s).status_code == dec_str(apply_spec(c, html_render(w)).status as int),
        document_spec(c, s).status_code == dec_str(apply_spec(c, json_render(w)).status as int),
        c.content is Some ==> content_type_values(apply_spec(c, html_render(w)).headers) == seq![
            document_spec(c, s).content_type + charset_suffix(),
        ],
        c.content is Some ==> content_type_values(apply_spec(c, json_render(w)).headers) == seq![
            document_spec(c, s).content_type + charset_suffix(),
        ],
{
    lemma_render_document_lock_step(c, html_render(w), s);
    lemma_render_document_lock_step(c, json_render(w), s);
}

} // verus!
