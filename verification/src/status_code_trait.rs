//! The status-code registry: named tags for common statuses plus a parametric
//! family for arbitrary codes, validated eagerly against the legal range.

use vstd::prelude::*;

verus! {

/// The inclusive lower bound of legal HTTP status codes.
pub open spec fn status_lo() -> u16 {
    100
}

/// The inclusive upper bound of legal HTTP status codes.
pub open spec fn status_hi() -> u16 {
    599
}

/// A type in the registry resolves to one canonical status code. A
/// parametric member is only usable while its declared code is legal, so an
/// out-of-range literal fails the build instead of being silently replaced.
pub trait StatusCodeTrait {
    /// The canonical status code this tag stands for.
    spec fn code_spec() -> u16;

    /// Whether the tag's declared code is legal.
    spec fn valid() -> bool;

    /// The canonical status code.
    fn status_code() -> (r: u16)
        requires
            Self::valid(),
        ensures
            r == Self::code_spec(),
    ;
}

/// Marker for status 200.
pub struct StatusCodeOk {}

/// Marker for status 201.
pub struct StatusCodeCreated {}

/// Marker for status 204.
pub struct StatusCodeNoContent {}

/// Marker for an arbitrary status code baked in at declaration time.
pub struct StatusCodeValue<const S: u16> {}

impl StatusCodeTrait for StatusCodeOk {
    open spec fn code_spec() -> u16 {
        200
    }

    open spec fn valid() -> bool {
        true
    }

    fn status_code() -> (r: u16) {
        200
    }
}

impl StatusCodeTrait for StatusCodeCreated {
    open spec fn code_spec() -> u16 {
        201
    }

    open spec fn valid() -> bool {
        true
    }

    fn status_code() -> (r: u16) {
        201
    }
}

impl StatusCodeTrait for StatusCodeNoContent {
    open spec fn code_spec() -> u16 {
        204
    }

    open spec fn valid() -> bool {
        true
    }

    fn status_code() -> (r: u16) {
        204
    }
}

impl<const S: u16> StatusCodeTrait for StatusCodeValue<S> {
    open spec fn code_spec() -> u16 {
        S
    }

    open spec fn valid() -> bool {
        status_lo() <= S && S <= status_hi()
    }

    fn status_code() -> (r: u16) {
        S
    }
}

/// A status tag as a value: one of the named tags, or a numeric member of the
/// parametric family.
#[derive(Clone, Copy, PartialEq, Eq, Debug, Structural)]
pub enum StatusTag {
    OK,
    Created,
    NoContent,
    Numeric(u16),
}

impl StatusTag {
    /// A numeric tag is well-formed only when its code is legal; named tags
    /// always are.
    pub open spec fn wf(self) -> bool {
        match self {
            StatusTag::Numeric(n) => status_lo() <= n && n <= status_hi(),
            _ => true,
        }
    }

    /// The canonical status code of the tag.
    pub open spec fn code_spec(self) -> u16 {
        match self {
            StatusTag::OK => 200,
            StatusTag::Created => 201,
            StatusTag::NoContent => 204,
            StatusTag::Numeric(n) => n,
        }
    }

    /// The canonical status code.
    pub fn code(&self) -> (r: u16)
        ensures
            r == self.code_spec(),
    {
        match self {
            StatusTag::OK => 200,
            StatusTag::Created => 201,
            StatusTag::NoContent => 204,
            StatusTag::Numeric(n) => *n,
        }
    }

    /// Builds a numeric tag, accepting exactly the legal status range; an
    /// out-of-range code is rejected rather than replaced by a default.
    pub fn numeric(code: u16) -> (r: Option<StatusTag>)
        ensures
            (status_lo() <= code && code <= status_hi()) <==> r is Some,
            r is Some ==> r == Some(StatusTag::Numeric(code)) && r.unwrap().wf(),
    {
        if 100 <= code && code <= 599 {
            Some(StatusTag::Numeric(code))
        } else {
            None
        }
    }
}

/// The named tags resolve to 200, 201 and 204, and a well-formed numeric tag
/// to exactly its declared code, which always lies in the legal range.
pub proof fn lemma_status_resolution(t: StatusTag)
    requires
        t.wf(),
    ensures
        t == StatusTag::OK ==> t.code_spec() == 200,
        t == StatusTag::Created ==> t.code_spec() == 201,
        t == StatusTag::NoContent ==> t.code_spec() == 204,
        forall|n: u16| t == StatusTag::Numeric(n) ==> t.code_spec() == n,
        status_lo() <= t.code_spec() && t.code_spec() <= status_hi(),
{
}

} // verus!
