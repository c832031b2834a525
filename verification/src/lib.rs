//! Response-contract synthesis for HTTP handlers.
//!
//! From one declaration — a payload wrapper plus optional status, content-type
//! and description annotations — this library derives three artifacts that can
//! never drift apart: the lifting conversion from the wrapper into the declared
//! response type, the rendering of that response into transport form, and the
//! documentation fragment describing it.

pub mod content_type_trait;
pub mod contract;
pub mod html_response;
pub mod json_response;
pub mod response_description_trait;
pub mod schema;
pub mod status_code_trait;
pub mod text;
pub mod transport;

use vstd::prelude::*;

verus! {

/// The suffix appended to every MIME type to form a header-ready value.
pub open spec fn charset_suffix() -> Seq<char> {
    "; charset=utf-8"@
}

} // verus!
