//! The normalized error envelope used for every locally generated failure,
//! and the shape of structured upstream error bodies.

use vstd::prelude::*;

verus! {

/// Status code for a request that lacks usable credentials.
pub const STATUS_UNAUTHORIZED: u16 = 401;

/// Status code for a transport-level failure on an outbound call.
pub const STATUS_INTERNAL_SERVER_ERROR: u16 = 500;

/// Status code for a request whose method is outside the supported set.
pub const STATUS_METHOD_NOT_ALLOWED: u16 = 405;

/// An error envelope: a source name, a human-readable message, and the HTTP
/// status code it is reported with. Locally generated failures always carry
/// the name `"Proxy"`; upstream error bodies keep their own name.
#[derive(Debug)]
pub struct ErrorBody {
    pub name: String,
    pub message: String,
    pub code: u16,
}

/// Spec-level model of an [`ErrorBody`].
#[verifier::ext_equal]
pub struct ErrorBodyView {
    pub name: Seq<char>,
    pub message: Seq<char>,
    pub code: u16,
}

impl View for ErrorBody {
    type V = ErrorBodyView;

    open spec fn view(&self) -> ErrorBodyView {
        ErrorBodyView { name: self.name@, message: self.message@, code: self.code }
    }
}

/// The `name` field every proxy-generated error carries.
pub open spec fn proxy_error_name() -> Seq<char> {
    "Proxy"@
}

/// The proxy's normalized error envelope with the given code and message.
pub open spec fn spec_proxy_error(code: u16, message: Seq<char>) -> ErrorBodyView {
    ErrorBodyView { name: proxy_error_name(), message, code }
}

/// Builds the normalized envelope for a locally generated failure.
pub fn new_error(code: u16, message: String) -> (r: ErrorBody)
    ensures
        r@ == spec_proxy_error(code, message@),
{
    ErrorBody { name: String::from_str("Proxy"), message, code }
}

} // verus!
