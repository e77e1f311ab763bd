//! The token exchanger's data: the pair returned by the upstream token
//! endpoint, and the two ways a token-endpoint call can fail.
//!
//! The calls themselves (trading an authorization code or a refresh token
//! for a new pair) are outbound HTTP requests made by the web layer; the
//! handlers here consume their results.

use vstd::prelude::*;
use crate::error::ErrorBody;
use crate::error::ErrorBodyView;

verus! {

/// A token pair from the upstream token endpoint: immutable once returned,
/// never persisted server-side, only mirrored into the session cookies.
pub struct TokenResponse {
    pub access_token: String,
    pub refresh_token: String,
    pub expires_in: u64,
}

/// Spec-level model of a [`TokenResponse`].
#[verifier::ext_equal]
pub struct TokenResponseView {
    pub access_token: Seq<char>,
    pub refresh_token: Seq<char>,
    pub expires_in: u64,
}

impl View for TokenResponse {
    type V = TokenResponseView;

    open spec fn view(&self) -> TokenResponseView {
        TokenResponseView {
            access_token: self.access_token@,
            refresh_token: self.refresh_token@,
            expires_in: self.expires_in,
        }
    }
}

/// Why a token-endpoint call failed: at the transport level (DNS,
/// connection, timeout), or with a structured error body from the
/// upstream itself.
pub enum ExchangeError {
    Transport,
    Api(ErrorBody),
}

/// Spec-level model of an [`ExchangeError`].
#[verifier::ext_equal]
pub enum ExchangeErrorView {
    Transport,
    Api(ErrorBodyView),
}

impl View for ExchangeError {
    type V = ExchangeErrorView;

    open spec fn view(&self) -> ExchangeErrorView {
        match self {
            ExchangeError::Transport => ExchangeErrorView::Transport,
            ExchangeError::Api(e) => ExchangeErrorView::Api(e@),
        }
    }
}

/// The model of a token-endpoint result as the handlers see it.
pub open spec fn exchange_result_view(
    r: Result<TokenResponse, ExchangeError>,
) -> Result<TokenResponseView, ExchangeErrorView> {
    match r {
        Ok(t) => Ok(t@),
        Err(e) => Err(e@),
    }
}

} // verus!
