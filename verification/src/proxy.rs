//! The forwarding core, phrased as the state machine a single inbound
//! request walks: resolve auth, refresh if needed, forward, respond.
//!
//! Each function here is one pure step between the (at most two) outbound
//! network calls. The web layer drives the machine: it looks up the sealed
//! cookies, performs the refresh and the forwarded call, and hands each
//! result back to the next step.

use vstd::prelude::*;
use crate::error::ErrorBody;
use crate::error::ErrorBodyView;
use crate::error::new_error;
use crate::error::spec_proxy_error;
use crate::error::STATUS_METHOD_NOT_ALLOWED;
use crate::error::STATUS_INTERNAL_SERVER_ERROR;
use crate::error::STATUS_UNAUTHORIZED;
use crate::session::make_session_cookie;
use crate::session::spec_session_cookie;
use crate::session::Session;
use crate::session::SessionView;
use crate::session::REFRESH_TOKEN_MAX_AGE_SECONDS;
use crate::token::exchange_result_view;
use crate::token::ExchangeError;
use crate::token::ExchangeErrorView;
use crate::token::TokenResponse;
use crate::token::TokenResponseView;

verus! {

/// The closed set of methods the proxy forwards; anything else is
/// rejected by the web layer as unsupported.
#[derive(Clone, Copy, PartialEq, Eq, Structural, Debug)]
pub enum Method {
    Get,
    Post,
    Delete,
}

/// The fixed upstream base every forwarded path is appended to.
pub open spec fn upstream_base() -> Seq<char> {
    "https://homeworker.li/api/v2"@
}

/// The prefix of the `Authorization` header value.
pub open spec fn bearer_prefix() -> Seq<char> {
    "Bearer "@
}

/// Error message when the session holds neither cookie.
pub open spec fn msg_no_tokens() -> Seq<char> {
    "No access or refresh token found."@
}

/// Error message when the refresh call fails.
pub open spec fn msg_refresh_failed() -> Seq<char> {
    "Unable to refresh the access token."@
}

/// Error message when the inbound request lacks a `User-Agent` header.
pub open spec fn msg_no_user_agent() -> Seq<char> {
    "No User-Agent header found. This may be required for accessing the homeworker API."@
}

/// Error message when the forwarded call cannot reach the upstream.
pub open spec fn msg_unreachable() -> Seq<char> {
    "Proxy could not reach the homeworker API"@
}

/// Error message when the token-endpoint call fails at the transport level.
pub open spec fn msg_forward_error() -> Seq<char> {
    "Error while forwarding the request"@
}

/// The one outbound request the proxy makes on behalf of the client:
/// only the `Authorization` and `User-Agent` headers are attached; every
/// other inbound header is deliberately dropped.
pub struct UpstreamRequest {
    pub method: Method,
    pub url: String,
    pub body: Option<String>,
    pub authorization: String,
    pub user_agent: String,
}

/// Spec-level model of an [`UpstreamRequest`].
#[verifier::ext_equal]
pub struct UpstreamRequestView {
    pub method: Method,
    pub url: Seq<char>,
    pub body: Option<Seq<char>>,
    pub authorization: Seq<char>,
    pub user_agent: Seq<char>,
}

impl View for UpstreamRequest {
    type V = UpstreamRequestView;

    open spec fn view(&self) -> UpstreamRequestView {
        UpstreamRequestView {
            method: self.method,
            url: self.url@,
            body: match self.body {
                Some(b) => Some(b@),
                None => None,
            },
            authorization: self.authorization@,
            user_agent: self.user_agent@,
        }
    }
}

/// The request forwarded upstream: the inbound path appended to the fixed
/// base, `Authorization: Bearer <token>`, the inbound `User-Agent`
/// verbatim, and the raw body kept only for `POST` and `DELETE`.
pub open spec fn spec_upstream_request(
    method: Method,
    path: Seq<char>,
    body: Seq<char>,
    token: Seq<char>,
    user_agent: Seq<char>,
) -> UpstreamRequestView {
    UpstreamRequestView {
        method,
        url: upstream_base() + path,
        body: match method {
            Method::Get => None,
            Method::Post => Some(body),
            Method::Delete => Some(body),
        },
        authorization: bearer_prefix() + token,
        user_agent,
    }
}

/// Builds the outbound request for a resolved access token.
pub fn build_upstream_request(
    method: Method,
    path: &str,
    body: String,
    token: &str,
    user_agent: String,
) -> (r: UpstreamRequest)
    ensures
        r@ == spec_upstream_request(method, path@, body@, token@, user_agent@),
{
    let url = String::from_str("https://homeworker.li/api/v2").concat(path);
    let authorization = String::from_str("Bearer ").concat(token);
    let request_body: Option<String> = match method {
        Method::Get => None,
        Method::Post => Some(body),
        Method::Delete => Some(body),
    };
    UpstreamRequest { method, url, body: request_body, authorization, user_agent }
}

/// What the proxy hands back for one inbound request: the status, the
/// (possibly updated) session cookies, and either the upstream body
/// verbatim or a local error envelope.
pub struct ProxyResponse {
    pub status: u16,
    pub session: Session,
    pub body: Result<String, ErrorBody>,
}

/// Spec-level model of a [`ProxyResponse`].
#[verifier::ext_equal]
pub struct ProxyResponseView {
    pub status: u16,
    pub session: SessionView,
    pub body: Result<Seq<char>, ErrorBodyView>,
}

impl View for ProxyResponse {
    type V = ProxyResponseView;

    open spec fn view(&self) -> ProxyResponseView {
        ProxyResponseView {
            status: self.status,
            session: self.session@,
            body: match &self.body {
                Ok(b) => Ok(b@),
                Err(e) => Err(e@),
            },
        }
    }
}

/// The rejection when the session holds neither cookie: `401`, session
/// unchanged, and no outbound call of any kind.
pub open spec fn spec_reject_no_tokens(s: SessionView) -> ProxyResponseView {
    ProxyResponseView {
        status: STATUS_UNAUTHORIZED,
        session: s,
        body: Err(spec_proxy_error(STATUS_UNAUTHORIZED, msg_no_tokens())),
    }
}

/// The rejection when the refresh call failed: `401`, session unchanged
/// (the old refresh token stays, so the next request may retry).
pub open spec fn spec_reject_refresh_failed(s: SessionView) -> ProxyResponseView {
    ProxyResponseView {
        status: STATUS_UNAUTHORIZED,
        session: s,
        body: Err(spec_proxy_error(STATUS_UNAUTHORIZED, msg_refresh_failed())),
    }
}

/// The rejection when the inbound request lacks a `User-Agent` header:
/// `401` before the upstream call, session carried as it stood.
pub open spec fn spec_reject_no_user_agent(s: SessionView) -> ProxyResponseView {
    ProxyResponseView {
        status: STATUS_UNAUTHORIZED,
        session: s,
        body: Err(spec_proxy_error(STATUS_UNAUTHORIZED, msg_no_user_agent())),
    }
}

/// Error message when the inbound method is outside the supported set.
pub open spec fn msg_unsupported_method() -> Seq<char> {
    "Unsupported method."@
}

/// The explicit error path for a method outside the closed `GET`/`POST`/
/// `DELETE` set: `405` with the normalized envelope, session untouched,
/// and no outbound call of any kind.
pub open spec fn spec_reject_unsupported_method(s: SessionView) -> ProxyResponseView {
    ProxyResponseView {
        status: STATUS_METHOD_NOT_ALLOWED,
        session: s,
        body: Err(spec_proxy_error(STATUS_METHOD_NOT_ALLOWED, msg_unsupported_method())),
    }
}

/// Builds the rejection for an unsupported inbound method.
pub fn reject_unsupported_method(session: Session) -> (r: ProxyResponse)
    ensures
        r@ == spec_reject_unsupported_method(session@),
{
    ProxyResponse {
        status: STATUS_METHOD_NOT_ALLOWED,
        session,
        body: Err(new_error(
            STATUS_METHOD_NOT_ALLOWED,
            String::from_str("Unsupported method."),
        )),
    }
}

/// First step of the machine: what the cookies alone decide.
pub enum AuthOutcome {
    /// An access token is present: forward with it, session unchanged.
    /// No local expiry check is made; expiry is enforced upstream and by
    /// the cookie's own max-age.
    Authorized { session: Session, token: String },
    /// No access token, but a refresh token: call the token endpoint once.
    RefreshNeeded { session: Session, refresh_token: String },
    /// Neither cookie: reject without any outbound call.
    Rejected { response: ProxyResponse },
}

/// Spec-level model of an [`AuthOutcome`].
#[verifier::ext_equal]
pub enum AuthOutcomeView {
    Authorized { session: SessionView, token: Seq<char> },
    RefreshNeeded { session: SessionView, refresh_token: Seq<char> },
    Rejected { response: ProxyResponseView },
}

impl View for AuthOutcome {
    type V = AuthOutcomeView;

    open spec fn view(&self) -> AuthOutcomeView {
        match self {
            AuthOutcome::Authorized { session, token } => AuthOutcomeView::Authorized {
                session: session@,
                token: token@,
            },
            AuthOutcome::RefreshNeeded { session, refresh_token } => AuthOutcomeView::RefreshNeeded {
                session: session@,
                refresh_token: refresh_token@,
            },
            AuthOutcome::Rejected { response } => AuthOutcomeView::Rejected { response: response@ },
        }
    }
}

/// What the session alone decides: use the access token if present, else
/// refresh with the refresh token if present, else reject with `401`.
pub open spec fn spec_resolve_auth(s: SessionView) -> AuthOutcomeView {
    match s.access {
        Some(c) => AuthOutcomeView::Authorized { session: s, token: c.value },
        None => match s.refresh {
            Some(c) => AuthOutcomeView::RefreshNeeded { session: s, refresh_token: c.value },
            None => AuthOutcomeView::Rejected { response: spec_reject_no_tokens(s) },
        },
    }
}

/// Resolves the credentials for one inbound request from the session.
pub fn resolve_auth(session: Session) -> (r: AuthOutcome)
    ensures
        r@ == spec_resolve_auth(session@),
{
    match session.access {
        Some(cookie) => {
            let token = cookie.value.clone();
            AuthOutcome::Authorized {
                session: Session { access: Some(cookie), refresh: session.refresh },
                token,
            }
        },
        None => match session.refresh {
            Some(cookie) => {
                let refresh_token = cookie.value.clone();
                AuthOutcome::RefreshNeeded {
                    session: Session { access: None, refresh: Some(cookie) },
                    refresh_token,
                }
            },
            None => AuthOutcome::Rejected {
                response: ProxyResponse {
                    status: STATUS_UNAUTHORIZED,
                    session: Session { access: None, refresh: None },
                    body: Err(new_error(
                        STATUS_UNAUTHORIZED,
                        String::from_str("No access or refresh token found."),
                    )),
                },
            },
        },
    }
}

/// Second step, taken only when a refresh was needed: what the token
/// endpoint's answer decides.
pub enum RefreshOutcome {
    /// The refresh succeeded: a new access-token cookie is installed and
    /// its value is the token to forward with. The refresh-token cookie
    /// is left untouched (no rotation on refresh).
    Refreshed { session: Session, token: String },
    /// The refresh failed: reject with `401`, session unchanged.
    Failed { response: ProxyResponse },
}

/// Spec-level model of a [`RefreshOutcome`].
#[verifier::ext_equal]
pub enum RefreshOutcomeView {
    Refreshed { session: SessionView, token: Seq<char> },
    Failed { response: ProxyResponseView },
}

impl View for RefreshOutcome {
    type V = RefreshOutcomeView;

    open spec fn view(&self) -> RefreshOutcomeView {
        match self {
            RefreshOutcome::Refreshed { session, token } => RefreshOutcomeView::Refreshed {
                session: session@,
                token: token@,
            },
            RefreshOutcome::Failed { response } => RefreshOutcomeView::Failed { response: response@ },
        }
    }
}

/// The session after a successful refresh: a fresh access-token cookie
/// whose max-age is the returned `expires_in`, the refresh-token cookie
/// exactly as it was.
pub open spec fn spec_refreshed_session(s: SessionView, tr: TokenResponseView) -> SessionView {
    SessionView {
        access: Some(spec_session_cookie(tr.access_token, tr.expires_in)),
        refresh: s.refresh,
    }
}

/// What a refresh result does to the session: success installs a fresh
/// access-token cookie (max-age = `expires_in`) and leaves the
/// refresh-token cookie untouched; failure changes nothing.
pub open spec fn spec_apply_refresh(
    s: SessionView,
    result: Result<TokenResponseView, ExchangeErrorView>,
) -> RefreshOutcomeView {
    match result {
        Ok(tr) => RefreshOutcomeView::Refreshed {
            session: spec_refreshed_session(s, tr),
            token: tr.access_token,
        },
        Err(e) => RefreshOutcomeView::Failed { response: spec_reject_refresh_failed(s) },
    }
}

/// Applies the token endpoint's answer to the session.
pub fn apply_refresh(session: Session, result: Result<TokenResponse, ExchangeError>) -> (r:
    RefreshOutcome)
    ensures
        r@ == spec_apply_refresh(session@, exchange_result_view(result)),
{
    match result {
        Ok(tr) => {
            let token = tr.access_token.clone();
            RefreshOutcome::Refreshed {
                session: Session {
                    access: Some(make_session_cookie(tr.access_token, tr.expires_in)),
                    refresh: session.refresh,
                },
                token,
            }
        },
        Err(_) => RefreshOutcome::Failed {
            response: ProxyResponse {
                status: STATUS_UNAUTHORIZED,
                session,
                body: Err(new_error(
                    STATUS_UNAUTHORIZED,
                    String::from_str("Unable to refresh the access token."),
                )),
            },
        },
    }
}

/// Third step: with a token in hand, either the outbound request to send,
/// or the `401` for a request that lacks a `User-Agent` header.
pub enum ForwardDecision {
    Send { session: Session, request: UpstreamRequest },
    Rejected { response: ProxyResponse },
}

/// Spec-level model of a [`ForwardDecision`].
#[verifier::ext_equal]
pub enum ForwardDecisionView {
    Send { session: SessionView, request: UpstreamRequestView },
    Rejected { response: ProxyResponseView },
}

impl View for ForwardDecision {
    type V = ForwardDecisionView;

    open spec fn view(&self) -> ForwardDecisionView {
        match self {
            ForwardDecision::Send { session, request } => ForwardDecisionView::Send {
                session: session@,
                request: request@,
            },
            ForwardDecision::Rejected { response } => ForwardDecisionView::Rejected {
                response: response@,
            },
        }
    }
}

/// Whether the upstream call may be made, and with what: a missing
/// `User-Agent` is rejected before any round trip, whatever the tokens;
/// otherwise the forwarded request is built. Either way the session —
/// including an access-token cookie a refresh just installed — rides
/// along unchanged.
pub open spec fn spec_prepare_forward(
    s: SessionView,
    token: Seq<char>,
    method: Method,
    path: Seq<char>,
    user_agent: Option<Seq<char>>,
    body: Seq<char>,
) -> ForwardDecisionView {
    match user_agent {
        Some(ua) => ForwardDecisionView::Send {
            session: s,
            request: spec_upstream_request(method, path, body, token, ua),
        },
        None => ForwardDecisionView::Rejected { response: spec_reject_no_user_agent(s) },
    }
}

/// Checks the `User-Agent` requirement and builds the outbound request.
pub fn prepare_forward(
    session: Session,
    token: String,
    method: Method,
    path: String,
    user_agent: Option<String>,
    body: String,
) -> (r: ForwardDecision)
    ensures
        r@ == spec_prepare_forward(
            session@,
            token@,
            method,
            path@,
            match user_agent {
                Some(ua) => Some(ua@),
                None => None,
            },
            body@,
        ),
{
    match user_agent {
        Some(ua) => ForwardDecision::Send {
            session,
            request: build_upstream_request(method, path.as_str(), body, token.as_str(), ua),
        },
        None => ForwardDecision::Rejected {
            response: ProxyResponse {
                status: STATUS_UNAUTHORIZED,
                session,
                body: Err(new_error(
                    STATUS_UNAUTHORIZED,
                    String::from_str(
                        "No User-Agent header found. This may be required for accessing the homeworker API.",
                    ),
                )),
            },
        },
    }
}

/// How the forwarded call ended: a reply from the upstream (any status,
/// relayed verbatim), or no reply at all.
pub enum ForwardResult {
    Reply { status: u16, body: String },
    Unreachable,
}

/// Spec-level model of a [`ForwardResult`].
#[verifier::ext_equal]
pub enum ForwardResultView {
    Reply { status: u16, body: Seq<char> },
    Unreachable,
}

impl View for ForwardResult {
    type V = ForwardResultView;

    open spec fn view(&self) -> ForwardResultView {
        match self {
            ForwardResult::Reply { status, body } => ForwardResultView::Reply {
                status: *status,
                body: body@,
            },
            ForwardResult::Unreachable => ForwardResultView::Unreachable,
        }
    }
}

/// Last step: a reply is relayed verbatim — its status and raw body
/// unmodified; an unreachable upstream becomes a `500` with the
/// normalized proxy error. In both cases the session rides along, so an
/// access token installed by a refresh reaches the client even when the
/// forwarded call then fails.
pub open spec fn spec_finish_proxy(s: SessionView, outcome: ForwardResultView) -> ProxyResponseView {
    match outcome {
        ForwardResultView::Reply { status, body } => ProxyResponseView {
            status,
            session: s,
            body: Ok(body),
        },
        ForwardResultView::Unreachable => ProxyResponseView {
            status: STATUS_INTERNAL_SERVER_ERROR,
            session: s,
            body: Err(
                spec_proxy_error(STATUS_INTERNAL_SERVER_ERROR, msg_unreachable()),
            ),
        },
    }
}

/// Turns the forwarded call's ending into the proxy's response.
pub fn finish_proxy(session: Session, outcome: ForwardResult) -> (r: ProxyResponse)
    ensures
        r@ == spec_finish_proxy(session@, outcome@),
{
    match outcome {
        ForwardResult::Reply { status, body } => ProxyResponse {
            status,
            session,
            body: Ok(body),
        },
        ForwardResult::Unreachable => ProxyResponse {
            status: STATUS_INTERNAL_SERVER_ERROR,
            session,
            body: Err(new_error(
                STATUS_INTERNAL_SERVER_ERROR,
                String::from_str("Proxy could not reach the homeworker API"),
            )),
        },
    }
}

/// The forward phase, whole: either the `User-Agent` check fails and the
/// request is rejected, or the built request is sent and its ending
/// relayed.
pub open spec fn spec_forward_phase(
    s: SessionView,
    token: Seq<char>,
    method: Method,
    path: Seq<char>,
    user_agent: Option<Seq<char>>,
    body: Seq<char>,
    forward_result: ForwardResultView,
) -> ProxyResponseView {
    match spec_prepare_forward(s, token, method, path, user_agent, body) {
        ForwardDecisionView::Send { session, request } => spec_finish_proxy(
            session,
            forward_result,
        ),
        ForwardDecisionView::Rejected { response } => response,
    }
}

/// The whole request walk, as one function of the session, the inbound
/// request, and the endings of the at most two outbound calls. The
/// `refresh_result` is consulted only on the path that makes a refresh
/// call, the `forward_result` only on the paths that reach the upstream;
/// the web layer drives the same walk step by step.
pub open spec fn spec_proxy_outcome(
    s: SessionView,
    refresh_result: Result<TokenResponseView, ExchangeErrorView>,
    method: Method,
    path: Seq<char>,
    user_agent: Option<Seq<char>>,
    body: Seq<char>,
    forward_result: ForwardResultView,
) -> ProxyResponseView {
    match spec_resolve_auth(s) {
        AuthOutcomeView::Authorized { session, token } => spec_forward_phase(
            session,
            token,
            method,
            path,
            user_agent,
            body,
            forward_result,
        ),
        AuthOutcomeView::RefreshNeeded { session, refresh_token } => match spec_apply_refresh(
            session,
            refresh_result,
        ) {
            RefreshOutcomeView::Refreshed { session, token } => spec_forward_phase(
                session,
                token,
                method,
                path,
                user_agent,
                body,
                forward_result,
            ),
            RefreshOutcomeView::Failed { response } => response,
        },
        AuthOutcomeView::Rejected { response } => response,
    }
}

/// What the login handler decides: on success both cookies are set — the
/// access token with max-age `expires_in`, the refresh token with the
/// long fixed lifetime; a transport failure becomes the normalized `500`;
/// an upstream error body is passed through unreshaped, with its own
/// status code.
pub enum LoginOutcome {
    LoggedIn { session: Session },
    Failed { status: u16, body: ErrorBody },
}

/// Spec-level model of a [`LoginOutcome`].
#[verifier::ext_equal]
pub enum LoginOutcomeView {
    LoggedIn { session: SessionView },
    Failed { status: u16, body: ErrorBodyView },
}

impl View for LoginOutcome {
    type V = LoginOutcomeView;

    open spec fn view(&self) -> LoginOutcomeView {
        match self {
            LoginOutcome::LoggedIn { session } => LoginOutcomeView::LoggedIn { session: session@ },
            LoginOutcome::Failed { status, body } => LoginOutcomeView::Failed {
                status: *status,
                body: body@,
            },
        }
    }
}

/// What the token-exchange result does to the session on login.
pub open spec fn spec_handle_login(
    s: SessionView,
    result: Result<TokenResponseView, ExchangeErrorView>,
) -> LoginOutcomeView {
    match result {
        Ok(tr) => LoginOutcomeView::LoggedIn {
            session: SessionView {
                access: Some(spec_session_cookie(tr.access_token, tr.expires_in)),
                refresh: Some(
                    spec_session_cookie(tr.refresh_token, REFRESH_TOKEN_MAX_AGE_SECONDS),
                ),
            },
        },
        Err(ExchangeErrorView::Transport) => LoginOutcomeView::Failed {
            status: STATUS_INTERNAL_SERVER_ERROR,
            body: spec_proxy_error(STATUS_INTERNAL_SERVER_ERROR, msg_forward_error()),
        },
        Err(ExchangeErrorView::Api(e)) => LoginOutcomeView::Failed { status: e.code, body: e },
    }
}

/// Applies the exchange of an authorization code to the session.
pub fn handle_login(session: Session, result: Result<TokenResponse, ExchangeError>) -> (r:
    LoginOutcome)
    ensures
        r@ == spec_handle_login(session@, exchange_result_view(result)),
{
    match result {
        Ok(tr) => LoginOutcome::LoggedIn {
            session: Session {
                access: Some(make_session_cookie(tr.access_token, tr.expires_in)),
                refresh: Some(
                    make_session_cookie(tr.refresh_token, REFRESH_TOKEN_MAX_AGE_SECONDS),
                ),
            },
        },
        Err(ExchangeError::Transport) => LoginOutcome::Failed {
            status: STATUS_INTERNAL_SERVER_ERROR,
            body: new_error(
                STATUS_INTERNAL_SERVER_ERROR,
                String::from_str("Error while forwarding the request"),
            ),
        },
        Err(ExchangeError::Api(e)) => {
            let status = e.code;
            LoginOutcome::Failed { status, body: e }
        },
    }
}

} // verus!
