//! The stated guarantees of the forwarding core, proved over the spec-level
//! machine that every handler's contract is pinned to.

use vstd::prelude::*;
use crate::proxy::bearer_prefix;
use crate::proxy::spec_apply_refresh;
use crate::proxy::spec_finish_proxy;
use crate::proxy::spec_prepare_forward;
use crate::proxy::spec_proxy_outcome;
use crate::proxy::spec_refreshed_session;
use crate::proxy::spec_reject_no_tokens;
use crate::proxy::spec_reject_no_user_agent;
use crate::proxy::spec_reject_refresh_failed;
use crate::proxy::spec_resolve_auth;
use crate::proxy::spec_upstream_request;
use crate::proxy::AuthOutcomeView;
use crate::proxy::ForwardDecisionView;
use crate::proxy::ForwardResultView;
use crate::proxy::Method;
use crate::proxy::ProxyResponseView;
use crate::proxy::RefreshOutcomeView;
use crate::session::spec_logged_out;
use crate::session::spec_session_cookie;
use crate::session::SessionCookieView;
use crate::session::SessionView;
use crate::token::ExchangeErrorView;
use crate::token::TokenResponseView;
use crate::error::STATUS_UNAUTHORIZED;

verus! {

/// With an access-token cookie present and a `User-Agent` supplied, the
/// machine forwards directly — no refresh step — with
/// `Authorization: Bearer <token>` and the `User-Agent` verbatim, and it
/// relays the upstream's status and body unchanged, session as it was.
pub proof fn lemma_authorized_forward(
    s: SessionView,
    c: SessionCookieView,
    method: Method,
    path: Seq<char>,
    user_agent: Seq<char>,
    body: Seq<char>,
    status: u16,
    reply: Seq<char>,
)
    requires
        s.access == Some(c),
    ensures
        spec_resolve_auth(s) == (AuthOutcomeView::Authorized { session: s, token: c.value }),
        spec_prepare_forward(s, c.value, method, path, Some(user_agent), body)
            == (ForwardDecisionView::Send {
            session: s,
            request: spec_upstream_request(method, path, body, c.value, user_agent),
        }),
        spec_upstream_request(method, path, body, c.value, user_agent).authorization
            == bearer_prefix() + c.value,
        spec_upstream_request(method, path, body, c.value, user_agent).user_agent == user_agent,
        spec_finish_proxy(s, ForwardResultView::Reply { status, body: reply })
            == (ProxyResponseView { status, session: s, body: Ok(reply) }),
{
}

/// With no access-token but a refresh-token present, the machine asks for
/// exactly one refresh call; after a successful refresh it holds an
/// authorized session — so no second refresh can be asked for — whose new
/// access-token cookie carries the returned token with max-age
/// `expires_in`, the refresh-token cookie untouched.
pub proof fn lemma_refresh_then_forward(
    s: SessionView,
    c: SessionCookieView,
    tr: TokenResponseView,
)
    requires
        s.access is None,
        s.refresh == Some(c),
    ensures
        spec_resolve_auth(s) == (AuthOutcomeView::RefreshNeeded {
            session: s,
            refresh_token: c.value,
        }),
        spec_apply_refresh(s, Ok(tr)) == (RefreshOutcomeView::Refreshed {
            session: spec_refreshed_session(s, tr),
            token: tr.access_token,
        }),
        spec_refreshed_session(s, tr).access
            == Some(spec_session_cookie(tr.access_token, tr.expires_in)),
        spec_refreshed_session(s, tr).refresh == s.refresh,
        spec_resolve_auth(spec_refreshed_session(s, tr)) == (AuthOutcomeView::Authorized {
            session: spec_refreshed_session(s, tr),
            token: tr.access_token,
        }),
{
}

/// Whatever the forwarded call's ending, the response carries the session
/// the machine resolved — in particular, an access-token cookie a refresh
/// just installed reaches the client even when the upstream then proves
/// unreachable, so the client's session advances monotonically.
pub proof fn lemma_finish_preserves_session(s: SessionView, outcome: ForwardResultView)
    ensures
        spec_finish_proxy(s, outcome).session == s,
{
}

/// With neither cookie present the machine rejects with `401`, session
/// unchanged; the `Rejected` outcome prescribes no outbound call of any
/// kind, neither a refresh nor a forward.
pub proof fn lemma_no_tokens_rejected(s: SessionView)
    requires
        spec_logged_out(s),
    ensures
        spec_resolve_auth(s) == (AuthOutcomeView::Rejected { response: spec_reject_no_tokens(s) }),
        spec_reject_no_tokens(s).status == STATUS_UNAUTHORIZED,
        spec_reject_no_tokens(s).session == s,
{
}

/// A request without a `User-Agent` header is rejected with `401` before
/// the upstream call is made, whatever token was resolved for it, with the
/// session carried as it stood.
pub proof fn lemma_no_user_agent_rejected(
    s: SessionView,
    token: Seq<char>,
    method: Method,
    path: Seq<char>,
    body: Seq<char>,
)
    ensures
        spec_prepare_forward(s, token, method, path, None, body)
            == (ForwardDecisionView::Rejected { response: spec_reject_no_user_agent(s) }),
        spec_reject_no_user_agent(s).status == STATUS_UNAUTHORIZED,
        spec_reject_no_user_agent(s).session == s,
{
}

/// No walk through the proxy handler — direct forward, refresh then
/// forward, or any of the rejections — ever mutates or removes the
/// refresh-token cookie: it is reissued on login only.
pub proof fn lemma_proxy_never_touches_refresh_cookie(
    s: SessionView,
    refresh_result: Result<TokenResponseView, ExchangeErrorView>,
    method: Method,
    path: Seq<char>,
    user_agent: Option<Seq<char>>,
    body: Seq<char>,
    forward_result: ForwardResultView,
)
    ensures
        spec_proxy_outcome(s, refresh_result, method, path, user_agent, body, forward_result)
            .session.refresh == s.refresh,
{
}

/// The whole request walk, pinned case by case: every inbound request
/// ends in exactly one of the six endings below, and in no other way.
pub proof fn lemma_proxy_outcome_cases(
    s: SessionView,
    refresh_result: Result<TokenResponseView, ExchangeErrorView>,
    method: Method,
    path: Seq<char>,
    user_agent: Option<Seq<char>>,
    body: Seq<char>,
    forward_result: ForwardResultView,
)
    ensures
        spec_logged_out(s) ==> spec_proxy_outcome(
            s,
            refresh_result,
            method,
            path,
            user_agent,
            body,
            forward_result,
        ) == spec_reject_no_tokens(s),
        s.access is None && s.refresh is Some && refresh_result is Err ==> spec_proxy_outcome(
            s,
            refresh_result,
            method,
            path,
            user_agent,
            body,
            forward_result,
        ) == spec_reject_refresh_failed(s),
        s.access is Some && user_agent is None ==> spec_proxy_outcome(
            s,
            refresh_result,
            method,
            path,
            user_agent,
            body,
            forward_result,
        ) == spec_reject_no_user_agent(s),
        s.access is None && s.refresh is Some && refresh_result is Ok && user_agent is None
            ==> spec_proxy_outcome(
            s,
            refresh_result,
            method,
            path,
            user_agent,
            body,
            forward_result,
        ) == spec_reject_no_user_agent(spec_refreshed_session(s, refresh_result->Ok_0)),
        s.access is Some && user_agent is Some ==> spec_proxy_outcome(
            s,
            refresh_result,
            method,
            path,
            user_agent,
            body,
            forward_result,
        ) == spec_finish_proxy(s, forward_result),
        s.access is None && s.refresh is Some && refresh_result is Ok && user_agent is Some
            ==> spec_proxy_outcome(
            s,
            refresh_result,
            method,
            path,
            user_agent,
            body,
            forward_result,
        ) == spec_finish_proxy(spec_refreshed_session(s, refresh_result->Ok_0), forward_result),
{
}

/// A failed refresh never mutates or removes the refresh-token cookie: the
/// `401` it produces carries the session exactly as it was, so the same
/// refresh token remains for a retry on the next request.
pub proof fn lemma_refresh_failure_preserves_session(s: SessionView, e: ExchangeErrorView)
    ensures
        spec_apply_refresh(s, Err(e)) == (RefreshOutcomeView::Failed {
            response: spec_reject_refresh_failed(s),
        }),
        spec_reject_refresh_failed(s).session == s,
        spec_reject_refresh_failed(s).session.refresh == s.refresh,
{
}

} // verus!
