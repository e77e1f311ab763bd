use homeworker_proxy::error::ErrorBody;
use homeworker_proxy::proxy::apply_refresh;
use homeworker_proxy::proxy::build_upstream_request;
use homeworker_proxy::proxy::finish_proxy;
use homeworker_proxy::proxy::prepare_forward;
use homeworker_proxy::proxy::resolve_auth;
use homeworker_proxy::proxy::AuthOutcome;
use homeworker_proxy::proxy::ForwardDecision;
use homeworker_proxy::proxy::ForwardResult;
use homeworker_proxy::proxy::Method;
use homeworker_proxy::proxy::RefreshOutcome;
use homeworker_proxy::session::make_session_cookie;
use homeworker_proxy::session::Session;
use homeworker_proxy::token::ExchangeError;
use homeworker_proxy::token::TokenResponse;

fn session_with_access(token: &str) -> Session {
    Session {
        access: Some(make_session_cookie(token.to_string(), 3600)),
        refresh: None,
    }
}

fn session_with_refresh_only(token: &str) -> Session {
    Session {
        access: None,
        refresh: Some(make_session_cookie(token.to_string(), 62985600)),
    }
}

#[test]
fn access_token_forwards_and_relays_verbatim() {
    // With a valid access-token cookie and a User-Agent, the request is
    // forwarded with `Authorization: Bearer <token>` and the upstream's
    // status and body come back unchanged.
    let outcome = resolve_auth(session_with_access("AT1"));
    let (session, token) = match outcome {
        AuthOutcome::Authorized { session, token } => (session, token),
        _ => panic!("an access cookie must authorize directly"),
    };
    assert_eq!(token, "AT1");
    let decision = prepare_forward(
        session,
        token,
        Method::Get,
        "/courses".to_string(),
        Some("test-agent".to_string()),
        String::new(),
    );
    let (session, request) = match decision {
        ForwardDecision::Send { session, request } => (session, request),
        ForwardDecision::Rejected { .. } => panic!("nothing here may be rejected"),
    };
    assert_eq!(request.url, "https://homeworker.li/api/v2/courses");
    assert_eq!(request.authorization, "Bearer AT1");
    assert_eq!(request.user_agent, "test-agent");
    assert!(request.body.is_none());
    let response = finish_proxy(
        session,
        ForwardResult::Reply { status: 203, body: "{\"items\":[]}".to_string() },
    );
    assert_eq!(response.status, 203);
    assert_eq!(response.body.unwrap(), "{\"items\":[]}");
    assert_eq!(response.session.access.unwrap().value, "AT1");
}

#[test]
fn refresh_only_session_refreshes_then_forwards() {
    // GET /subjects with only refresh-token=RT1: one refresh call, then
    // the forwarded request carries the fresh token and the response the
    // fresh cookie.
    let outcome = resolve_auth(session_with_refresh_only("RT1"));
    let (session, refresh_token) = match outcome {
        AuthOutcome::RefreshNeeded { session, refresh_token } => (session, refresh_token),
        _ => panic!("a refresh-only session must ask for a refresh"),
    };
    assert_eq!(refresh_token, "RT1");
    let refreshed = apply_refresh(
        session,
        Ok(TokenResponse {
            access_token: "AT2".to_string(),
            refresh_token: String::new(),
            expires_in: 3600,
        }),
    );
    let (session, token) = match refreshed {
        RefreshOutcome::Refreshed { session, token } => (session, token),
        RefreshOutcome::Failed { .. } => panic!("a good refresh must not fail"),
    };
    assert_eq!(token, "AT2");
    {
        let access = session.access.as_ref().expect("the new access cookie must be set");
        assert_eq!(access.value, "AT2");
        assert_eq!(access.max_age_seconds, 3600);
        let refresh = session.refresh.as_ref().expect("the refresh cookie must stay");
        assert_eq!(refresh.value, "RT1");
    }
    let decision = prepare_forward(
        session,
        token,
        Method::Get,
        "/subjects".to_string(),
        Some("test-agent".to_string()),
        String::new(),
    );
    let (session, request) = match decision {
        ForwardDecision::Send { session, request } => (session, request),
        ForwardDecision::Rejected { .. } => panic!("nothing here may be rejected"),
    };
    assert_eq!(request.url, "https://homeworker.li/api/v2/subjects");
    assert_eq!(request.authorization, "Bearer AT2");
    let response = finish_proxy(session, ForwardResult::Reply { status: 200, body: "[]".to_string() });
    assert_eq!(response.status, 200);
    assert_eq!(response.session.access.unwrap().value, "AT2");
}

#[test]
fn no_cookies_is_rejected_with_401() {
    let outcome = resolve_auth(Session { access: None, refresh: None });
    match outcome {
        AuthOutcome::Rejected { response } => {
            assert_eq!(response.status, 401);
            let err = response.body.unwrap_err();
            assert_eq!(err.name, "Proxy");
            assert_eq!(err.message, "No access or refresh token found.");
            assert_eq!(err.code, 401);
            assert!(response.session.access.is_none());
            assert!(response.session.refresh.is_none());
        }
        _ => panic!("an empty session must be rejected outright"),
    }
}

#[test]
fn missing_user_agent_is_rejected_before_forwarding() {
    let decision = prepare_forward(
        session_with_access("AT1"),
        "AT1".to_string(),
        Method::Get,
        "/courses".to_string(),
        None,
        String::new(),
    );
    match decision {
        ForwardDecision::Rejected { response } => {
            assert_eq!(response.status, 401);
            let err = response.body.unwrap_err();
            assert_eq!(err.name, "Proxy");
            assert_eq!(
                err.message,
                "No User-Agent header found. This may be required for accessing the homeworker API."
            );
            assert_eq!(err.code, 401);
            // The session rides along untouched.
            assert_eq!(response.session.access.unwrap().value, "AT1");
        }
        ForwardDecision::Send { .. } => panic!("no User-Agent must never reach the upstream"),
    }
}

#[test]
fn failed_refresh_keeps_the_refresh_cookie() {
    let upstream = ErrorBody {
        name: "invalid_grant".to_string(),
        message: "Refresh token expired.".to_string(),
        code: 400,
    };
    let outcome = apply_refresh(
        session_with_refresh_only("RT1"),
        Err(ExchangeError::Api(upstream)),
    );
    match outcome {
        RefreshOutcome::Failed { response } => {
            assert_eq!(response.status, 401);
            let err = response.body.unwrap_err();
            assert_eq!(err.name, "Proxy");
            assert_eq!(err.message, "Unable to refresh the access token.");
            assert_eq!(err.code, 401);
            // The old refresh token remains for a retry.
            assert!(response.session.access.is_none());
            assert_eq!(response.session.refresh.unwrap().value, "RT1");
        }
        RefreshOutcome::Refreshed { .. } => panic!("a failed refresh must not install a token"),
    }
}

#[test]
fn transport_failure_keeps_fresh_cookie_and_reports_500() {
    // Even when the forwarded call cannot reach the upstream, a cookie a
    // refresh just installed still reaches the client.
    let refreshed = apply_refresh(
        session_with_refresh_only("RT1"),
        Ok(TokenResponse {
            access_token: "AT2".to_string(),
            refresh_token: String::new(),
            expires_in: 3600,
        }),
    );
    let session = match refreshed {
        RefreshOutcome::Refreshed { session, .. } => session,
        RefreshOutcome::Failed { .. } => panic!("a good refresh must not fail"),
    };
    let response = finish_proxy(session, ForwardResult::Unreachable);
    assert_eq!(response.status, 500);
    let err = response.body.unwrap_err();
    assert_eq!(err.name, "Proxy");
    assert_eq!(err.message, "Proxy could not reach the homeworker API");
    assert_eq!(err.code, 500);
    assert_eq!(response.session.access.unwrap().value, "AT2");
    assert_eq!(response.session.refresh.unwrap().value, "RT1");
}

#[test]
fn unsupported_method_is_rejected_with_405() {
    let response =
        homeworker_proxy::proxy::reject_unsupported_method(session_with_access("AT1"));
    assert_eq!(response.status, 405);
    let err = response.body.unwrap_err();
    assert_eq!(err.name, "Proxy");
    assert_eq!(err.message, "Unsupported method.");
    assert_eq!(err.code, 405);
    // The session is untouched.
    assert_eq!(response.session.access.unwrap().value, "AT1");
}

#[test]
fn post_and_delete_keep_the_body_get_drops_it() {
    let post = build_upstream_request(
        Method::Post,
        "/homeworks",
        "{\"title\":\"essay\"}".to_string(),
        "AT1",
        "test-agent".to_string(),
    );
    assert_eq!(post.body.as_deref(), Some("{\"title\":\"essay\"}"));
    assert_eq!(post.url, "https://homeworker.li/api/v2/homeworks");
    let delete = build_upstream_request(
        Method::Delete,
        "/homeworks/7",
        "reason".to_string(),
        "AT1",
        "test-agent".to_string(),
    );
    assert_eq!(delete.body.as_deref(), Some("reason"));
    let get = build_upstream_request(
        Method::Get,
        "/homeworks",
        "ignored".to_string(),
        "AT1",
        "test-agent".to_string(),
    );
    assert!(get.body.is_none());
    assert_eq!(get.authorization, "Bearer AT1");
}
