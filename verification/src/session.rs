//! The client-held session: two sealed, independently expiring cookies
//! (`access-token` and `refresh-token`), scoped to a fixed path prefix.
//!
//! The sealing itself (encryption and signing of cookie values) is done by
//! the web layer; this module models what the sealed jar holds and how the
//! proxy's handlers change it.

use vstd::prelude::*;

verus! {

/// Fixed lifetime of the `refresh-token` cookie, issued on login only:
/// 729 days, in seconds.
pub const REFRESH_TOKEN_MAX_AGE_SECONDS: u64 = 62985600;

/// The path prefix every session cookie is scoped to, so the cookies are
/// never sent to unrelated routes.
pub open spec fn cookie_path() -> Seq<char> {
    "/homeworker"@
}

/// One session cookie: its value and the attributes it is set with.
pub struct SessionCookie {
    pub value: String,
    pub max_age_seconds: u64,
    pub http_only: bool,
    pub secure: bool,
    pub path: String,
}

/// Spec-level model of a [`SessionCookie`].
#[verifier::ext_equal]
pub struct SessionCookieView {
    pub value: Seq<char>,
    pub max_age_seconds: u64,
    pub http_only: bool,
    pub secure: bool,
    pub path: Seq<char>,
}

impl View for SessionCookie {
    type V = SessionCookieView;

    open spec fn view(&self) -> SessionCookieView {
        SessionCookieView {
            value: self.value@,
            max_age_seconds: self.max_age_seconds,
            http_only: self.http_only,
            secure: self.secure,
            path: self.path@,
        }
    }
}

/// A session cookie as this proxy always issues one: `HttpOnly`, `Secure`,
/// and scoped to the fixed path prefix.
pub open spec fn spec_session_cookie(value: Seq<char>, max_age_seconds: u64) -> SessionCookieView {
    SessionCookieView {
        value,
        max_age_seconds,
        http_only: true,
        secure: true,
        path: cookie_path(),
    }
}

/// Builds a session cookie with the fixed attribute set.
pub fn make_session_cookie(value: String, max_age_seconds: u64) -> (r: SessionCookie)
    ensures
        r@ == spec_session_cookie(value@, max_age_seconds),
{
    SessionCookie {
        value,
        max_age_seconds,
        http_only: true,
        secure: true,
        path: String::from_str("/homeworker"),
    }
}

/// The client-held session: the pair of independently expiring cookies.
/// Both absent means logged out; only the access token absent means
/// "needs refresh", which is not an error.
pub struct Session {
    pub access: Option<SessionCookie>,
    pub refresh: Option<SessionCookie>,
}

/// Spec-level model of a [`Session`].
#[verifier::ext_equal]
pub struct SessionView {
    pub access: Option<SessionCookieView>,
    pub refresh: Option<SessionCookieView>,
}

impl View for Session {
    type V = SessionView;

    open spec fn view(&self) -> SessionView {
        SessionView {
            access: match self.access {
                Some(c) => Some(c@),
                None => None,
            },
            refresh: match self.refresh {
                Some(c) => Some(c@),
                None => None,
            },
        }
    }
}

/// The logged-out state: neither cookie present.
pub open spec fn spec_logged_out(s: SessionView) -> bool {
    s.access is None && s.refresh is None
}

/// What logout leaves behind, whatever the session held.
pub open spec fn spec_logout(s: SessionView) -> SessionView {
    SessionView { access: None, refresh: None }
}

/// Removes both cookies unconditionally; it never fails.
pub fn logout(session: Session) -> (r: Session)
    ensures
        r@ == spec_logout(session@),
        spec_logged_out(r@),
{
    Session { access: None, refresh: None }
}

/// Logout is idempotent: the cleared state does not depend on what the
/// session held, so clearing an empty session leaves exactly the same
/// state as clearing one that held both cookies.
pub proof fn lemma_logout_idempotent(a: SessionView, b: SessionView)
    ensures
        spec_logout(a) == spec_logout(b),
        spec_logged_out(spec_logout(a)),
        spec_logout(spec_logout(a)) == spec_logout(a),
{
}

} // verus!
