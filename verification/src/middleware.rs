//! The decisions of the request middleware: who a request is from, and
//! whether a session is due for renewal.
//!
//! The middleware values here decide on plain values. Whoever runs the
//! service around them reads the request, asks, and acts on the answer.

use vstd::prelude::*;
use std::rc::Rc;
use crate::claims::{claims_in, optional_view, Claims, ClaimsView};
use crate::header::{authorization_token, bearer_token};
use crate::json::json_parsed;
use crate::token::{authenticate, outcome_view, signed_claims, verdict, AuthenticationFailure};

verus! {

/// The seconds by which a renewed session outlives the moment of its
/// renewal: twelve hours.
pub const SESSION_LIFETIME_SECONDS: u64 = 43200;

/// The identity that a session's stored text states, if it states one.
pub open spec fn session_identity(stored: Option<Seq<char>>) -> Option<ClaimsView> {
    match stored {
        Some(text) => match json_parsed(text) {
            Some(v) => claims_in(v),
            None => None,
        },
        None => None,
    }
}

/// Who a request is from. The identity stored with its session is taken
/// first, as it stands. Without one, the bearer token of the authorization
/// header is judged at the time `now`; without a bearer token either, the
/// credential is missing.
pub open spec fn authorized(
    stored: Option<Seq<char>>,
    authorization: Option<Seq<u8>>,
    secret: Seq<u8>,
    now: u64,
) -> Result<ClaimsView, AuthenticationFailure> {
    match session_identity(stored) {
        Some(c) => Ok(c),
        None => {
            let token = match authorization {
                Some(header) => bearer_token(header),
                None => None,
            };
            match token {
                Some(token) => verdict(signed_claims(token, secret), now),
                None => Err(AuthenticationFailure::MissingCredential),
            }
        },
    }
}

/// The expiry time of a session renewed at `now`, where it is due: the
/// session has not expired, expires in less than `threshold` seconds, and
/// the new expiry time fits the machine word.
pub open spec fn renewed_expiry(exp: usize, now: u64, threshold: u64) -> Option<usize> {
    if now < exp && exp - now < threshold && now + SESSION_LIFETIME_SECONDS <= usize::MAX {
        Some((now + SESSION_LIFETIME_SECONDS) as usize)
    } else {
        None
    }
}

/// The identity `c` with the expiry time `exp`.
pub open spec fn with_expiry(c: ClaimsView, exp: usize) -> ClaimsView {
    ClaimsView { id: c.id, username: c.username, role: c.role, exp }
}

/// The identity to store for a session that is renewed at `now`, if the
/// stored text states an identity and its renewal is due.
pub open spec fn renewed_identity(stored: Option<Seq<char>>, now: u64, threshold: u64) -> Option<
    ClaimsView,
> {
    match session_identity(stored) {
        Some(c) => match renewed_expiry(c.exp, now, threshold) {
            Some(exp) => Some(with_expiry(c, exp)),
            None => None,
        },
        None => None,
    }
}

/// Authentication of requests by their session or by a bearer token.
pub struct AuthMiddleware;

/// [`AuthMiddleware`] around one service.
pub struct AuthMiddlewareMiddleware<S> {
    pub service: Rc<S>,
}

impl AuthMiddleware {
    /// The middleware around `service`.
    pub fn new_transform<S>(&self, service: S) -> (wrapped: AuthMiddlewareMiddleware<S>)
        ensures
            *wrapped.service == service,
    {
        AuthMiddlewareMiddleware { service: Rc::new(service) }
    }
}

impl<S> AuthMiddlewareMiddleware<S> {
    /// Says who a request is from, or why nobody is known to be.
    ///
    /// `stored` is the text stored with the request's session where it has
    /// one, `authorization` the value of its authorization header where it
    /// has one, `secret` the shared signing secret and `now` the time in
    /// seconds since the Unix epoch.
    pub fn authorize(
        &self,
        stored: Option<&str>,
        authorization: Option<&[u8]>,
        secret: &[u8],
        now: u64,
    ) -> (outcome: Result<Claims, AuthenticationFailure>)
        ensures
            outcome_view(outcome) == authorized(
                match stored {
                    Some(text) => Some(text@),
                    None => None,
                },
                match authorization {
                    Some(header) => Some(header@),
                    None => None,
                },
                secret@,
                now,
            ),
    {
        let known = match stored {
            Some(text) => Claims::from_json_text(text),
            None => None,
        };
        match known {
            Some(claims) => {
                return Ok(claims);
            },
            None => {},
        }
        let token = match authorization {
            Some(header) => authorization_token(header),
            None => None,
        };
        match token {
            Some(token) => authenticate(token.as_slice(), secret, now),
            None => Err(AuthenticationFailure::MissingCredential),
        }
    }
}

/// Renewal of sessions that are close to their expiry.
pub struct SessionRefreshMiddleware {
    /// The seconds before its expiry from which a session is renewed.
    refresh_threshold: u64,
}

/// [`SessionRefreshMiddleware`] around one service.
pub struct SessionRefreshMiddlewareService<S> {
    service: Rc<S>,
    refresh_threshold: u64,
}

impl SessionRefreshMiddleware {
    /// A middleware that renews a session from `refresh_threshold_seconds`
    /// before its expiry.
    pub fn new(refresh_threshold_seconds: u64) -> (middleware: SessionRefreshMiddleware)
        ensures
            middleware.threshold() == refresh_threshold_seconds,
    {
        SessionRefreshMiddleware { refresh_threshold: refresh_threshold_seconds }
    }

    /// The seconds before its expiry from which a session is renewed.
    pub closed spec fn threshold(&self) -> u64 {
        self.refresh_threshold
    }

    /// The middleware around `service`.
    pub fn new_transform<S>(&self, service: S) -> (wrapped: SessionRefreshMiddlewareService<S>)
        ensures
            *wrapped.inner() == service,
            wrapped.threshold() == self.threshold(),
    {
        SessionRefreshMiddlewareService {
            service: Rc::new(service),
            refresh_threshold: self.refresh_threshold,
        }
    }
}

impl<S> SessionRefreshMiddlewareService<S> {
    /// The seconds before its expiry from which a session is renewed.
    pub closed spec fn threshold(&self) -> u64 {
        self.refresh_threshold
    }

    /// The service that the middleware stands around.
    pub closed spec fn inner(&self) -> Rc<S> {
        self.service
    }

    /// The service that the middleware stands around.
    pub fn service(&self) -> (service: &Rc<S>)
        ensures
            *service == self.inner(),
    {
        &self.service
    }

    /// The expiry time of a session renewed at `now`, where its renewal is
    /// due.
    pub fn renewal(&self, exp: usize, now: u64) -> (renewed: Option<usize>)
        ensures
            renewed == renewed_expiry(exp, now, self.threshold()),
    {
        if now < exp as u64 && exp as u64 - now < self.refresh_threshold && now <= usize::MAX as u64
            - SESSION_LIFETIME_SECONDS {
            Some((now + SESSION_LIFETIME_SECONDS) as usize)
        } else {
            None
        }
    }

    /// The identity to store for the session of a request at `now`, where
    /// the stored text states an identity and its renewal is due.
    pub fn refresh(&self, stored: Option<&str>, now: u64) -> (renewed: Option<Claims>)
        ensures
            optional_view(renewed) == renewed_identity(
                match stored {
                    Some(text) => Some(text@),
                    None => None,
                },
                now,
                self.threshold(),
            ),
    {
        let known = match stored {
            Some(text) => Claims::from_json_text(text),
            None => None,
        };
        match known {
            Some(claims) => match self.renewal(claims.exp, now) {
                Some(exp) => Some(
                    Claims { id: claims.id, username: claims.username, role: claims.role, exp },
                ),
                None => None,
            },
            None => None,
        }
    }
}

} // verus!
