//! The phases of an authorization-code callback, from the redirect parameters
//! to an identified user with a live credential.
//!
//! Each phase takes what the identity provider answered to the previous
//! request, and either fails with the error that ends the login or yields the
//! state from which the next request is made.

use vstd::prelude::*;

use crate::correlation::LoginRequests;
use crate::ids::{parse_uuid, random_uuid, uuid_parse};
use crate::model::{OidcState, PendingAction, UserId};

verus! {

/// The query parameters of the identity provider's redirect.
pub struct LoginCallback {
    pub error: Option<String>,
    pub error_description: Option<String>,
    pub state: Option<String>,
    pub code: Option<String>,
    pub iss: Option<String>,
}

/// Why a login or a session lookup failed.
#[derive(Debug, Clone, PartialEq, Eq)]
pub enum AuthError {
    MissingIssuer,
    OidcProviderError(String),
    MissingState,
    UnknownOrReplayedState,
    InvalidFlow,
    TokenExchangeFailure,
    TokenValidationFailure,
    UserinfoFetchFailure,
    IntrospectionFailure,
    InactiveOrExpiredToken,
}

/// A callback that passed its checks: the code to exchange, and the action
/// that the consumed login attempt carried.
pub struct PendingLogin {
    pub code: String,
    pub action: Option<PendingAction>,
}

/// What the validation of the identity token found.
#[derive(Debug, Clone, Copy, PartialEq, Eq, Structural)]
pub enum IdTokenStatus {
    Missing,
    Rejected,
    Accepted,
}

/// The answer to the code exchange: the access token, and the verdict on the
/// identity token that came with it.
pub struct TokenGrant {
    pub access_token: String,
    pub id_token: IdTokenStatus,
}

/// A login whose code was exchanged for a valid credential.
pub struct GrantedLogin {
    pub access_token: String,
    pub action: Option<PendingAction>,
}

/// The claims document of the user-info endpoint, as far as it is read.
pub struct UserInfo {
    pub subject: Option<String>,
}

/// A login whose user is known.
pub struct IdentifiedLogin {
    pub user_id: UserId,
    pub access_token: String,
    pub action: Option<PendingAction>,
}

/// The answer to a token introspection; `exp` is a Unix time in seconds.
#[derive(Debug, Clone, Copy, PartialEq, Eq, Structural)]
pub struct Introspection {
    pub active: bool,
    pub exp: Option<i64>,
}

/// The token that the callback's `state` names, read as a UUID.
pub open spec fn parsed_state(cb: LoginCallback) -> Option<u128> {
    match cb.state {
        Some(s) => uuid_parse(s@),
        None => None,
    }
}

/// The outcome of the callback checks against the attempts in flight, given
/// the token read from `state`.
pub open spec fn callback_outcome(
    cb: LoginCallback,
    parsed: Option<u128>,
    reqs: Map<u128, OidcState>,
) -> Result<PendingLogin, AuthError> {
    if cb.iss is None {
        Err(AuthError::MissingIssuer)
    } else if cb.error is Some {
        Err(AuthError::OidcProviderError(cb.error->0))
    } else if cb.state is None {
        Err(AuthError::MissingState)
    } else if parsed is None || !reqs.contains_key(parsed->0) {
        Err(AuthError::UnknownOrReplayedState)
    } else if cb.code is None {
        Err(AuthError::InvalidFlow)
    } else {
        Ok(PendingLogin { code: cb.code->0, action: reqs[parsed->0].action })
    }
}

/// The attempts in flight after the callback checks: the attempt is consumed
/// once the state is found, whatever follows.
pub open spec fn requests_after_callback(
    cb: LoginCallback,
    parsed: Option<u128>,
    reqs: Map<u128, OidcState>,
) -> Map<u128, OidcState> {
    if cb.iss is Some && cb.error is None && cb.state is Some && parsed is Some
        && reqs.contains_key(parsed->0) {
        reqs.remove(parsed->0)
    } else {
        reqs
    }
}

/// The UUID that the subject of a user-info answer reads as.
pub open spec fn parsed_subject(userinfo: Option<UserInfo>) -> Option<u128> {
    match userinfo {
        Some(UserInfo { subject: Some(s) }) => uuid_parse(s@),
        _ => None,
    }
}

/// The outcome of the code exchange.
pub open spec fn grant_outcome(login: PendingLogin, grant: Option<TokenGrant>) -> Result<
    GrantedLogin,
    AuthError,
> {
    match grant {
        None => Err(AuthError::TokenExchangeFailure),
        Some(g) => if g.id_token == IdTokenStatus::Accepted {
            Ok(GrantedLogin { access_token: g.access_token, action: login.action })
        } else {
            Err(AuthError::TokenValidationFailure)
        },
    }
}

/// The user of a login: the UUID that the subject claim reads as, or else
/// `fallback`.
pub open spec fn identify_outcome(
    login: GrantedLogin,
    userinfo: Option<UserInfo>,
    parsed: Option<u128>,
    fallback: u128,
) -> Result<IdentifiedLogin, AuthError> {
    match userinfo {
        Some(UserInfo { subject: Some(_) }) => Ok(
            IdentifiedLogin {
                user_id: UserId(
                    match parsed {
                        Some(u) => u,
                        None => fallback,
                    },
                ),
                access_token: login.access_token,
                action: login.action,
            },
        ),
        _ => Err(AuthError::UserinfoFetchFailure),
    }
}

/// The remaining validity, in seconds, that an introspection answer grants at
/// time `now`, or the error it ends the session with. A token reported
/// inactive before its expiry is refused, and so is one whose expiry has
/// passed, since no validity is left to grant.
pub open spec fn validity_verdict(i: Option<Introspection>, now: i64) -> Result<u64, AuthError> {
    match i {
        None => Err(AuthError::IntrospectionFailure),
        Some(Introspection { exp: None, .. }) => Err(AuthError::IntrospectionFailure),
        Some(Introspection { active, exp: Some(e) }) => if (!active && e > now) || e < now {
            Err(AuthError::InactiveOrExpiredToken)
        } else {
            Ok((e - now) as u64)
        },
    }
}

impl LoginRequests {
    /// Checks a callback and consumes the login attempt its `state` names,
    /// given the token that `state` reads as.
    pub fn begin_callback_parsed(&mut self, cb: LoginCallback, parsed: Option<u128>) -> (r: Result<
        PendingLogin,
        AuthError,
    >)
        ensures
            r == callback_outcome(cb, parsed, old(self)@),
            final(self)@ == requests_after_callback(cb, parsed, old(self)@),
    {
        if cb.iss.is_none() {
            return Err(AuthError::MissingIssuer);
        }
        if let Some(error) = cb.error {
            return Err(AuthError::OidcProviderError(error));
        }
        if cb.state.is_none() {
            return Err(AuthError::MissingState);
        }
        let token = match parsed {
            Some(t) => t,
            None => {
                return Err(AuthError::UnknownOrReplayedState);
            },
        };
        let state = match self.take(token) {
            Some(s) => s,
            None => {
                return Err(AuthError::UnknownOrReplayedState);
            },
        };
        match cb.code {
            Some(code) => Ok(PendingLogin { code, action: state.action }),
            None => Err(AuthError::InvalidFlow),
        }
    }

    /// Checks a callback and consumes the login attempt its `state` names.
    pub fn begin_callback(&mut self, cb: LoginCallback) -> (r: Result<PendingLogin, AuthError>)
        ensures
            r == callback_outcome(cb, parsed_state(cb), old(self)@),
            final(self)@ == requests_after_callback(cb, parsed_state(cb), old(self)@),
    {
        let parsed = match &cb.state {
            Some(s) => parse_uuid(s.as_str()),
            None => None,
        };
        self.begin_callback_parsed(cb, parsed)
    }
}

impl PendingLogin {
    /// Takes the answer to the code exchange; `None` when the request failed.
    pub fn accept_grant(self, grant: Option<TokenGrant>) -> (r: Result<GrantedLogin, AuthError>)
        ensures
            r == grant_outcome(self, grant),
    {
        match grant {
            None => Err(AuthError::TokenExchangeFailure),
            Some(g) => match g.id_token {
                IdTokenStatus::Accepted => Ok(
                    GrantedLogin { access_token: g.access_token, action: self.action },
                ),
                _ => Err(AuthError::TokenValidationFailure),
            },
        }
    }
}

impl GrantedLogin {
    /// Takes the user-info answer, the UUID its subject reads as, and the
    /// identity to use when it reads as none.
    pub fn identify_with(self, userinfo: Option<UserInfo>, parsed: Option<u128>, fallback: u128) -> (r:
        Result<IdentifiedLogin, AuthError>)
        ensures
            r == identify_outcome(self, userinfo, parsed, fallback),
    {
        match userinfo {
            Some(UserInfo { subject: Some(_) }) => {
                let id = match parsed {
                    Some(u) => u,
                    None => fallback,
                };
                Ok(
                    IdentifiedLogin {
                        user_id: UserId(id),
                        access_token: self.access_token,
                        action: self.action,
                    },
                )
            },
            _ => Err(AuthError::UserinfoFetchFailure),
        }
    }

    /// Takes the user-info answer; `None` when the request failed. A subject
    /// that is no UUID gives the user a fresh random identity.
    pub fn identify(self, userinfo: Option<UserInfo>) -> (r: Result<IdentifiedLogin, AuthError>)
        ensures
            exists|fallback: u128|
                r == #[trigger] identify_outcome(self, userinfo, parsed_subject(userinfo), fallback),
    {
        let parsed = match &userinfo {
            Some(UserInfo { subject: Some(s) }) => parse_uuid(s.as_str()),
            _ => None,
        };
        let fallback = match parsed {
            Some(_) => 0,
            None => random_uuid(),
        };
        self.identify_with(userinfo, parsed, fallback)
    }
}

/// The remaining validity that an introspection answer grants at `now`.
pub fn validity(i: Option<Introspection>, now: i64) -> (r: Result<u64, AuthError>)
    ensures
        r == validity_verdict(i, now),
{
    match i {
        None => Err(AuthError::IntrospectionFailure),
        Some(Introspection { active, exp }) => match exp {
            None => Err(AuthError::IntrospectionFailure),
            Some(e) => {
                if (!active && e > now) || e < now {
                    Err(AuthError::InactiveOrExpiredToken)
                } else {
                    Ok((e as i128 - now as i128) as u64)
                }
            },
        },
    }
}

} // verus!
