//! The authentication backend: login attempts in flight, and the cache of
//! authenticated sessions with its revalidation rules.

use vstd::prelude::*;

use crate::correlation::LoginRequests;
use crate::flow::{
    callback_outcome, parsed_state, requests_after_callback, validity, validity_verdict,
    AuthError, IdentifiedLogin, Introspection, LoginCallback, PendingLogin,
};
use crate::ids::{digest_token, token_digest, uuid_parse, uuid_text};
use crate::model::{OidcState, SessionUser, SessionView, UserId};

verus! {

#[verifier::external_type_specification]
#[verifier::external_body]
#[verifier::reject_recursive_types(K)]
#[verifier::reject_recursive_types(V)]
#[verifier::reject_recursive_types(S)]
pub struct ExCache<K, V, S>(moka::sync::Cache<K, V, S>);

/// The records of a session cache under each identity, as inserted and not
/// removed since. The cache may also drop a record by itself (when it is full,
/// or when the record sat unused for its idle time): a lookup then misses it.
pub uninterp spec fn cached_sessions(c: moka::sync::Cache<u128, SessionUser>) -> Map<u128, SessionView>;

/// The settings a session cache was built with: initial capacity, maximum
/// capacity, and idle time in seconds.
pub uninterp spec fn cache_settings(c: moka::sync::Cache<u128, SessionUser>) -> (usize, u64, u64);

/// Relies on `moka::sync::CacheBuilder`: `build` makes an empty cache with the
/// settings given, and panics on an idle time over 1000 years.
#[verifier::external_body]
fn build_session_cache(
    initial_capacity: usize,
    max_capacity: u64,
    idle_secs: u64,
) -> (r: moka::sync::Cache<u128, SessionUser>)
    requires
        idle_secs <= 1000 * (365 * 24 * 3600),
    ensures
        cached_sessions(r) =~= Map::empty(),
        cache_settings(r) == (initial_capacity, max_capacity, idle_secs),
{
    moka::sync::Cache::builder().initial_capacity(initial_capacity).max_capacity(
        max_capacity,
    ).time_to_idle(std::time::Duration::from_secs(idle_secs)).build()
}

/// Relies on `moka::sync::Cache::get`: a clone of the value last inserted
/// under the key, or `None` once it was removed or dropped; the settings stay.
#[verifier::external_body]
fn cache_get(c: &mut moka::sync::Cache<u128, SessionUser>, k: u128) -> (r: Option<SessionUser>)
    ensures
        cached_sessions(*final(c)) == cached_sessions(*old(c)),
        cache_settings(*final(c)) == cache_settings(*old(c)),
        r matches Some(v) ==> {
            &&& cached_sessions(*old(c)).contains_key(k)
            &&& v@ == cached_sessions(*old(c))[k]
        },
{
    c.get(&k)
}

/// Relies on `moka::sync::Cache::insert`: the value replaces what the key
/// held; the settings stay.
#[verifier::external_body]
fn cache_insert(c: &mut moka::sync::Cache<u128, SessionUser>, k: u128, v: SessionUser)
    ensures
        cached_sessions(*final(c)) == cached_sessions(*old(c)).insert(k, v@),
        cache_settings(*final(c)) == cache_settings(*old(c)),
{
    c.insert(k, v)
}

/// Relies on `moka::sync::Cache::invalidate`: the key holds nothing
/// afterwards; the settings stay.
#[verifier::external_body]
fn cache_remove(c: &mut moka::sync::Cache<u128, SessionUser>, k: u128)
    ensures
        cached_sessions(*final(c)) == cached_sessions(*old(c)).remove(k),
        cache_settings(*final(c)) == cache_settings(*old(c)),
{
    c.invalidate(&k)
}

/// How many sessions the cache makes room for at first.
pub const SESSION_INITIAL_CAPACITY: usize = 100;

/// How many sessions the cache holds at most.
pub const SESSION_MAX_CAPACITY: u64 = 64_000;

/// After how many seconds unused a session is dropped, whatever its validity.
pub const SESSION_IDLE_SECS: u64 = 900;

/// How many seconds a validated session is trusted without asking the
/// identity provider again.
pub const HEALTH_CHECK_INTERVAL: i64 = 10;

/// The settings of the identity-provider client.
pub struct OidcConfig {
    pub client_id: String,
    pub client_secret: String,
    pub issuer_url: String,
    pub redirect_url: String,
    pub scopes: Vec<String>,
}

/// The words of a scope list, separated by single spaces.
pub open spec fn joined(parts: Seq<Seq<char>>) -> Seq<char>
    decreases parts.len(),
{
    if parts.len() == 0 {
        Seq::empty()
    } else if parts.len() == 1 {
        parts[0]
    } else {
        joined(parts.drop_last()) + seq![' '] + parts.last()
    }
}

/// The texts of a list of strings.
pub open spec fn texts(v: Seq<String>) -> Seq<Seq<char>> {
    v.map_values(|s: String| s@)
}

/// Joins the scopes of a request with single spaces.
pub fn join_scopes(scopes: &Vec<String>) -> (r: String)
    ensures
        r@ == joined(texts(scopes@)),
{
    let mut acc = String::new();
    let mut i: usize = 0;
    while i < scopes.len()
        invariant
            i <= scopes@.len(),
            acc@ == joined(texts(scopes@.subrange(0, i as int))),
        decreases scopes@.len() - i,
    {
        let ghost before = texts(scopes@.subrange(0, i as int));
        let ghost after = texts(scopes@.subrange(0, i as int + 1));
        proof {
            reveal_strlit(" ");
        }
        assert(after.len() == i + 1);
        assert(after.drop_last() =~= before);
        assert(after.last() == scopes@[i as int]@);
        if i > 0 {
            acc.append(" ");
        }
        acc.append(scopes[i].as_str());
        assert(acc@ =~= joined(after));
        i = i + 1;
    }
    assert(scopes@.subrange(0, scopes@.len() as int) =~= scopes@);
    acc
}

/// A session record is past its validity at `now`.
pub open spec fn is_expired(s: SessionView, now: i64) -> bool {
    now - s.last_health_check >= s.expiration
}

/// A session record was validated less than the health-check interval before `now`.
pub open spec fn is_fresh(s: SessionView, now: i64) -> bool {
    now - s.last_health_check < HEALTH_CHECK_INTERVAL
}

/// How a lookup at `now` treats a cached record.
pub enum LookupClass {
    Expired,
    Current,
    Stale,
}

/// How a lookup at `now` treats the cached record `s`.
pub open spec fn lookup_class(s: SessionView, now: i64) -> LookupClass {
    if is_expired(s, now) {
        LookupClass::Expired
    } else if is_fresh(s, now) {
        LookupClass::Current
    } else {
        LookupClass::Stale
    }
}

/// The record that a completed login creates at `now`.
pub open spec fn new_session(login: IdentifiedLogin, validity: u64, now: i64) -> SessionView {
    SessionView {
        id: login.user_id.0,
        access_token: login.access_token@,
        access_token_hash: token_digest(login.access_token@),
        pending_action: login.action,
        expiration: validity,
        last_health_check: now,
    }
}

/// The record that a successful revalidation at `now` puts in place of `s`.
pub open spec fn revalidated(s: SessionView, validity: u64, now: i64) -> SessionView {
    SessionView { expiration: validity, last_health_check: now, ..s }
}

/// What the cache answers for an identity.
pub enum SessionLookup {
    /// No valid record: the user is not logged in.
    Absent,
    /// A record validated within the health-check interval: it can be trusted.
    Current(SessionUser),
    /// A record that must be introspected before it is trusted.
    Stale(SessionUser),
}

/// How a lookup at `now` answers when the cache returned `found`.
pub fn classify_lookup(found: Option<SessionUser>, now: i64) -> (r: SessionLookup)
    ensures
        found is None ==> r is Absent,
        found matches Some(u) ==> {
            &&& lookup_class(u@, now) == LookupClass::Expired ==> r is Absent
            &&& lookup_class(u@, now) == LookupClass::Current ==> r == SessionLookup::Current(u)
            &&& lookup_class(u@, now) == LookupClass::Stale ==> r == SessionLookup::Stale(u)
        },
{
    match found {
        None => SessionLookup::Absent,
        Some(u) => {
            let since = now as i128 - u.last_health_check as i128;
            if since >= u.expiration as i128 {
                SessionLookup::Absent
            } else if since < HEALTH_CHECK_INTERVAL as i128 {
                SessionLookup::Current(u)
            } else {
                SessionLookup::Stale(u)
            }
        },
    }
}

/// The authentication backend.
pub struct OidcAuthBackend {
    scopes: String,
    users: moka::sync::Cache<u128, SessionUser>,
    login_requests: LoginRequests,
}

impl OidcAuthBackend {
    /// The session records, by identity.
    pub closed spec fn sessions(&self) -> Map<u128, SessionView> {
        cached_sessions(self.users)
    }

    /// The login attempts in flight, by correlation token.
    pub closed spec fn requests(&self) -> Map<u128, OidcState> {
        self.login_requests@
    }

    /// The settings the session cache was built with.
    pub closed spec fn settings(&self) -> (usize, u64, u64) {
        cache_settings(self.users)
    }

    /// Each record is cached under its own identity, and the cache has the
    /// service's settings.
    pub open spec fn wf(&self) -> bool {
        &&& forall|k: u128| #[trigger]
            self.sessions().contains_key(k) ==> self.sessions()[k].id == k
        &&& self.settings() == (SESSION_INITIAL_CAPACITY, SESSION_MAX_CAPACITY, SESSION_IDLE_SECS)
    }

    /// The scope list sent with each authorization request.
    pub closed spec fn scope_text(&self) -> Seq<char> {
        self.scopes@
    }

    /// A backend with no session and no login in flight.
    pub fn new(config: &OidcConfig) -> (r: OidcAuthBackend)
        ensures
            r.sessions() == Map::<u128, SessionView>::empty(),
            r.requests() == Map::<u128, OidcState>::empty(),
            r.scope_text() == joined(texts(config.scopes@)),
            r.settings() == (SESSION_INITIAL_CAPACITY, SESSION_MAX_CAPACITY, SESSION_IDLE_SECS),
            r.wf(),
    {
        OidcAuthBackend {
            scopes: join_scopes(&config.scopes),
            users: build_session_cache(
                SESSION_INITIAL_CAPACITY,
                SESSION_MAX_CAPACITY,
                SESSION_IDLE_SECS,
            ),
            login_requests: LoginRequests::new(),
        }
    }

    /// The scope list, as one space-separated text.
    pub fn scopes(&self) -> (r: &str)
        ensures
            r@ == self.scope_text(),
    {
        self.scopes.as_str()
    }

    /// Opens a login attempt that carries `state` under a token no attempt
    /// holds yet, and returns the token as text, to be sent as the
    /// authorization request's `state`; `None`, with nothing opened, when no
    /// unused token was drawn.
    pub fn issue_login_state(&mut self, state: OidcState) -> (r: Option<String>)
        ensures
            r matches Some(text) ==> exists|t: u128| {
                &&& #[trigger] uuid_text(t) == text@
                &&& uuid_parse(text@) == Some(t)
                &&& !old(self).requests().contains_key(t)
                &&& final(self).requests() == old(self).requests().insert(t, state)
            },
            r is None ==> final(self).requests() == old(self).requests(),
            final(self).sessions() == old(self).sessions(),
            final(self).settings() == old(self).settings(),
            final(self).scope_text() == old(self).scope_text(),
    {
        self.login_requests.issue_text(state)
    }

    /// Checks a login callback and consumes the attempt it names.
    pub fn begin_callback(&mut self, cb: LoginCallback) -> (r: Result<PendingLogin, AuthError>)
        ensures
            r == callback_outcome(cb, parsed_state(cb), old(self).requests()),
            final(self).requests() == requests_after_callback(
                cb,
                parsed_state(cb),
                old(self).requests(),
            ),
            final(self).sessions() == old(self).sessions(),
            final(self).settings() == old(self).settings(),
            final(self).scope_text() == old(self).scope_text(),
    {
        self.login_requests.begin_callback(cb)
    }

    /// Ends a login with the introspection of its credential at `now`: on
    /// success the new session is cached under the user's identity and returned.
    pub fn establish(&mut self, login: IdentifiedLogin, introspection: Option<Introspection>, now: i64) -> (r:
        Result<SessionUser, AuthError>)
        requires
            old(self).wf(),
        ensures
            final(self).wf(),
            match validity_verdict(introspection, now) {
                Err(e) => {
                    &&& r == Err::<SessionUser, AuthError>(e)
                    &&& final(self).sessions() == old(self).sessions()
                },
                Ok(v) => {
                    &&& r is Ok
                    &&& r->Ok_0@ == new_session(login, v, now)
                    &&& final(self).sessions() == old(self).sessions().insert(
                        login.user_id.0,
                        new_session(login, v, now),
                    )
                },
            },
            final(self).requests() == old(self).requests(),
            final(self).scope_text() == old(self).scope_text(),
    {
        let remaining = match validity(introspection, now) {
            Ok(v) => v,
            Err(e) => {
                return Err(e);
            },
        };
        let access_token_hash = digest_token(login.access_token.as_str());
        let session = SessionUser {
            id: login.user_id,
            access_token: login.access_token,
            access_token_hash,
            pending_action: login.action,
            expiration: remaining,
            last_health_check: now,
        };
        cache_insert(&mut self.users, session.id.0, session.duplicate());
        Ok(session)
    }

    /// Looks up the session of `user_id` at `now`. A record past its validity
    /// is evicted; one validated within the health-check interval is current;
    /// any other must be revalidated with `finish_lookup`.
    pub fn begin_lookup(&mut self, user_id: UserId, now: i64) -> (r: SessionLookup)
        requires
            old(self).wf(),
        ensures
            final(self).wf(),
            !old(self).sessions().contains_key(user_id.0) ==> r is Absent,
            old(self).sessions().contains_key(user_id.0) && lookup_class(
                old(self).sessions()[user_id.0],
                now,
            ) == LookupClass::Expired ==> r is Absent,
            r is Absent ==> final(self).sessions() == old(self).sessions().remove(user_id.0),
            r matches SessionLookup::Current(u) ==> {
                &&& old(self).sessions().contains_key(user_id.0)
                &&& u@ == old(self).sessions()[user_id.0]
                &&& u.id == user_id
                &&& lookup_class(u@, now) == LookupClass::Current
                &&& final(self).sessions() == old(self).sessions()
            },
            r matches SessionLookup::Stale(u) ==> {
                &&& old(self).sessions().contains_key(user_id.0)
                &&& u@ == old(self).sessions()[user_id.0]
                &&& u.id == user_id
                &&& lookup_class(u@, now) == LookupClass::Stale
                &&& final(self).sessions() == old(self).sessions()
            },
            final(self).requests() == old(self).requests(),
            final(self).scope_text() == old(self).scope_text(),
    {
        let found = cache_get(&mut self.users, user_id.0);
        let r = classify_lookup(found, now);
        if let SessionLookup::Absent = r {
            cache_remove(&mut self.users, user_id.0);
        }
        r
    }

    /// Ends the revalidation of a stale record with the introspection of its
    /// credential at `now`: the record is renewed, or evicted with the error.
    pub fn finish_lookup(&mut self, user: SessionUser, introspection: Option<Introspection>, now: i64) -> (r:
        Result<SessionUser, AuthError>)
        requires
            old(self).wf(),
        ensures
            final(self).wf(),
            match validity_verdict(introspection, now) {
                Err(e) => {
                    &&& r == Err::<SessionUser, AuthError>(e)
                    &&& final(self).sessions() == old(self).sessions().remove(user.id.0)
                },
                Ok(v) => {
                    &&& r is Ok
                    &&& r->Ok_0@ == revalidated(user@, v, now)
                    &&& final(self).sessions() == old(self).sessions().insert(
                        user.id.0,
                        revalidated(user@, v, now),
                    )
                },
            },
            final(self).requests() == old(self).requests(),
            final(self).scope_text() == old(self).scope_text(),
    {
        match validity(introspection, now) {
            Err(e) => {
                cache_remove(&mut self.users, user.id.0);
                Err(e)
            },
            Ok(v) => {
                let mut renewed = user;
                renewed.expiration = v;
                renewed.last_health_check = now;
                cache_insert(&mut self.users, renewed.id.0, renewed.duplicate());
                Ok(renewed)
            },
        }
    }
}

} // verus!
