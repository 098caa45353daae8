//! Properties of the authentication core that relate several operations.

use vstd::prelude::*;

use crate::correlation::taken;
use crate::flow::{
    callback_outcome, grant_outcome, identify_outcome, parsed_subject, requests_after_callback,
    validity_verdict, AuthError, IdTokenStatus, Introspection, LoginCallback, TokenGrant,
    UserInfo,
};
use crate::ids::{is_uuid_text, uuid_parse};
use crate::model::{OidcState, PendingAction, SessionView};
use crate::navigation::{next_action, RequestMethod};
use crate::sessions::{lookup_class, new_session, LookupClass, HEALTH_CHECK_INTERVAL};

verus! {

/// A correlation token answers once: the first `take` after filing a state
/// returns that state, and a second `take` of the same token finds nothing.
pub proof fn lemma_token_answers_once(reqs: Map<u128, OidcState>, t: u128, s: OidcState)
    ensures
        taken(reqs.insert(t, s), t) == Some(s),
        taken(reqs.insert(t, s).remove(t), t) is None,
{
}

/// Each login attempt gets a token of its own: a token drawn while the first
/// attempt is in flight differs from the first, and both attempts keep their
/// states.
pub proof fn lemma_issued_tokens_differ(
    reqs: Map<u128, OidcState>,
    t1: u128,
    s1: OidcState,
    t2: u128,
    s2: OidcState,
)
    requires
        !reqs.contains_key(t1),
        !reqs.insert(t1, s1).contains_key(t2),
    ensures
        t1 != t2,
        reqs.insert(t1, s1).insert(t2, s2)[t1] == s1,
        reqs.insert(t1, s1).insert(t2, s2)[t2] == s2,
{
}

/// A callback that was accepted cannot be replayed: the same callback on the
/// attempts left afterwards fails with `UnknownOrReplayedState`.
pub proof fn lemma_callback_not_replayable(
    cb: LoginCallback,
    parsed: Option<u128>,
    reqs: Map<u128, OidcState>,
)
    requires
        callback_outcome(cb, parsed, reqs) is Ok,
    ensures
        callback_outcome(cb, parsed, requests_after_callback(cb, parsed, reqs))
            == Err::<crate::flow::PendingLogin, AuthError>(AuthError::UnknownOrReplayedState),
{
}

/// The identity of a login follows from its subject claim alone: subjects of
/// the same text give the same identity, and subjects that name different
/// UUIDs give different identities.
pub proof fn lemma_identity_follows_subject(
    g1: crate::flow::GrantedLogin,
    g2: crate::flow::GrantedLogin,
    s1: String,
    s2: String,
    fallback1: u128,
    fallback2: u128,
)
    requires
        uuid_parse(s1@) is Some,
        uuid_parse(s2@) is Some,
    ensures
        ({
            let u1 = Some(UserInfo { subject: Some(s1) });
            let u2 = Some(UserInfo { subject: Some(s2) });
            let r1 = identify_outcome(g1, u1, parsed_subject(u1), fallback1);
            let r2 = identify_outcome(g2, u2, parsed_subject(u2), fallback2);
            &&& r1 is Ok && r2 is Ok
            &&& s1@ == s2@ ==> r1->Ok_0.user_id == r2->Ok_0.user_id
            &&& uuid_parse(s1@) != uuid_parse(s2@) ==> r1->Ok_0.user_id != r2->Ok_0.user_id
        }),
{
}

/// Within the health-check interval, and before its validity ends, every
/// lookup of a record finds it current: no introspection is made.
pub proof fn lemma_current_within_interval(s: SessionView, now1: i64, now2: i64)
    requires
        s.last_health_check <= now1 <= now2,
        now2 - s.last_health_check < HEALTH_CHECK_INTERVAL,
        now2 - s.last_health_check < s.expiration,
    ensures
        lookup_class(s, now1) == LookupClass::Current,
        lookup_class(s, now2) == LookupClass::Current,
{
}

/// Once the health-check interval has passed, a valid record is stale, and
/// one introspection decides it; if that reports the token inactive before its
/// expiry, the record is evicted under its own identity, which is the key it
/// was found under, so that the next lookup finds nothing and no other record
/// changes.
pub proof fn lemma_inactive_token_ends_session(
    sessions: Map<u128, SessionView>,
    k: u128,
    exp: i64,
    now: i64,
)
    requires
        forall|j: u128| #[trigger] sessions.contains_key(j) ==> sessions[j].id == j,
        sessions.contains_key(k),
        now - sessions[k].last_health_check >= HEALTH_CHECK_INTERVAL,
        now - sessions[k].last_health_check < sessions[k].expiration,
        exp > now,
    ensures
        lookup_class(sessions[k], now) == LookupClass::Stale,
        validity_verdict(Some(Introspection { active: false, exp: Some(exp) }), now) == Err::<
            u64,
            AuthError,
        >(AuthError::InactiveOrExpiredToken),
        sessions.remove(sessions[k].id) == sessions.remove(k),
        !sessions.remove(sessions[k].id).contains_key(k),
{
}

/// The path of a note, written with the note's UUID text, names that note:
/// its toggles check and uncheck it.
pub proof fn lemma_note_path_names_note(id: u128, text: Seq<char>, method: RequestMethod, note: String)
    requires
        is_uuid_text(text),
        uuid_parse(text) == Some(id),
    ensures
        next_action("/note/"@ + text + "/:check"@, method, note) == Some(
            PendingAction::CheckNote(id),
        ),
        next_action("/note/"@ + text + "/:uncheck"@, method, note) == Some(
            PendingAction::UncheckNote(id),
        ),
{
    reveal_strlit("/note/");
    reveal_strlit("/:check");
    reveal_strlit("/:uncheck");
    let c = "/note/"@ + text + "/:check"@;
    let u = "/note/"@ + text + "/:uncheck"@;
    assert(c.subrange(0, 6) =~= "/note/"@);
    assert(c.subrange(6, 42) =~= text);
    assert(c.subrange(42, c.len() as int) =~= "/:check"@);
    assert(u.subrange(0, 6) =~= "/note/"@);
    assert(u.subrange(6, 42) =~= text);
    assert(u.subrange(42, u.len() as int) =~= "/:uncheck"@);
    assert("/:uncheck"@ != "/:check"@) by {
        assert("/:uncheck"@.len() != "/:check"@.len());
    }
}

/// A login that begins with a pending action and completes through the
/// matching callback yields a session that carries the same action.
pub proof fn lemma_pending_action_round_trip(
    reqs: Map<u128, OidcState>,
    t: u128,
    state: OidcState,
    cb: LoginCallback,
    grant: TokenGrant,
    userinfo: UserInfo,
    fallback: u128,
    introspection: Introspection,
    now: i64,
)
    requires
        cb.iss is Some,
        cb.error is None,
        cb.code is Some,
        cb.state matches Some(s) && uuid_parse(s@) == Some(t),
        grant.id_token == IdTokenStatus::Accepted,
        userinfo.subject is Some,
        validity_verdict(Some(introspection), now) is Ok,
    ensures
        ({
            let pending = callback_outcome(cb, Some(t), reqs.insert(t, state));
            let granted = grant_outcome(pending->Ok_0, Some(grant));
            let identified = identify_outcome(
                granted->Ok_0,
                Some(userinfo),
                parsed_subject(Some(userinfo)),
                fallback,
            );
            let v = validity_verdict(Some(introspection), now)->Ok_0;
            &&& pending is Ok
            &&& granted is Ok
            &&& identified is Ok
            &&& new_session(identified->Ok_0, v, now).pending_action == state.action
        }),
{
}

} // verus!
