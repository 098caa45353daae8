//! One-time tokens that tie a login callback to the attempt that began it.

use std::collections::HashMap;

use vstd::prelude::*;

use crate::ids::{random_uuid, uuid_parse, uuid_text, uuid_to_text};
use crate::model::OidcState;

verus! {

broadcast use vstd::std_specs::hash::group_hash_axioms;

/// How many random tokens a login attempt draws at most before it gives up.
pub const TOKEN_DRAWS: usize = 8;

/// What answering `token` returns from the attempts `reqs`.
pub open spec fn taken(reqs: Map<u128, OidcState>, token: u128) -> Option<OidcState> {
    if reqs.contains_key(token) {
        Some(reqs[token])
    } else {
        None
    }
}

/// The login attempts in flight, each under its correlation token.
pub struct LoginRequests {
    requests: HashMap<u128, OidcState>,
}

impl View for LoginRequests {
    type V = Map<u128, OidcState>;

    closed spec fn view(&self) -> Map<u128, OidcState> {
        self.requests@
    }
}

impl LoginRequests {
    /// A store with no attempt in flight.
    pub fn new() -> (r: LoginRequests)
        ensures
            r@ == Map::<u128, OidcState>::empty(),
    {
        LoginRequests { requests: HashMap::new() }
    }

    /// Files `state` under `token`, replacing what the token held before.
    pub fn put(&mut self, token: u128, state: OidcState)
        ensures
            final(self)@ == old(self)@.insert(token, state),
    {
        self.requests.insert(token, state);
    }

    /// Files `state` under `token` if no attempt holds that token yet, and
    /// tells whether it did.
    pub fn put_fresh(&mut self, token: u128, state: OidcState) -> (r: bool)
        ensures
            r == !old(self)@.contains_key(token),
            r ==> final(self)@ == old(self)@.insert(token, state),
            !r ==> final(self)@ == old(self)@,
    {
        if self.contains(token) {
            false
        } else {
            self.put(token, state);
            true
        }
    }

    /// Files `state` under a random token that no attempt holds yet, and
    /// returns the token; `None`, with nothing filed, when every one of
    /// `TOKEN_DRAWS` random draws hit a token in use.
    pub fn issue(&mut self, state: OidcState) -> (r: Option<u128>)
        ensures
            r matches Some(t) ==> {
                &&& !old(self)@.contains_key(t)
                &&& final(self)@ == old(self)@.insert(t, state)
            },
            r is None ==> final(self)@ == old(self)@,
    {
        let mut draws: usize = 0;
        while draws < TOKEN_DRAWS
            invariant
                self@ == old(self)@,
            decreases TOKEN_DRAWS - draws,
        {
            let token = random_uuid();
            if !self.contains(token) {
                self.put(token, state);
                return Some(token);
            }
            draws = draws + 1;
        }
        None
    }

    /// Files `state` under a random token that no attempt holds yet, and
    /// returns the token's text, the `state` value that the identity provider
    /// echoes back; `None`, with nothing filed, when no unused token was drawn.
    pub fn issue_text(&mut self, state: OidcState) -> (r: Option<String>)
        ensures
            r matches Some(text) ==> exists|t: u128| {
                &&& #[trigger] uuid_text(t) == text@
                &&& uuid_parse(text@) == Some(t)
                &&& !old(self)@.contains_key(t)
                &&& final(self)@ == old(self)@.insert(t, state)
            },
            r is None ==> final(self)@ == old(self)@,
    {
        match self.issue(state) {
            Some(token) => Some(uuid_to_text(token)),
            None => None,
        }
    }

    /// Removes the attempt under `token` and returns its state; a token is
    /// answered at most once.
    pub fn take(&mut self, token: u128) -> (r: Option<OidcState>)
        ensures
            final(self)@ == old(self)@.remove(token),
            r == taken(old(self)@, token),
    {
        self.requests.remove(&token)
    }

    /// Whether an attempt is filed under `token`.
    pub fn contains(&self, token: u128) -> (r: bool)
        ensures
            r == self@.contains_key(token),
    {
        self.requests.contains_key(&token)
    }
}

} // verus!
