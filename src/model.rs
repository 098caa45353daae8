//! The values that the authentication core and the rest of the service share.

use vstd::prelude::*;

use crate::ids::{is_uuid_text, uuid_parse, uuid_text, uuid_to_text};

verus! {

/// The identity of an authenticated principal, as a 128-bit UUID value.
#[derive(Debug, Clone, Copy, PartialEq, Eq, Structural, PartialOrd, Ord, Hash)]
pub struct UserId(pub u128);

impl UserId {
    /// The hyphenated lower-case UUID text of this identity.
    pub fn to_text(&self) -> (r: String)
        ensures
            r@ == uuid_text(self.0),
            r@.len() == 36,
            is_uuid_text(r@),
            uuid_parse(r@) == Some(self.0),
    {
        uuid_to_text(self.0)
    }
}

/// A note of the service, identified by a 128-bit UUID value.
#[derive(Debug, Clone)]
pub struct Note {
    pub id: u128,
    pub owner: UserId,
    pub content: String,
    pub checked: bool,
}

/// A user account of the service.
#[derive(Debug, Clone)]
pub struct User {
    pub id: UserId,
    pub username: String,
    pub password: String,
}

/// A write on a note, captured when a login begins and replayed once it succeeds.
#[derive(Debug, Clone, PartialEq, Eq)]
pub enum PendingAction {
    CheckNote(u128),
    UncheckNote(u128),
    EditNote(u128, String),
    DeleteNote(u128),
    CreateNote(String),
}

impl PendingAction {
    /// A copy of this action.
    pub fn duplicate(&self) -> (r: PendingAction)
        ensures
            r == *self,
    {
        match self {
            PendingAction::CheckNote(id) => PendingAction::CheckNote(*id),
            PendingAction::UncheckNote(id) => PendingAction::UncheckNote(*id),
            PendingAction::EditNote(id, content) => PendingAction::EditNote(*id, content.clone()),
            PendingAction::DeleteNote(id) => PendingAction::DeleteNote(*id),
            PendingAction::CreateNote(content) => PendingAction::CreateNote(content.clone()),
        }
    }
}

/// The client-side signals that a login request may carry.
#[derive(Debug, Clone)]
pub struct ApplicationSignals {
    pub note: String,
}

/// The state attached to one login attempt until its callback arrives.
#[derive(Debug, Clone)]
pub struct OidcState {
    pub action: Option<PendingAction>,
}

impl Default for OidcState {
    /// A login attempt with no pending action.
    fn default() -> (r: OidcState)
        ensures
            r.action is None,
    {
        OidcState { action: None }
    }
}

/// The mathematical value of a session record.
pub ghost struct SessionView {
    pub id: u128,
    pub access_token: Seq<char>,
    pub access_token_hash: Seq<u8>,
    pub pending_action: Option<PendingAction>,
    pub expiration: u64,
    pub last_health_check: i64,
}

/// Who is logged in, with the credential that revalidates the session.
///
/// `expiration` is the remaining validity of the access token, in seconds, as
/// of `last_health_check`, a Unix time in seconds.
#[derive(Clone)]
pub struct SessionUser {
    pub id: UserId,
    pub access_token: String,
    pub access_token_hash: Vec<u8>,
    pub pending_action: Option<PendingAction>,
    pub expiration: u64,
    pub last_health_check: i64,
}

impl View for SessionUser {
    type V = SessionView;

    open spec fn view(&self) -> SessionView {
        SessionView {
            id: self.id.0,
            access_token: self.access_token@,
            access_token_hash: self.access_token_hash@,
            pending_action: self.pending_action,
            expiration: self.expiration,
            last_health_check: self.last_health_check,
        }
    }
}

impl SessionUser {
    /// The identity this session belongs to.
    pub fn id(&self) -> (r: UserId)
        ensures
            r == self.id,
    {
        self.id
    }

    /// The digest that binds a client's session cookie to the credential.
    pub fn session_auth_hash(&self) -> (r: &[u8])
        ensures
            r@ == self.access_token_hash@,
    {
        self.access_token_hash.as_slice()
    }

    /// The validity that the record was given when it was last validated.
    pub fn expire_after_create(&self) -> (r: u64)
        ensures
            r == self.expiration,
    {
        self.expiration
    }

    /// A copy of this record.
    pub fn duplicate(&self) -> (r: SessionUser)
        ensures
            r@ == self@,
    {
        let pending_action = match &self.pending_action {
            Some(a) => Some(a.duplicate()),
            None => None,
        };
        let mut access_token_hash: Vec<u8> = Vec::new();
        let mut i: usize = 0;
        while i < self.access_token_hash.len()
            invariant
                i <= self.access_token_hash@.len(),
                access_token_hash@ == self.access_token_hash@.subrange(0, i as int),
            decreases self.access_token_hash@.len() - i,
        {
            access_token_hash.push(self.access_token_hash[i]);
            i = i + 1;
        }
        assert(access_token_hash@ =~= self.access_token_hash@);
        SessionUser {
            id: self.id,
            access_token: self.access_token.clone(),
            access_token_hash,
            pending_action,
            expiration: self.expiration,
            last_health_check: self.last_health_check,
        }
    }

    /// Hands out the pending action, which the record then no longer holds.
    pub fn take_pending_action(&mut self) -> (r: Option<PendingAction>)
        ensures
            r == old(self).pending_action,
            final(self)@ == (SessionView { pending_action: None, ..old(self)@ }),
    {
        self.pending_action.take()
    }
}

} // verus!
