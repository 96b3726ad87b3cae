//! A typed view of one session: the identity fields `user_id` and
//! `username`, and what the session store must do with the session when the
//! request ends.
use crate::uuid_text::{format_uuid, parse_uuid, parsed_uuid, uuid_text};
use vstd::prelude::*;

verus! {

/// The key under which the session store keeps the user id.
pub const USER_ID_KEY: &'static str = "user_id";

/// The key under which the session store keeps the username.
pub const USERNAME_KEY: &'static str = "username";

/// What the session store must do with a session when the request ends.
#[derive(Debug, Clone, Copy, PartialEq, Eq, Structural)]
pub enum SessionStatus {
    /// Nothing changed.
    Unchanged,
    /// Fields changed; the identifier stays.
    Changed,
    /// Issue a new identifier, then store the fields under it.
    Renewed,
    /// Remove the session entirely.
    Purged,
}

/// A field that is present in the store but does not decode to its type.
#[derive(Debug, Clone, PartialEq, Eq)]
pub enum SessionError {
    /// The stored user id is not the text of a UUID.
    MalformedUserId(String),
}

/// The abstract state of a `TypedSession`: the raw text of each field, and
/// the status.
pub struct SessionView {
    pub user_id: Option<Seq<char>>,
    pub username: Option<Seq<char>>,
    pub status: SessionStatus,
}

/// The user id that a session holds: `Ok(None)` when absent, `Err(())` when
/// present but not the text of a UUID.
pub open spec fn decoded_user_id(v: SessionView) -> Result<Option<u128>, ()> {
    match v.user_id {
        None => Ok(None),
        Some(text) => match parsed_uuid(text) {
            Some(id) => Ok(Some(id)),
            None => Err(()),
        },
    }
}

/// The status after a field is written or removed.
pub open spec fn status_after_write(s: SessionStatus) -> SessionStatus {
    match s {
        SessionStatus::Unchanged => SessionStatus::Changed,
        SessionStatus::Changed => SessionStatus::Changed,
        // A purged session that is written again is a new session, so it
        // gets a new identifier.
        SessionStatus::Renewed => SessionStatus::Renewed,
        SessionStatus::Purged => SessionStatus::Renewed,
    }
}

/// The session of one request, as read from the session store. Fields hold
/// the text that the store keeps; reads decode it.
pub struct TypedSession {
    user_id: Option<String>,
    username: Option<String>,
    status: SessionStatus,
}

impl View for TypedSession {
    type V = SessionView;

    closed spec fn view(&self) -> SessionView {
        SessionView {
            user_id: match self.user_id {
                Some(t) => Some(t@),
                None => None,
            },
            username: match self.username {
                Some(t) => Some(t@),
                None => None,
            },
            status: self.status,
        }
    }
}

impl TypedSession {
    /// A session with no identity fields, as on first contact.
    pub fn anonymous() -> (r: TypedSession)
        ensures
            r@.user_id is None,
            r@.username is None,
            r@.status == SessionStatus::Unchanged,
    {
        TypedSession { user_id: None, username: None, status: SessionStatus::Unchanged }
    }

    /// A session as the store holds it: the raw text of each field.
    pub fn from_store(user_id: Option<String>, username: Option<String>) -> (r: TypedSession)
        ensures
            r@.user_id == (match user_id {
                Some(t) => Some(t@),
                None => None::<Seq<char>>,
            }),
            r@.username == (match username {
                Some(t) => Some(t@),
                None => None::<Seq<char>>,
            }),
            r@.status == SessionStatus::Unchanged,
    {
        TypedSession { user_id, username, status: SessionStatus::Unchanged }
    }

    /// The raw text of the user id, as the store is to keep it.
    pub fn stored_user_id(&self) -> (r: Option<String>)
        ensures
            r matches Some(t) ==> self@.user_id == Some(t@),
            r is None ==> self@.user_id is None,
    {
        match &self.user_id {
            Some(t) => Some(t.clone()),
            None => None,
        }
    }

    /// The raw text of the username, as the store is to keep it.
    pub fn stored_username(&self) -> (r: Option<String>)
        ensures
            r matches Some(t) ==> self@.username == Some(t@),
            r is None ==> self@.username is None,
    {
        match &self.username {
            Some(t) => Some(t.clone()),
            None => None,
        }
    }

    /// What the store must do with this session.
    pub fn status(&self) -> (r: SessionStatus)
        ensures
            r == self@.status,
    {
        self.status
    }

    /// The user id, decoded. A present field that does not decode is an
    /// error, never taken for an absent one.
    pub fn get_user_id(&self) -> (r: Result<Option<u128>, SessionError>)
        ensures
            match decoded_user_id(self@) {
                Ok(id) => r == Ok::<Option<u128>, SessionError>(id),
                Err(_) => r is Err,
            },
    {
        match &self.user_id {
            None => Ok(None),
            Some(text) => match parse_uuid(text.as_str()) {
                Ok(id) => Ok(Some(id)),
                Err(_) => Err(SessionError::MalformedUserId(text.clone())),
            },
        }
    }

    /// The username.
    pub fn get_username(&self) -> (r: Option<String>)
        ensures
            r matches Some(t) ==> self@.username == Some(t@),
            r is None ==> self@.username is None,
    {
        self.stored_username()
    }

    /// Writes the user id.
    pub fn insert_user_id(&mut self, id: u128)
        ensures
            final(self)@.user_id == Some(uuid_text(id)),
            decoded_user_id(final(self)@) == Ok::<Option<u128>, ()>(Some(id)),
            final(self)@.username == old(self)@.username,
            final(self)@.status == status_after_write(old(self)@.status),
    {
        self.user_id = Some(format_uuid(id));
        self.status = self.status_after_write();
    }

    /// Writes the username.
    pub fn insert_username(&mut self, name: String)
        ensures
            final(self)@.username == Some(name@),
            final(self)@.user_id == old(self)@.user_id,
            final(self)@.status == status_after_write(old(self)@.status),
    {
        self.username = Some(name);
        self.status = self.status_after_write();
    }

    /// Removes the user id.
    pub fn remove_user_id(&mut self)
        ensures
            final(self)@.user_id is None,
            final(self)@.username == old(self)@.username,
            final(self)@.status == status_after_write(old(self)@.status),
    {
        self.user_id = None;
        self.status = self.status_after_write();
    }

    /// Removes the username.
    pub fn remove_username(&mut self)
        ensures
            final(self)@.username is None,
            final(self)@.user_id == old(self)@.user_id,
            final(self)@.status == status_after_write(old(self)@.status),
    {
        self.username = None;
        self.status = self.status_after_write();
    }

    /// Asks the store for a new session identifier. The fields are kept:
    /// a caller that needs a clean session clears them first.
    pub fn renew(&mut self)
        ensures
            final(self)@.user_id == old(self)@.user_id,
            final(self)@.username == old(self)@.username,
            final(self)@.status == SessionStatus::Renewed,
    {
        self.status = SessionStatus::Renewed;
    }

    /// Removes the session entirely.
    pub fn purge(&mut self)
        ensures
            final(self)@.user_id is None,
            final(self)@.username is None,
            decoded_user_id(final(self)@) == Ok::<Option<u128>, ()>(None),
            final(self)@.status == SessionStatus::Purged,
    {
        self.user_id = None;
        self.username = None;
        self.status = SessionStatus::Purged;
    }

    fn status_after_write(&self) -> (r: SessionStatus)
        ensures
            r == status_after_write(self@.status),
    {
        match self.status {
            SessionStatus::Unchanged => SessionStatus::Changed,
            SessionStatus::Changed => SessionStatus::Changed,
            SessionStatus::Renewed => SessionStatus::Renewed,
            SessionStatus::Purged => SessionStatus::Renewed,
        }
    }
}

} // verus!
