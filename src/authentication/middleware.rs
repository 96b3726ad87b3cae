use crate::session_state::{decoded_user_id, SessionError, SessionView, TypedSession};
use vstd::prelude::*;

verus! {

/// The verified user id that a protected handler receives (a UUID, as its
/// 128-bit value).
#[derive(Debug, Clone, Copy, PartialEq, Eq, Structural)]
pub struct UserId(pub u128);

/// The verified username that a protected handler receives.
#[derive(Debug, Clone, PartialEq, Eq)]
pub struct Username(pub String);

impl UserId {
    /// The UUID, as its 128-bit value.
    pub fn as_u128(&self) -> (r: u128)
        ensures
            r == self.0,
    {
        self.0
    }
}

impl Username {
    /// The username.
    pub fn as_str(&self) -> (r: &str)
        ensures
            r@ == self.0@,
    {
        self.0.as_str()
    }
}

/// What the middleware hands to a protected handler: the two facts of a
/// verified identity, always together.
#[derive(Debug, Clone, PartialEq, Eq)]
pub struct RequestContext {
    pub user_id: UserId,
    pub username: Username,
}

/// Why a request to a protected route does not reach its handler.
#[derive(Debug, Clone, PartialEq, Eq)]
pub enum AccessError {
    /// No identity in the session, or only half of one.
    Unauthorized,
    /// The session could not be read.
    Internal(SessionError),
}

impl AccessError {
    /// The HTTP status that answers the request.
    pub fn status_code(&self) -> (r: u16)
        ensures
            self is Unauthorized ==> r == 401,
            self is Internal ==> r == 500,
    {
        match self {
            AccessError::Unauthorized => 401,
            AccessError::Internal(_) => 500,
        }
    }
}

/// How a session resolves: the identity it holds, or why it holds none.
pub enum Access {
    Granted(u128, Seq<char>),
    Unauthorized,
    Internal,
}

/// How the middleware resolves a session: both identity fields present and
/// readable give an identity; a missing one gives `Unauthorized`; an
/// unreadable user id gives `Internal`. The user id is read first.
pub open spec fn access_of(v: SessionView) -> Access {
    match decoded_user_id(v) {
        Err(_) => Access::Internal,
        Ok(None) => Access::Unauthorized,
        Ok(Some(id)) => match v.username {
            None => Access::Unauthorized,
            Some(name) => Access::Granted(id, name),
        },
    }
}

/// Whether `r` is the resolution `access_of` gives.
pub open spec fn resolves_to(r: Result<RequestContext, AccessError>, a: Access) -> bool {
    match a {
        Access::Granted(id, name) => r matches Ok(ctx) && ctx.user_id.0 == id && ctx.username.0@
            == name,
        Access::Unauthorized => r == Err::<RequestContext, AccessError>(AccessError::Unauthorized),
        Access::Internal => r matches Err(AccessError::Internal(_)),
    }
}

/// Resolves a session into the context of a verified identity.
pub fn resolve_identity(session: &TypedSession) -> (r: Result<RequestContext, AccessError>)
    ensures
        resolves_to(r, access_of(session@)),
{
    let user_id = match session.get_user_id() {
        Err(e) => return Err(AccessError::Internal(e)),
        Ok(None) => return Err(AccessError::Unauthorized),
        Ok(Some(id)) => id,
    };
    match session.get_username() {
        None => Err(AccessError::Unauthorized),
        Some(name) => Ok(RequestContext { user_id: UserId(user_id), username: Username(name) }),
    }
}

/// Guards a protected handler: `next` runs only on a session that holds a
/// full identity, and receives exactly that identity. Otherwise the request
/// ends with the error and `next` never runs.
pub fn reject_anonymous_users<R, F: FnOnce(RequestContext) -> R>(
    session: &TypedSession,
    next: F,
) -> (r: Result<R, AccessError>)
    requires
        forall|ctx: RequestContext| next.requires((ctx,)),
    ensures
        match access_of(session@) {
            Access::Granted(id, name) => exists|ctx: RequestContext|
                #![trigger next.ensures((ctx,), r->Ok_0)]
                ctx.user_id.0 == id && ctx.username.0@ == name && r is Ok && next.ensures(
                    (ctx,),
                    r->Ok_0,
                ),
            Access::Unauthorized => r matches Err(AccessError::Unauthorized),
            Access::Internal => r matches Err(AccessError::Internal(_)),
        },
{
    match resolve_identity(session) {
        Ok(ctx) => {
            let ghost c = ctx;
            let r: Result<R, AccessError> = Ok(next(ctx));
            assert(next.ensures((c,), r->Ok_0));
            r
        },
        Err(e) => Err(e),
    }
}

/// A session that lacks either identity field is refused as unauthorized,
/// so the handler never runs; the one exception is a user id that is present
/// but unreadable, which is an internal error instead.
pub proof fn lemma_missing_field_is_unauthorized(v: SessionView)
    requires
        v.user_id is None || v.username is None,
        decoded_user_id(v) is Ok,
    ensures
        access_of(v) == Access::Unauthorized,
{
}

/// A session that holds both identity fields, readable, admits exactly that
/// identity.
pub proof fn lemma_full_session_is_granted(v: SessionView, id: u128, name: Seq<char>)
    requires
        decoded_user_id(v) == Ok::<Option<u128>, ()>(Some(id)),
        v.username == Some(name),
    ensures
        access_of(v) == Access::Granted(id, name),
{
}

} // verus!
