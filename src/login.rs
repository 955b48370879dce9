use crate::flows::{login_result, AuthError};
use crate::store::IdentityStore;
use vstd::prelude::*;

verus! {

/// The server-side state of one client's session.
#[derive(Debug)]
pub struct Session {
    /// The identifier that the client holds.
    pub id: u128,
    /// The user bound to the session, once logged in.
    pub user_id: Option<u128>,
}

impl Session {
    /// A fresh session with identifier `id` and no user bound.
    pub fn new(id: u128) -> (r: Session)
        ensures
            r.id == id,
            r.user_id is None,
    {
        Session { id, user_id: None }
    }

    /// Rotates the identifier to `new_id`, keeping what is bound.
    pub fn renew(&mut self, new_id: u128)
        ensures
            final(self).id == new_id,
            final(self).user_id == old(self).user_id,
    {
        self.id = new_id;
    }

    /// Binds `user_id` to the session.
    pub fn insert_user_id(&mut self, user_id: u128)
        ensures
            final(self).id == old(self).id,
            final(self).user_id == Some(user_id),
    {
        self.user_id = Some(user_id);
    }

    pub fn get_user_id(&self) -> (r: Option<u128>)
        ensures
            r == self.user_id,
    {
        self.user_id
    }

    /// Logs out: nothing stays bound. Doing it twice is doing it once.
    pub fn destroy(&mut self)
        ensures
            final(self).id == old(self).id,
            final(self).user_id is None,
    {
        self.user_id = None;
    }
}

/// A login as it arrives.
#[derive(Debug)]
pub struct LoginRequest {
    pub username: String,
    pub password: String,
}

/// The body of a successful login.
#[derive(Debug)]
pub struct LoginResponse {
    pub status: String,
}

/// The body of a refused login.
#[derive(Debug)]
pub struct LoginErrorResponse {
    pub status: String,
    pub message: String,
}

/// Why a login was refused, as the boundary reports it.
#[derive(Clone, Copy, Debug, PartialEq, Eq, Structural)]
pub enum LoginError {
    AuthError,
    ForbiddenError,
    UnexpectedError,
}

pub open spec fn login_error_of(e: AuthError) -> LoginError {
    match e {
        AuthError::InvalidCredentials => LoginError::AuthError,
        AuthError::InactiveAccount => LoginError::ForbiddenError,
    }
}

impl LoginError {
    /// The HTTP status of the failure.
    pub fn status_code(&self) -> (r: u16)
        ensures
            r == match *self {
                LoginError::AuthError => 401u16,
                LoginError::ForbiddenError => 403u16,
                LoginError::UnexpectedError => 500u16,
            },
    {
        match self {
            LoginError::AuthError => 401,
            LoginError::ForbiddenError => 403,
            LoginError::UnexpectedError => 500,
        }
    }

    /// The body sent with the failure: a client failure is a "fail", a server one an "error".
    pub fn error_response(&self) -> (r: LoginErrorResponse)
        ensures
            r.status@ == (if *self == LoginError::UnexpectedError {
                "error"@
            } else {
                "fail"@
            }),
            r.message@ == match *self {
                LoginError::AuthError => "Authentication failed."@,
                LoginError::ForbiddenError => "Account is not activated."@,
                LoginError::UnexpectedError => "Something went wrong."@,
            },
    {
        match self {
            LoginError::AuthError => LoginErrorResponse {
                status: String::from_str("fail"),
                message: String::from_str("Authentication failed."),
            },
            LoginError::ForbiddenError => LoginErrorResponse {
                status: String::from_str("fail"),
                message: String::from_str("Account is not activated."),
            },
            LoginError::UnexpectedError => LoginErrorResponse {
                status: String::from_str("error"),
                message: String::from_str("Something went wrong."),
            },
        }
    }
}

/// Logs a user in: on valid credentials of an active account, rotates the
/// session identifier to `new_session_id` and binds the user to it; otherwise
/// leaves the session as it was.
pub fn login(
    store: &IdentityStore,
    session: &mut Session,
    request: &LoginRequest,
    new_session_id: u128,
) -> (r: Result<LoginResponse, LoginError>)
    requires
        store.wf(),
    ensures
        match login_result(store.accounts@, request.username@, request.password@) {
            Ok(id) => r is Ok && r->Ok_0.status@ == "success"@ && final(session).id == new_session_id
                && final(session).user_id == Some(id),
            Err(e) => r == Err::<LoginResponse, LoginError>(login_error_of(e)) && *final(session)
                == *old(session),
        },
{
    match store.validate_credentials(&request.username, &request.password) {
        Ok(id) => {
            session.renew(new_session_id);
            session.insert_user_id(id);
            Ok(LoginResponse { status: String::from_str("success") })
        },
        Err(AuthError::InvalidCredentials) => Err(LoginError::AuthError),
        Err(AuthError::InactiveAccount) => Err(LoginError::ForbiddenError),
    }
}

} // verus!
