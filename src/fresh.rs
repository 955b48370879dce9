use crate::flows::{new_account, register_check, SignupError};
use crate::secret::argon2_accepts;
use crate::store::{
    after_issue, has_email, has_username, index_of_email, is_live, IdentityStore, IssueError, Purpose,
    UserStatus,
};
use crate::text::{is_digit, is_lower, is_strong_password, is_upper, is_valid_email, is_valid_username};
use rand::distributions::{Alphanumeric, DistString};
use vstd::prelude::*;

verus! {

/// How many characters a fresh token has: 25 alphanumeric characters carry
/// about 148 bits.
pub const TOKEN_CHARS: usize = 25;

pub open spec fn is_alphanumeric(c: char) -> bool {
    is_lower(c) || is_upper(c) || is_digit(c)
}

/// Relies on rand 0.8's `Alphanumeric::sample_string` over `thread_rng`:
/// `len` characters, each drawn from `A-Z`, `a-z` and `0-9`.
#[verifier::external_body]
fn random_alphanumeric(len: usize) -> (r: String)
    ensures
        r@.len() == len,
        forall|i: int| 0 <= i < r@.len() ==> is_alphanumeric(#[trigger] r@[i]),
{
    Alphanumeric.sample_string(&mut rand::thread_rng(), len)
}

/// Relies on uuid's `Uuid::new_v4` and `Uuid::as_u128`: a random identifier.
#[verifier::external_body]
fn random_user_id() -> (r: u128) {
    uuid::Uuid::new_v4().as_u128()
}

/// What a signup gives on account of the inputs alone, checked in this order.
pub open spec fn signup_input_check(
    accts: Seq<crate::store::Account>,
    username: Seq<char>,
    email: Seq<char>,
    password: Seq<char>,
) -> Result<(), SignupError> {
    if !is_strong_password(password) {
        Err(SignupError::WeakPassword)
    } else if !is_valid_username(username) {
        Err(SignupError::InvalidUsername)
    } else if !is_valid_email(email) {
        Err(SignupError::InvalidEmail)
    } else if has_username(accts, username) {
        Err(SignupError::UsernameTaken)
    } else if has_email(accts, email) {
        Err(SignupError::EmailTaken)
    } else {
        Ok(())
    }
}

impl IdentityStore {
    /// Signs a user up under a fresh random id and activation token, and
    /// returns both. Valid input fails only where the drawn id or token
    /// collides with one in use.
    pub fn signup_user(&mut self, username: String, email: String, password: &String, now: u64) -> (r:
        Result<(u128, String), SignupError>)
        requires
            old(self).wf(),
        ensures
            final(self).wf(),
            final(self).token_ttl == old(self).token_ttl,
            signup_input_check(old(self).accounts@, username@, email@, password@) is Err
                ==> r == Err::<(u128, String), SignupError>(
                signup_input_check(old(self).accounts@, username@, email@, password@)->Err_0,
            ),
            signup_input_check(old(self).accounts@, username@, email@, password@) is Ok ==> r is Ok
                || r == Err::<(u128, String), SignupError>(SignupError::UnexpectedError),
            r == Err::<(u128, String), SignupError>(SignupError::UnexpectedError) ==> exists|
                id: u128,
                t: Seq<char>,
            |
                #[trigger] register_check(old(self).accounts@, id, username@, email@, t)
                    == Err::<(), SignupError>(SignupError::UnexpectedError),
            r is Ok ==> r->Ok_0.1@.len() == TOKEN_CHARS,
            r is Ok ==> exists|h: String|
                argon2_accepts(password@, h@) && final(self).accounts@ == old(self).accounts@.push(
                    #[trigger] new_account(r->Ok_0.0, username, email, h, r->Ok_0.1, now),
                ),
            r is Err ==> final(self).accounts@ == old(self).accounts@,
    {
        let id = random_user_id();
        let token = random_alphanumeric(TOKEN_CHARS);
        let ghost t = token;
        let kept = token.clone();
        let ghost (u, em) = (username, email);
        match self.signup(id, username, email, password, token, now) {
            Ok(()) => {
                assert(kept == t);
                let ghost h = choose|h: String|
                    argon2_accepts(password@, h@) && self.accounts@ == old(self).accounts@.push(
                        #[trigger] new_account(id, u, em, h, t, now),
                    );
                let r: Result<(u128, String), SignupError> = Ok((id, kept));
                assert(new_account(r->Ok_0.0, username, email, h, r->Ok_0.1, now) == new_account(
                    id,
                    u,
                    em,
                    h,
                    t,
                    now,
                ));
                r
            },
            Err(err) => {
                if err == SignupError::UnexpectedError {
                    assert(register_check(old(self).accounts@, id, u@, em@, t@)
                        == Err::<(), SignupError>(SignupError::UnexpectedError));
                }
                Err(err)
            },
        }
    }

    /// Issues a fresh random reset token to the user with `email` and returns
    /// it for mailing; an unknown email gets `Ok(None)` and nothing is issued.
    pub fn request_password_reset(&mut self, email: &String, now: u64) -> (r: Result<
        Option<String>,
        IssueError,
    >)
        requires
            old(self).wf(),
        ensures
            final(self).wf(),
            final(self).token_ttl == old(self).token_ttl,
            !has_email(old(self).accounts@, email@) ==> r == Ok::<Option<String>, IssueError>(None)
                && final(self).accounts@ == old(self).accounts@,
            has_email(old(self).accounts@, email@) ==> match r {
                Ok(Some(token)) => token@.len() == TOKEN_CHARS && final(self).accounts@ == after_issue(
                    old(self).accounts@,
                    index_of_email(old(self).accounts@, email@),
                    Purpose::Reset,
                    token,
                    now,
                ),
                Ok(None) => false,
                Err(e) => e == IssueError::TokenInUse && final(self).accounts@ == old(self).accounts@,
            },
            r is Err ==> exists|t: Seq<char>|
                t.len() == TOKEN_CHARS && #[trigger] is_live(old(self).accounts@, Purpose::Reset, t),
    {
        let token = random_alphanumeric(TOKEN_CHARS);
        let ghost t = token;
        let kept = token.clone();
        match self.request_reset(email, token, now) {
            Ok(Some(_)) => {
                assert(kept == t);
                Ok(Some(kept))
            },
            Ok(None) => Ok(None),
            Err(e) => {
                assert(is_live(old(self).accounts@, Purpose::Reset, t@));
                Err(e)
            },
        }
    }

    /// Issues a fresh random activation token to the pending user with `email`,
    /// superseding the earlier one, and returns it for mailing; another email,
    /// or an active user, gets `Ok(None)` and nothing is issued.
    pub fn resend_activation_email(&mut self, email: &String, now: u64) -> (r: Result<
        Option<String>,
        IssueError,
    >)
        requires
            old(self).wf(),
        ensures
            final(self).wf(),
            final(self).token_ttl == old(self).token_ttl,
            !has_email(old(self).accounts@, email@) || old(self).accounts@[index_of_email(
                old(self).accounts@,
                email@,
            )].status == UserStatus::Active ==> r == Ok::<Option<String>, IssueError>(None)
                && final(self).accounts@ == old(self).accounts@,
            has_email(old(self).accounts@, email@) && old(self).accounts@[index_of_email(
                old(self).accounts@,
                email@,
            )].status == UserStatus::Pending ==> match r {
                Ok(Some(token)) => token@.len() == TOKEN_CHARS && final(self).accounts@ == after_issue(
                    old(self).accounts@,
                    index_of_email(old(self).accounts@, email@),
                    Purpose::Activation,
                    token,
                    now,
                ),
                Ok(None) => false,
                Err(e) => e == IssueError::TokenInUse && final(self).accounts@ == old(self).accounts@,
            },
            r is Err ==> exists|t: Seq<char>|
                t.len() == TOKEN_CHARS && #[trigger] is_live(old(self).accounts@, Purpose::Activation, t),
    {
        let token = random_alphanumeric(TOKEN_CHARS);
        let ghost t = token;
        let kept = token.clone();
        match self.resend_activation(email, token, now) {
            Ok(Some(_)) => {
                assert(kept == t);
                Ok(Some(kept))
            },
            Ok(None) => Ok(None),
            Err(e) => {
                assert(is_live(old(self).accounts@, Purpose::Activation, t@));
                Err(e)
            },
        }
    }
}

} // verus!
