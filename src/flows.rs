use crate::secret::{argon2_accepts, hash_password, verify_password};
use crate::store::{
    accounts_wf, after_redeem, distinct_accounts, holds, lemma_update_keeps_wf, grant, has_email, has_id, has_username, holder, index_of_email,
    index_of_username, is_live, redeem_result, Account, IdentityStore, IssueError, Purpose,
    TokenError, User, UserStatus,
};
use crate::text::{
    is_email_valid, is_strong_password, is_username_valid, is_valid_email, is_valid_username,
    meets_password_policy,
};
use vstd::prelude::*;

verus! {

/// Why a signup was refused.
#[derive(Clone, Copy, Debug, PartialEq, Eq, Structural)]
pub enum SignupError {
    InvalidUsername,
    InvalidEmail,
    WeakPassword,
    UsernameTaken,
    EmailTaken,
    /// The fresh id or the activation token is already in use.
    UnexpectedError,
}

/// Why a login was refused.
#[derive(Clone, Copy, Debug, PartialEq, Eq, Structural)]
pub enum AuthError {
    /// Unknown username or wrong password: the two are not told apart.
    InvalidCredentials,
    /// The password is right but the account is not activated.
    InactiveAccount,
}

/// Why a password change was refused.
#[derive(Clone, Copy, Debug, PartialEq, Eq, Structural)]
pub enum ChangePasswordError {
    /// The token, the password or its repetition is absent.
    MissingField,
    PasswordMismatch,
    WeakPassword,
    /// Unknown, superseded, consumed or expired reset token.
    InvalidToken,
}

impl ChangePasswordError {
    /// The HTTP status class of the failure.
    pub fn status_code(&self) -> (r: u16)
        ensures
            r == match *self {
                ChangePasswordError::MissingField => 400u16,
                ChangePasswordError::PasswordMismatch => 401u16,
                ChangePasswordError::WeakPassword => 400u16,
                ChangePasswordError::InvalidToken => 401u16,
            },
    {
        match self {
            ChangePasswordError::MissingField => 400,
            ChangePasswordError::PasswordMismatch => 401,
            ChangePasswordError::WeakPassword => 400,
            ChangePasswordError::InvalidToken => 401,
        }
    }
}

/// A password change as it arrives: each field may be absent.
#[derive(Debug)]
pub struct ChangePasswordRequest {
    pub reset_token: Option<String>,
    pub password: Option<String>,
    pub password_again: Option<String>,
}

pub open spec fn new_account(
    user_id: u128,
    username: String,
    email: String,
    password_hash: String,
    token: String,
    now: u64,
) -> Account {
    Account {
        user: User { user_id, username, email },
        password_hash,
        status: UserStatus::Pending,
        activation: Some(grant(token, now)),
        reset: None,
    }
}

/// What a registration of these values would give, checked in this order.
pub open spec fn register_check(
    accts: Seq<Account>,
    user_id: u128,
    username: Seq<char>,
    email: Seq<char>,
    token: Seq<char>,
) -> Result<(), SignupError> {
    if !is_valid_username(username) {
        Err(SignupError::InvalidUsername)
    } else if !is_valid_email(email) {
        Err(SignupError::InvalidEmail)
    } else if has_username(accts, username) {
        Err(SignupError::UsernameTaken)
    } else if has_email(accts, email) {
        Err(SignupError::EmailTaken)
    } else if has_id(accts, user_id) || is_live(accts, Purpose::Activation, token) {
        Err(SignupError::UnexpectedError)
    } else {
        Ok(())
    }
}

/// What a login with these credentials gives: the password is checked before
/// the status, and an unknown name looks like a wrong password.
pub open spec fn login_result(accts: Seq<Account>, username: Seq<char>, password: Seq<char>) -> Result<
    u128,
    AuthError,
> {
    if has_username(accts, username) {
        let a = accts[index_of_username(accts, username)];
        if !argon2_accepts(password, a.password_hash@) {
            Err(AuthError::InvalidCredentials)
        } else if a.status == UserStatus::Pending {
            Err(AuthError::InactiveAccount)
        } else {
            Ok(a.user.user_id)
        }
    } else {
        Err(AuthError::InvalidCredentials)
    }
}

/// The accounts after redeeming activation token `t`: its owner becomes active.
pub open spec fn after_activate(accts: Seq<Account>, ttl: u64, t: Seq<char>, now: u64) -> Seq<
    Account,
> {
    if redeem_result(accts, ttl, Purpose::Activation, t, now) is Ok {
        let a1 = after_redeem(accts, ttl, Purpose::Activation, t, now);
        let i = holder(accts, Purpose::Activation, t);
        a1.update(i, Account { status: UserStatus::Active, ..a1[i] })
    } else {
        accts
    }
}

/// The accounts after redeeming reset token `t`: its owner's hash becomes `h`.
pub open spec fn after_password_change(
    accts: Seq<Account>,
    ttl: u64,
    t: Seq<char>,
    h: String,
    now: u64,
) -> Seq<Account> {
    if redeem_result(accts, ttl, Purpose::Reset, t, now) is Ok {
        let a1 = after_redeem(accts, ttl, Purpose::Reset, t, now);
        let i = holder(accts, Purpose::Reset, t);
        a1.update(i, Account { password_hash: h, ..a1[i] })
    } else {
        accts
    }
}

/// Adding an account that shares no key with the others keeps the store well formed.
pub proof fn lemma_push_keeps_wf(accts: Seq<Account>, a: Account)
    requires
        accounts_wf(accts),
        a.reset is None,
        a.activation is Some,
        !has_id(accts, a.user.user_id),
        !has_username(accts, a.user.username@),
        !has_email(accts, a.user.email@),
        !is_live(accts, Purpose::Activation, a.activation->0.token@),
    ensures
        accounts_wf(accts.push(a)),
{
    let na = accts.push(a);
    let n = accts.len() as int;
    assert forall|x: int, y: int|
        0 <= x < na.len() && 0 <= y < na.len() && x != y implies distinct_accounts(
        #[trigger] na[x],
        #[trigger] na[y],
    ) by {
        if x == n {
            assert(!holds(na[y], Purpose::Activation, a.activation->0.token@));
        } else if y == n {
            assert(!holds(na[x], Purpose::Activation, a.activation->0.token@));
        } else {
            assert(distinct_accounts(accts[x], accts[y]));
        }
    }
}

impl IdentityStore {
    /// Whether `register` would accept these values, without changing the store.
    pub fn check_registration(
        &self,
        user_id: u128,
        username: &String,
        email: &String,
        token: &String,
    ) -> (r: Result<(), SignupError>)
        requires
            self.wf(),
        ensures
            r == register_check(self.accounts@, user_id, username@, email@, token@),
    {
        if !is_username_valid(username.as_str()) {
            return Err(SignupError::InvalidUsername);
        }
        if !is_email_valid(email.as_str()) {
            return Err(SignupError::InvalidEmail);
        }
        if self.find_by_username(username).is_some() {
            return Err(SignupError::UsernameTaken);
        }
        if self.find_by_email(email).is_some() {
            return Err(SignupError::EmailTaken);
        }
        if self.find_by_id(user_id).is_some() || self.find_holder(token, Purpose::Activation).is_some() {
            return Err(SignupError::UnexpectedError);
        }
        Ok(())
    }

    /// Adds a pending user whose password hash is `password_hash`, holding
    /// `token` as its live activation token.
    pub fn register(
        &mut self,
        user_id: u128,
        username: String,
        email: String,
        password_hash: String,
        token: String,
        now: u64,
    ) -> (r: Result<(), SignupError>)
        requires
            old(self).wf(),
        ensures
            final(self).wf(),
            final(self).token_ttl == old(self).token_ttl,
            r == register_check(old(self).accounts@, user_id, username@, email@, token@),
            r is Ok ==> final(self).accounts@ == old(self).accounts@.push(
                new_account(user_id, username, email, password_hash, token, now),
            ),
            r is Err ==> final(self).accounts@ == old(self).accounts@,
    {
        match self.check_registration(user_id, &username, &email, &token) {
            Ok(()) => {},
            Err(e) => {
                return Err(e);
            },
        }
        let ghost a = new_account(user_id, username, email, password_hash, token, now);
        proof {
            lemma_push_keeps_wf(self.accounts@, a);
        }
        self.accounts.push(
            Account {
                user: User { user_id, username, email },
                password_hash,
                status: UserStatus::Pending,
                activation: Some(crate::store::TokenGrant { token, issued_at: now }),
                reset: None,
            },
        );
        Ok(())
    }

    /// Signs a user up: checks the password policy and the registration, hashes
    /// the password, and registers a pending user holding `token` for activation.
    pub fn signup(
        &mut self,
        user_id: u128,
        username: String,
        email: String,
        password: &String,
        token: String,
        now: u64,
    ) -> (r: Result<(), SignupError>)
        requires
            old(self).wf(),
        ensures
            final(self).wf(),
            final(self).token_ttl == old(self).token_ttl,
            !is_strong_password(password@) ==> r == Err::<(), SignupError>(
                SignupError::WeakPassword,
            ),
            is_strong_password(password@) && register_check(
                old(self).accounts@,
                user_id,
                username@,
                email@,
                token@,
            ) is Err ==> r == register_check(old(self).accounts@, user_id, username@, email@, token@),
            is_strong_password(password@) && register_check(
                old(self).accounts@,
                user_id,
                username@,
                email@,
                token@,
            ) is Ok ==> r is Ok,
            r is Ok ==> exists|h: String|
                argon2_accepts(password@, h@) && final(self).accounts@ == old(self).accounts@.push(
                    #[trigger] new_account(user_id, username, email, h, token, now),
                ),
            r is Err ==> final(self).accounts@ == old(self).accounts@,
    {
        if !meets_password_policy(password.as_str()) {
            return Err(SignupError::WeakPassword);
        }
        match self.check_registration(user_id, &username, &email, &token) {
            Ok(()) => {},
            Err(e) => {
                return Err(e);
            },
        }
        let h = hash_password(password.as_str());
        let ghost hh = h;
        let r = self.register(user_id, username, email, h, token, now);
        assert(argon2_accepts(password@, hh@));
        r
    }

    /// Redeems activation token `token`: its owner becomes active. Unknown,
    /// superseded, consumed and expired tokens all give `NotFound`.
    pub fn activate(&mut self, token: &String, now: u64) -> (r: Result<u128, TokenError>)
        requires
            old(self).wf(),
        ensures
            final(self).wf(),
            final(self).token_ttl == old(self).token_ttl,
            final(self).accounts@ == after_activate(
                old(self).accounts@,
                old(self).token_ttl,
                token@,
                now,
            ),
            match redeem_result(old(self).accounts@, old(self).token_ttl, Purpose::Activation, token@, now) {
                Ok(id) => r == Ok::<u128, TokenError>(id),
                Err(_) => r == Err::<u128, TokenError>(TokenError::NotFound),
            },
    {
        let i = match self.take_token(token, Purpose::Activation, now) {
            Ok(i) => i,
            Err(_) => {
                return Err(TokenError::NotFound);
            },
        };
        let ghost a1 = self.accounts@;
        let mut a = self.accounts.remove(i);
        a.status = UserStatus::Active;
        let id = a.user.user_id;
        proof {
            lemma_update_keeps_wf(a1, i as int, a);
        }
        self.accounts.insert(i, a);
        assert(self.accounts@ =~= a1.update(i as int, Account { status: UserStatus::Active, ..a1[i as int] }));
        Ok(id)
    }

    /// Issues `token` as the live activation token of the pending user with
    /// `email`, superseding the earlier one. Another email, or an active user,
    /// is answered `Ok(None)` with nothing issued.
    pub fn resend_activation(&mut self, email: &String, token: String, now: u64) -> (r: Result<
        Option<u128>,
        IssueError,
    >)
        requires
            old(self).wf(),
        ensures
            final(self).wf(),
            final(self).token_ttl == old(self).token_ttl,
            !has_email(old(self).accounts@, email@) || old(self).accounts@[index_of_email(
                old(self).accounts@,
                email@,
            )].status == UserStatus::Active ==> r == Ok::<Option<u128>, IssueError>(None)
                && final(self).accounts@ == old(self).accounts@,
            has_email(old(self).accounts@, email@) && old(self).accounts@[index_of_email(
                old(self).accounts@,
                email@,
            )].status == UserStatus::Pending ==> {
                let i = index_of_email(old(self).accounts@, email@);
                if is_live(old(self).accounts@, Purpose::Activation, token@) {
                    r == Err::<Option<u128>, IssueError>(IssueError::TokenInUse)
                        && final(self).accounts@ == old(self).accounts@
                } else {
                    r == Ok::<Option<u128>, IssueError>(Some(old(self).accounts@[i].user.user_id))
                        && final(self).accounts@ == crate::store::after_issue(
                        old(self).accounts@,
                        i,
                        Purpose::Activation,
                        token,
                        now,
                    )
                }
            },
    {
        let i = match self.find_by_email(email) {
            Some(i) => i,
            None => {
                return Ok(None);
            },
        };
        if self.accounts[i].status == UserStatus::Active {
            return Ok(None);
        }
        let id = self.accounts[i].user.user_id;
        let ghost a0 = self.accounts@;
        proof {
            assert(crate::store::index_of_id(a0, id) == i) by {
                let k = crate::store::index_of_id(a0, id);
                assert(has_id(a0, id));
                if k != i {
                    assert(a0[k].user.user_id != a0[i as int].user.user_id);
                }
            }
        }
        match self.issue(id, Purpose::Activation, token, now) {
            Ok(()) => Ok(Some(id)),
            Err(e) => Err(e),
        }
    }

    /// Issues `token` as the live reset token of the user with `email`,
    /// superseding the earlier one. An unknown email is answered `Ok(None)` with
    /// nothing issued, so that callers can answer alike.
    pub fn request_reset(&mut self, email: &String, token: String, now: u64) -> (r: Result<
        Option<u128>,
        IssueError,
    >)
        requires
            old(self).wf(),
        ensures
            final(self).wf(),
            final(self).token_ttl == old(self).token_ttl,
            !has_email(old(self).accounts@, email@) ==> r == Ok::<Option<u128>, IssueError>(None)
                && final(self).accounts@ == old(self).accounts@,
            has_email(old(self).accounts@, email@) ==> {
                let i = index_of_email(old(self).accounts@, email@);
                if is_live(old(self).accounts@, Purpose::Reset, token@) {
                    r == Err::<Option<u128>, IssueError>(IssueError::TokenInUse)
                        && final(self).accounts@ == old(self).accounts@
                } else {
                    r == Ok::<Option<u128>, IssueError>(Some(old(self).accounts@[i].user.user_id))
                        && final(self).accounts@ == crate::store::after_issue(
                        old(self).accounts@,
                        i,
                        Purpose::Reset,
                        token,
                        now,
                    )
                }
            },
    {
        let i = match self.find_by_email(email) {
            Some(i) => i,
            None => {
                return Ok(None);
            },
        };
        let id = self.accounts[i].user.user_id;
        let ghost a0 = self.accounts@;
        proof {
            assert(crate::store::index_of_id(a0, id) == i) by {
                let k = crate::store::index_of_id(a0, id);
                assert(has_id(a0, id));
                if k != i {
                    assert(a0[k].user.user_id != a0[i as int].user.user_id);
                }
            }
        }
        match self.issue(id, Purpose::Reset, token, now) {
            Ok(()) => Ok(Some(id)),
            Err(e) => Err(e),
        }
    }

    /// Redeems reset token `token` and makes `password_hash` its owner's hash.
    pub fn apply_password_change(&mut self, token: &String, password_hash: String, now: u64) -> (r:
        Result<u128, ChangePasswordError>)
        requires
            old(self).wf(),
        ensures
            final(self).wf(),
            final(self).token_ttl == old(self).token_ttl,
            final(self).accounts@ == after_password_change(
                old(self).accounts@,
                old(self).token_ttl,
                token@,
                password_hash,
                now,
            ),
            match redeem_result(old(self).accounts@, old(self).token_ttl, Purpose::Reset, token@, now) {
                Ok(id) => r == Ok::<u128, ChangePasswordError>(id),
                Err(_) => r == Err::<u128, ChangePasswordError>(ChangePasswordError::InvalidToken),
            },
    {
        let i = match self.take_token(token, Purpose::Reset, now) {
            Ok(i) => i,
            Err(_) => {
                return Err(ChangePasswordError::InvalidToken);
            },
        };
        let ghost a1 = self.accounts@;
        let ghost h = password_hash;
        let mut a = self.accounts.remove(i);
        a.password_hash = password_hash;
        let id = a.user.user_id;
        proof {
            lemma_update_keeps_wf(a1, i as int, a);
        }
        self.accounts.insert(i, a);
        assert(self.accounts@ =~= a1.update(i as int, Account { password_hash: h, ..a1[i as int] }));
        Ok(id)
    }

    /// Changes a password with a reset token. The fields must all be present,
    /// the two passwords equal and strong, and the token live, unexpired and the
    /// latest issued; the store is read only once all that holds of the request.
    pub fn change_password(&mut self, request: &ChangePasswordRequest, now: u64) -> (r: Result<
        (),
        ChangePasswordError,
    >)
        requires
            old(self).wf(),
        ensures
            final(self).wf(),
            final(self).token_ttl == old(self).token_ttl,
            r is Err ==> final(self).accounts@ == old(self).accounts@,
            request.reset_token is None || request.password is None || request.password_again is None
                ==> r == Err::<(), ChangePasswordError>(ChangePasswordError::MissingField),
            request.reset_token is Some && request.password is Some && request.password_again is Some
                ==> {
                let t = request.reset_token->0@;
                let p = request.password->0@;
                if p != request.password_again->0@ {
                    r == Err::<(), ChangePasswordError>(ChangePasswordError::PasswordMismatch)
                } else if !is_strong_password(p) {
                    r == Err::<(), ChangePasswordError>(ChangePasswordError::WeakPassword)
                } else if redeem_result(old(self).accounts@, old(self).token_ttl, Purpose::Reset, t, now) is Err {
                    r == Err::<(), ChangePasswordError>(ChangePasswordError::InvalidToken)
                } else {
                    r is Ok
                }
            },
            r is Ok ==> exists|h: String|
                argon2_accepts(request.password->0@, h@) && final(self).accounts@
                    == #[trigger] after_password_change(
                    old(self).accounts@,
                    old(self).token_ttl,
                    request.reset_token->0@,
                    h,
                    now,
                ),
    {
        let (token, password, again) = match (
            &request.reset_token,
            &request.password,
            &request.password_again,
        ) {
            (Some(t), Some(p), Some(a)) => (t, p, a),
            _ => {
                return Err(ChangePasswordError::MissingField);
            },
        };
        if *password != *again {
            return Err(ChangePasswordError::PasswordMismatch);
        }
        if !meets_password_policy(password.as_str()) {
            return Err(ChangePasswordError::WeakPassword);
        }
        if self.check_token(token, Purpose::Reset, now).is_err() {
            return Err(ChangePasswordError::InvalidToken);
        }
        let h = hash_password(password.as_str());
        let ghost hh = h;
        match self.apply_password_change(token, h, now) {
            Ok(_) => {
                assert(argon2_accepts(request.password->0@, hh@));
                Ok(())
            },
            Err(e) => Err(e),
        }
    }

    /// Checks a username and password. An unknown name is still checked
    /// against a fixed hash, so that it costs as much as a wrong password; the
    /// status is looked at only once the password is right.
    pub fn validate_credentials(&self, username: &String, password: &String) -> (r: Result<
        u128,
        AuthError,
    >)
        requires
            self.wf(),
        ensures
            r == login_result(self.accounts@, username@, password@),
    {
        match self.find_by_username(username) {
            None => {
                let _ = verify_password(
                    password.as_str(),
                    "$argon2id$v=19$m=15000,t=2,p=1$gZiV/M1gPc22ElAH/Jh1Hw$CWOrkoo7oJBQ/iyh7uJ0LO2aLEfrHwTWllSAxT0zRno",
                );
                Err(AuthError::InvalidCredentials)
            },
            Some(i) => {
                let a = &self.accounts[i];
                if !verify_password(password.as_str(), a.password_hash.as_str()) {
                    Err(AuthError::InvalidCredentials)
                } else if a.status == UserStatus::Pending {
                    Err(AuthError::InactiveAccount)
                } else {
                    Ok(a.user.user_id)
                }
            },
        }
    }
}

} // verus!
