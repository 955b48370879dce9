use crate::flows::{
    after_activate, after_password_change, lemma_push_keeps_wf, login_result, new_account,
    register_check, AuthError,
};
use crate::secret::argon2_accepts;
use crate::store::{
    accounts_wf, after_issue, after_redeem, has_username, holds, index_of_username,
    is_fresh, is_live, lemma_holder_unique, lemma_update_keeps_wf, with_slot, grant, redeem_result, Account, Purpose, TokenError,
    UserStatus,
};
use vstd::prelude::*;

verus! {

proof fn lemma_username_index(accts: Seq<Account>, k: int)
    requires
        accounts_wf(accts),
        0 <= k < accts.len(),
    ensures
        has_username(accts, accts[k].user.username@),
        index_of_username(accts, accts[k].user.username@) == k,
{
    let name = accts[k].user.username@;
    assert(has_username(accts, name));
    let c = index_of_username(accts, name);
    if c != k {
        assert(accts[c].user.username@ != accts[k].user.username@);
    }
}

/// Once a second token of a purpose (a password reset, an activation) has been
/// issued to a user, the first one is no longer found, expired or not.
pub proof fn lemma_second_token_supersedes_first(
    accts: Seq<Account>,
    ttl: u64,
    p: Purpose,
    i: int,
    first: String,
    second: String,
    first_at: u64,
    second_at: u64,
    now: u64,
)
    requires
        accounts_wf(accts),
        0 <= i < accts.len(),
        !is_live(accts, p, first@),
        !is_live(after_issue(accts, i, p, first, first_at), p, second@),
    ensures
        redeem_result(
            after_issue(
                after_issue(accts, i, p, first, first_at),
                i,
                p,
                second,
                second_at,
            ),
            ttl,
            p,
            first@,
            now,
        ) == Err::<u128, TokenError>(TokenError::NotFound),
{
    let a1 = after_issue(accts, i, p, first, first_at);
    let a2 = after_issue(a1, i, p, second, second_at);
    assert(holds(a1[i], p, first@));
    assert(second@ != first@);
    assert forall|j: int| 0 <= j < a2.len() implies !holds(#[trigger] a2[j], p, first@) by {
        if j != i {
            assert(a2[j] == accts[j]);
            assert(!holds(accts[j], p, first@));
        }
    }
}

/// A freshly issued token of a purpose is redeemed once, for its owner, while
/// unexpired; a second redemption finds nothing.
pub proof fn lemma_token_single_use(
    accts: Seq<Account>,
    ttl: u64,
    p: Purpose,
    i: int,
    token: String,
    issued_at: u64,
    now: u64,
    later: u64,
)
    requires
        accounts_wf(accts),
        0 <= i < accts.len(),
        !is_live(accts, p, token@),
        is_fresh(issued_at, ttl, now),
    ensures
        redeem_result(
            after_issue(accts, i, p, token, issued_at),
            ttl,
            p,
            token@,
            now,
        ) == Ok::<u128, TokenError>(accts[i].user.user_id),
        redeem_result(
            after_redeem(
                after_issue(accts, i, p, token, issued_at),
                ttl,
                p,
                token@,
                now,
            ),
            ttl,
            p,
            token@,
            later,
        ) == Err::<u128, TokenError>(TokenError::NotFound),
{
    let a1 = after_issue(accts, i, p, token, issued_at);
    lemma_update_keeps_wf(accts, i, with_slot(accts[i], p, Some(grant(token, issued_at))));
    assert(holds(a1[i], p, token@));
    lemma_holder_unique(a1, p, token@, i);
    let a2 = after_redeem(a1, ttl, p, token@, now);
    assert forall|j: int| 0 <= j < a2.len() implies !holds(#[trigger] a2[j], p, token@) by {
        if j != i {
            assert(a2[j] == accts[j]);
            assert(!holds(accts[j], p, token@));
        }
    }
}

/// A user who has just signed up cannot log in with the right password until
/// the activation token is redeemed; once it is, the user is active and can.
pub proof fn lemma_activation_enables_login(
    accts: Seq<Account>,
    ttl: u64,
    user_id: u128,
    username: String,
    email: String,
    password: Seq<char>,
    password_hash: String,
    token: String,
    signed_up_at: u64,
    now: u64,
)
    requires
        accounts_wf(accts),
        register_check(accts, user_id, username@, email@, token@) is Ok,
        argon2_accepts(password, password_hash@),
        is_fresh(signed_up_at, ttl, now),
    ensures
        ({
            let a1 = accts.push(
                new_account(user_id, username, email, password_hash, token, signed_up_at),
            );
            let a2 = after_activate(a1, ttl, token@, now);
            &&& a1[accts.len() as int].status == UserStatus::Pending
            &&& login_result(a1, username@, password) == Err::<u128, AuthError>(
                AuthError::InactiveAccount,
            )
            &&& redeem_result(a1, ttl, Purpose::Activation, token@, now) == Ok::<u128, TokenError>(
                user_id,
            )
            &&& a2[accts.len() as int].status == UserStatus::Active
            &&& login_result(a2, username@, password) == Ok::<u128, AuthError>(user_id)
        }),
{
    let n = accts.len() as int;
    let a = new_account(user_id, username, email, password_hash, token, signed_up_at);
    let a1 = accts.push(a);
    lemma_push_keeps_wf(accts, a);
    assert(a1[n] == a);
    lemma_username_index(a1, n);
    assert(holds(a1[n], Purpose::Activation, token@));
    lemma_holder_unique(a1, Purpose::Activation, token@, n);
    let r1 = after_redeem(a1, ttl, Purpose::Activation, token@, now);
    lemma_update_keeps_wf(a1, n, with_slot(a1[n], Purpose::Activation, None));
    let a2 = after_activate(a1, ttl, token@, now);
    assert(a2 == r1.update(n, Account { status: UserStatus::Active, ..r1[n] }));
    lemma_update_keeps_wf(r1, n, Account { status: UserStatus::Active, ..r1[n] });
    assert(a2[n].user == a.user);
    lemma_username_index(a2, n);
}

/// Redeeming an active user's live, unexpired reset token with the hash of a
/// new password lets the user log in with that password.
pub proof fn lemma_reset_then_login(
    accts: Seq<Account>,
    ttl: u64,
    i: int,
    token: Seq<char>,
    password: Seq<char>,
    password_hash: String,
    now: u64,
)
    requires
        accounts_wf(accts),
        0 <= i < accts.len(),
        holds(accts[i], Purpose::Reset, token),
        is_fresh(accts[i].reset->0.issued_at, ttl, now),
        accts[i].status == UserStatus::Active,
        argon2_accepts(password, password_hash@),
    ensures
        login_result(
            after_password_change(accts, ttl, token, password_hash, now),
            accts[i].user.username@,
            password,
        ) == Ok::<u128, AuthError>(accts[i].user.user_id),
{
    lemma_holder_unique(accts, Purpose::Reset, token, i);
    let a1 = after_redeem(accts, ttl, Purpose::Reset, token, now);
    lemma_update_keeps_wf(accts, i, with_slot(accts[i], Purpose::Reset, None));
    let a = Account { password_hash, ..a1[i] };
    let a2 = after_password_change(accts, ttl, token, password_hash, now);
    assert(a2 == a1.update(i, a));
    lemma_update_keeps_wf(a1, i, a);
    lemma_username_index(a2, i);
}

} // verus!
