use vstd::prelude::*;

verus! {

/// Whether an account may log in yet.
#[derive(Clone, Copy, Debug, PartialEq, Eq, Structural)]
pub enum UserStatus {
    Pending,
    Active,
}

/// What a single-use token grants.
#[derive(Clone, Copy, Debug, PartialEq, Eq, Structural)]
pub enum Purpose {
    Activation,
    Reset,
}

/// Why a token could not be redeemed.
#[derive(Clone, Copy, Debug, PartialEq, Eq, Structural)]
pub enum TokenError {
    /// Unknown, superseded or already consumed.
    NotFound,
    /// Live, but older than the store's time to live.
    Expired,
}

/// Why a token could not be issued.
#[derive(Clone, Copy, Debug, PartialEq, Eq, Structural)]
pub enum IssueError {
    UnknownUser,
    /// The token is already live for another grant of the same purpose.
    TokenInUse,
}

/// The identity of a user.
#[derive(Debug)]
pub struct User {
    pub user_id: u128,
    pub username: String,
    pub email: String,
}

/// A live token and the time it was issued, in seconds.
#[derive(Debug)]
pub struct TokenGrant {
    pub token: String,
    pub issued_at: u64,
}

/// A user with its credentials and its one slot per token purpose.
#[derive(Debug)]
pub struct Account {
    pub user: User,
    pub password_hash: String,
    pub status: UserStatus,
    pub activation: Option<TokenGrant>,
    pub reset: Option<TokenGrant>,
}

/// The user records, with the current token of each (purpose, user) pair.
#[derive(Debug)]
pub struct IdentityStore {
    pub accounts: Vec<Account>,
    /// How long, in seconds, a token stays redeemable after it is issued.
    pub token_ttl: u64,
}

pub open spec fn slot(a: Account, p: Purpose) -> Option<TokenGrant> {
    match p {
        Purpose::Activation => a.activation,
        Purpose::Reset => a.reset,
    }
}

pub open spec fn with_slot(a: Account, p: Purpose, g: Option<TokenGrant>) -> Account {
    match p {
        Purpose::Activation => Account { activation: g, ..a },
        Purpose::Reset => Account { reset: g, ..a },
    }
}

/// `a` holds `t` as its live token for `p`.
pub open spec fn holds(a: Account, p: Purpose, t: Seq<char>) -> bool {
    slot(a, p) is Some && slot(a, p)->0.token@ == t
}

/// Some account holds `t` as its live token for `p`.
pub open spec fn is_live(accts: Seq<Account>, p: Purpose, t: Seq<char>) -> bool {
    exists|i: int| 0 <= i < accts.len() && holds(#[trigger] accts[i], p, t)
}

/// Two grants, where both are present, carry different tokens.
pub open spec fn tokens_differ(x: Option<TokenGrant>, y: Option<TokenGrant>) -> bool {
    x is Some && y is Some ==> x->0.token@ != y->0.token@
}

/// Two accounts share no id, username, email or live token of a purpose.
pub open spec fn distinct_accounts(a: Account, b: Account) -> bool {
    &&& a.user.user_id != b.user.user_id
    &&& a.user.username@ != b.user.username@
    &&& a.user.email@ != b.user.email@
    &&& tokens_differ(a.activation, b.activation)
    &&& tokens_differ(a.reset, b.reset)
}

/// Ids, usernames and emails are unique, and so is each live token of a purpose.
pub open spec fn accounts_wf(accts: Seq<Account>) -> bool {
    forall|i: int, j: int|
        0 <= i < accts.len() && 0 <= j < accts.len() && i != j ==> distinct_accounts(
            #[trigger] accts[i],
            #[trigger] accts[j],
        )
}

/// Account `i` may take `a`'s slot for `q`: it is kept, emptied, or given a
/// token that no account holds.
pub open spec fn slot_acceptable(accts: Seq<Account>, i: int, a: Account, q: Purpose) -> bool {
    slot(a, q) == slot(accts[i], q) || slot(a, q) is None || !is_live(accts, q, slot(a, q)->0.token@)
}

/// A grant issued at `issued_at` is still redeemable at `now`.
pub open spec fn is_fresh(issued_at: u64, ttl: u64, now: u64) -> bool {
    now as int <= issued_at as int + ttl as int
}

/// The index of the account that holds `t` for `p`, where one does.
pub open spec fn holder(accts: Seq<Account>, p: Purpose, t: Seq<char>) -> int {
    choose|i: int| 0 <= i < accts.len() && holds(#[trigger] accts[i], p, t)
}

pub open spec fn grant(token: String, now: u64) -> TokenGrant {
    TokenGrant { token, issued_at: now }
}

/// The accounts once account `i` holds `token` for `p`, the earlier one dropped.
pub open spec fn after_issue(accts: Seq<Account>, i: int, p: Purpose, token: String, now: u64) -> Seq<
    Account,
> {
    accts.update(i, with_slot(accts[i], p, Some(grant(token, now))))
}

/// What redeeming `t` for `p` at `now` returns.
pub open spec fn redeem_result(accts: Seq<Account>, ttl: u64, p: Purpose, t: Seq<char>, now: u64) -> Result<
    u128,
    TokenError,
> {
    if is_live(accts, p, t) {
        let i = holder(accts, p, t);
        if is_fresh(slot(accts[i], p)->0.issued_at, ttl, now) {
            Ok(accts[i].user.user_id)
        } else {
            Err(TokenError::Expired)
        }
    } else {
        Err(TokenError::NotFound)
    }
}

/// The accounts after redeeming `t` for `p` at `now`: a successful redemption
/// empties the holder's slot.
pub open spec fn after_redeem(accts: Seq<Account>, ttl: u64, p: Purpose, t: Seq<char>, now: u64) -> Seq<
    Account,
> {
    if redeem_result(accts, ttl, p, t, now) is Ok {
        let i = holder(accts, p, t);
        accts.update(i, with_slot(accts[i], p, None))
    } else {
        accts
    }
}

pub open spec fn index_of_id(accts: Seq<Account>, id: u128) -> int {
    choose|i: int| 0 <= i < accts.len() && (#[trigger] accts[i]).user.user_id == id
}

pub open spec fn index_of_username(accts: Seq<Account>, name: Seq<char>) -> int {
    choose|i: int| 0 <= i < accts.len() && (#[trigger] accts[i]).user.username@ == name
}

pub open spec fn index_of_email(accts: Seq<Account>, email: Seq<char>) -> int {
    choose|i: int| 0 <= i < accts.len() && (#[trigger] accts[i]).user.email@ == email
}

pub open spec fn has_id(accts: Seq<Account>, id: u128) -> bool {
    exists|i: int| 0 <= i < accts.len() && (#[trigger] accts[i]).user.user_id == id
}

pub open spec fn has_username(accts: Seq<Account>, name: Seq<char>) -> bool {
    exists|i: int| 0 <= i < accts.len() && (#[trigger] accts[i]).user.username@ == name
}

pub open spec fn has_email(accts: Seq<Account>, email: Seq<char>) -> bool {
    exists|i: int| 0 <= i < accts.len() && (#[trigger] accts[i]).user.email@ == email
}

pub proof fn lemma_holder_unique(accts: Seq<Account>, p: Purpose, t: Seq<char>, k: int)
    requires
        accounts_wf(accts),
        0 <= k < accts.len(),
        holds(accts[k], p, t),
    ensures
        is_live(accts, p, t),
        holder(accts, p, t) == k,
{
    assert(holds(accts[k], p, t));
    let i = holder(accts, p, t);
    if i != k {
        assert(distinct_accounts(accts[i], accts[k]));
    }
}

/// Replacing account `i` by one with the same user and acceptable slots keeps
/// the store well formed.
pub proof fn lemma_update_keeps_wf(accts: Seq<Account>, i: int, a: Account)
    requires
        accounts_wf(accts),
        0 <= i < accts.len(),
        a.user == accts[i].user,
        slot_acceptable(accts, i, a, Purpose::Activation),
        slot_acceptable(accts, i, a, Purpose::Reset),
    ensures
        accounts_wf(accts.update(i, a)),
{
    let na = accts.update(i, a);
    assert forall|x: int, y: int|
        0 <= x < na.len() && 0 <= y < na.len() && x != y implies distinct_accounts(
        #[trigger] na[x],
        #[trigger] na[y],
    ) by {
        assert(distinct_accounts(accts[x], accts[y]));
        if x == i {
            assert(!holds(accts[y], Purpose::Activation, a.activation->0.token@) || a.activation
                is None || a.activation == accts[i].activation);
            assert(!holds(accts[y], Purpose::Reset, a.reset->0.token@) || a.reset is None
                || a.reset == accts[i].reset);
        } else if y == i {
            assert(!holds(accts[x], Purpose::Activation, a.activation->0.token@) || a.activation
                is None || a.activation == accts[i].activation);
            assert(!holds(accts[x], Purpose::Reset, a.reset->0.token@) || a.reset is None
                || a.reset == accts[i].reset);
        }
    }
}

impl IdentityStore {
    pub open spec fn wf(&self) -> bool {
        accounts_wf(self.accounts@)
    }

    /// An empty store whose tokens live `token_ttl` seconds.
    pub fn new(token_ttl: u64) -> (r: IdentityStore)
        ensures
            r.accounts@.len() == 0,
            r.token_ttl == token_ttl,
            r.wf(),
    {
        IdentityStore { accounts: Vec::new(), token_ttl }
    }

    pub fn find_by_id(&self, id: u128) -> (r: Option<usize>)
        requires
            self.wf(),
        ensures
            match r {
                Some(i) => i < self.accounts@.len() && self.accounts@[i as int].user.user_id == id
                    && index_of_id(self.accounts@, id) == i,
                None => !has_id(self.accounts@, id),
            },
    {
        let mut i: usize = 0;
        while i < self.accounts.len()
            invariant
                i <= self.accounts@.len(),
                self.wf(),
                forall|j: int| 0 <= j < i ==> (#[trigger] self.accounts@[j]).user.user_id != id,
            decreases self.accounts@.len() - i,
        {
            if self.accounts[i].user.user_id == id {
                let ghost k = index_of_id(self.accounts@, id);
                assert(self.accounts@[i as int].user.user_id == id);
                assert(k == i) by {
                    assert(has_id(self.accounts@, id));
                    assert(0 <= k < self.accounts@.len() && self.accounts@[k].user.user_id == id);
                    if k != i {
                        assert(self.accounts@[k].user.user_id != self.accounts@[i as int].user.user_id);
                    }
                }
                return Some(i);
            }
            i = i + 1;
        }
        None
    }

    pub fn find_by_username(&self, name: &String) -> (r: Option<usize>)
        requires
            self.wf(),
        ensures
            match r {
                Some(i) => i < self.accounts@.len() && self.accounts@[i as int].user.username@
                    == name@ && has_username(self.accounts@, name@) && index_of_username(
                    self.accounts@,
                    name@,
                ) == i,
                None => !has_username(self.accounts@, name@),
            },
    {
        let mut i: usize = 0;
        while i < self.accounts.len()
            invariant
                i <= self.accounts@.len(),
                self.wf(),
                forall|j: int| 0 <= j < i ==> (#[trigger] self.accounts@[j]).user.username@ != name@,
            decreases self.accounts@.len() - i,
        {
            if self.accounts[i].user.username == *name {
                let ghost k = index_of_username(self.accounts@, name@);
                assert(has_username(self.accounts@, name@));
                assert(k == i) by {
                    if k != i {
                        assert(self.accounts@[k].user.username@ != self.accounts@[i as int].user.username@);
                    }
                }
                return Some(i);
            }
            i = i + 1;
        }
        None
    }

    pub fn find_by_email(&self, email: &String) -> (r: Option<usize>)
        requires
            self.wf(),
        ensures
            match r {
                Some(i) => i < self.accounts@.len() && self.accounts@[i as int].user.email@
                    == email@ && has_email(self.accounts@, email@) && index_of_email(
                    self.accounts@,
                    email@,
                ) == i,
                None => !has_email(self.accounts@, email@),
            },
    {
        let mut i: usize = 0;
        while i < self.accounts.len()
            invariant
                i <= self.accounts@.len(),
                self.wf(),
                forall|j: int| 0 <= j < i ==> (#[trigger] self.accounts@[j]).user.email@ != email@,
            decreases self.accounts@.len() - i,
        {
            if self.accounts[i].user.email == *email {
                let ghost k = index_of_email(self.accounts@, email@);
                assert(has_email(self.accounts@, email@));
                assert(k == i) by {
                    if k != i {
                        assert(self.accounts@[k].user.email@ != self.accounts@[i as int].user.email@);
                    }
                }
                return Some(i);
            }
            i = i + 1;
        }
        None
    }
}

} // verus!
