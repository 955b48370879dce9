use crate::store::{
    after_issue, after_redeem, grant, has_id, holder, holds, index_of_id, is_live,
    lemma_holder_unique, lemma_update_keeps_wf, redeem_result, slot, with_slot, Account, IdentityStore, IssueError, Purpose,
    TokenError, TokenGrant,
};
use vstd::prelude::*;

verus! {

/// The live token of `p` that `a` holds, as an executable read.
fn slot_of(a: &Account, p: Purpose) -> (r: &Option<TokenGrant>)
    ensures
        *r == slot(*a, p),
{
    match p {
        Purpose::Activation => &a.activation,
        Purpose::Reset => &a.reset,
    }
}

impl IdentityStore {
    /// The index of the account holding `token` for `p`, if any does.
    pub fn find_holder(&self, token: &String, p: Purpose) -> (r: Option<usize>)
        requires
            self.wf(),
        ensures
            match r {
                Some(k) => k < self.accounts@.len() && holds(self.accounts@[k as int], p, token@)
                    && is_live(self.accounts@, p, token@) && holder(self.accounts@, p, token@) == k,
                None => !is_live(self.accounts@, p, token@),
            },
    {
        let mut i: usize = 0;
        while i < self.accounts.len()
            invariant
                i <= self.accounts@.len(),
                self.wf(),
                forall|j: int| 0 <= j < i ==> !holds(#[trigger] self.accounts@[j], p, token@),
            decreases self.accounts@.len() - i,
        {
            let s = slot_of(&self.accounts[i], p);
            match s {
                Some(g) => {
                    if g.token == *token {
                        proof {
                            lemma_holder_unique(self.accounts@, p, token@, i as int);
                        }
                        return Some(i);
                    }
                },
                None => {},
            }
            i = i + 1;
        }
        None
    }

    /// Makes `token` the one live token of `p` for the user `user_id`,
    /// superseding the one it held before.
    pub fn issue(&mut self, user_id: u128, p: Purpose, token: String, now: u64) -> (r: Result<
        (),
        IssueError,
    >)
        requires
            old(self).wf(),
        ensures
            final(self).wf(),
            final(self).token_ttl == old(self).token_ttl,
            match r {
                Ok(()) => has_id(old(self).accounts@, user_id) && !is_live(
                    old(self).accounts@,
                    p,
                    token@,
                ) && final(self).accounts@ == after_issue(
                    old(self).accounts@,
                    index_of_id(old(self).accounts@, user_id),
                    p,
                    token,
                    now,
                ),
                Err(IssueError::UnknownUser) => !has_id(old(self).accounts@, user_id)
                    && final(self).accounts@ == old(self).accounts@,
                Err(IssueError::TokenInUse) => has_id(old(self).accounts@, user_id) && is_live(
                    old(self).accounts@,
                    p,
                    token@,
                ) && final(self).accounts@ == old(self).accounts@,
            },
    {
        let i = match self.find_by_id(user_id) {
            Some(i) => i,
            None => {
                return Err(IssueError::UnknownUser);
            },
        };
        if self.find_holder(&token, p).is_some() {
            return Err(IssueError::TokenInUse);
        }
        let ghost before = self.accounts@;
        proof {
            lemma_update_keeps_wf(before, i as int, with_slot(before[i as int], p, Some(grant(token, now))));
        }
        let mut a = self.accounts.remove(i);
        match p {
            Purpose::Activation => {
                a.activation = Some(TokenGrant { token, issued_at: now });
            },
            Purpose::Reset => {
                a.reset = Some(TokenGrant { token, issued_at: now });
            },
        }
        self.accounts.insert(i, a);
        assert(self.accounts@ =~= after_issue(before, i as int, p, token, now));
        Ok(())
    }

    /// Whether `token` could be redeemed for `p` at `now`, without consuming it;
    /// on success, the index of the account that holds it.
    pub(crate) fn check_token(&self, token: &String, p: Purpose, now: u64) -> (r: Result<
        usize,
        TokenError,
    >)
        requires
            self.wf(),
        ensures
            match r {
                Ok(i) => redeem_result(self.accounts@, self.token_ttl, p, token@, now) is Ok && i
                    == holder(self.accounts@, p, token@) && i < self.accounts@.len(),
                Err(e) => redeem_result(self.accounts@, self.token_ttl, p, token@, now) == Err::<
                    u128,
                    TokenError,
                >(e),
            },
    {
        let i = match self.find_holder(token, p) {
            Some(i) => i,
            None => {
                return Err(TokenError::NotFound);
            },
        };
        let issued_at = match slot_of(&self.accounts[i], p) {
            Some(g) => g.issued_at,
            None => {
                return Err(TokenError::NotFound);
            },
        };
        if now > issued_at && now - issued_at > self.token_ttl {
            return Err(TokenError::Expired);
        }
        Ok(i)
    }

    /// Consumes `token` for `p`; on success, the index of the account that held it.
    pub(crate) fn take_token(&mut self, token: &String, p: Purpose, now: u64) -> (r: Result<
        usize,
        TokenError,
    >)
        requires
            old(self).wf(),
        ensures
            final(self).wf(),
            final(self).token_ttl == old(self).token_ttl,
            final(self).accounts@ == after_redeem(
                old(self).accounts@,
                old(self).token_ttl,
                p,
                token@,
                now,
            ),
            match r {
                Ok(i) => redeem_result(old(self).accounts@, old(self).token_ttl, p, token@, now)
                    is Ok && i == holder(old(self).accounts@, p, token@) && i
                    < old(self).accounts@.len(),
                Err(e) => redeem_result(old(self).accounts@, old(self).token_ttl, p, token@, now)
                    == Err::<u128, TokenError>(e),
            },
    {
        let i = match self.check_token(token, p, now) {
            Ok(i) => i,
            Err(e) => {
                return Err(e);
            },
        };
        let ghost before = self.accounts@;
        proof {
            lemma_update_keeps_wf(before, i as int, with_slot(before[i as int], p, None));
        }
        let mut a = self.accounts.remove(i);
        match p {
            Purpose::Activation => {
                a.activation = None;
            },
            Purpose::Reset => {
                a.reset = None;
            },
        }
        self.accounts.insert(i, a);
        assert(self.accounts@ =~= before.update(i as int, with_slot(before[i as int], p, None)));
        Ok(i)
    }

    /// Redeems `token` for `p` at time `now`: the first redemption of the live,
    /// unexpired token gives its owner's id and consumes it.
    pub fn redeem(&mut self, token: &String, p: Purpose, now: u64) -> (r: Result<u128, TokenError>)
        requires
            old(self).wf(),
        ensures
            final(self).wf(),
            final(self).token_ttl == old(self).token_ttl,
            r == redeem_result(old(self).accounts@, old(self).token_ttl, p, token@, now),
            final(self).accounts@ == after_redeem(
                old(self).accounts@,
                old(self).token_ttl,
                p,
                token@,
                now,
            ),
    {
        match self.take_token(token, p, now) {
            Ok(i) => Ok(self.accounts[i].user.user_id),
            Err(e) => Err(e),
        }
    }
}

} // verus!
