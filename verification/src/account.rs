//! A user account: its balance ledger and the set of wagers it has open.

use vstd::prelude::*;
use crate::error::ErrorCode;
use crate::identity::Identity;

verus! {

/// One user's account.
#[derive(Clone, Debug, PartialEq, Eq)]
pub struct UserAccount {
    pub account_owner: Identity,
    pub wins: u64,
    pub losses: u64,
    /// The identities of the owner's open wagers.
    pub active_wagers: Vec<Identity>,
    /// The available balance, in the smallest unit of the currency.
    pub current_balance: u64,
}

/// What a [`UserAccount`] holds, with the open wagers as a sequence.
pub struct UserAccountView {
    pub account_owner: Identity,
    pub wins: u64,
    pub losses: u64,
    pub active_wagers: Seq<Identity>,
    pub current_balance: u64,
}

impl View for UserAccount {
    type V = UserAccountView;

    open spec fn view(&self) -> UserAccountView {
        UserAccountView {
            account_owner: self.account_owner,
            wins: self.wins,
            losses: self.losses,
            active_wagers: self.active_wagers@,
            current_balance: self.current_balance,
        }
    }
}

/// Whether `index` is where `wager` first stands in `wagers`.
pub open spec fn is_first_position(wagers: Seq<Identity>, wager: Identity, index: int) -> bool {
    &&& 0 <= index < wagers.len()
    &&& wagers[index] == wager
    &&& forall|j: int| 0 <= j < index ==> wagers[j] != wager
}

/// Where `wager` first stands in `wagers`, if it stands there at all.
pub open spec fn first_position(wagers: Seq<Identity>, wager: Identity) -> Option<int> {
    if wagers.contains(wager) {
        Some(choose|index: int| is_first_position(wagers, wager, index))
    } else {
        None
    }
}

/// A position that meets `is_first_position` is the one `first_position` names.
pub proof fn lemma_first_position(wagers: Seq<Identity>, wager: Identity, index: int)
    requires
        is_first_position(wagers, wager, index),
    ensures
        first_position(wagers, wager) == Some(index),
{
    assert(wagers.contains(wager));
    let chosen = choose|i: int| is_first_position(wagers, wager, i);
    assert(is_first_position(wagers, wager, chosen));
    if chosen < index {
        assert(wagers[chosen] != wager);
    } else if index < chosen {
        assert(wagers[index] != wager);
    }
}

/// A listed wager has a first position.
pub proof fn lemma_first_position_exists(wagers: Seq<Identity>, wager: Identity)
    requires
        wagers.contains(wager),
    ensures
        first_position(wagers, wager) matches Some(index) && is_first_position(
            wagers,
            wager,
            index,
        ),
{
    let at = choose|i: int| 0 <= i < wagers.len() && wagers[i] == wager;
    lemma_first_position_before(wagers, wager, at);
    let index = choose|i: int| is_first_position(wagers, wager, i);
    lemma_first_position(wagers, wager, index);
}

proof fn lemma_first_position_before(wagers: Seq<Identity>, wager: Identity, at: int)
    requires
        0 <= at < wagers.len(),
        wagers[at] == wager,
    ensures
        exists|index: int| is_first_position(wagers, wager, index),
    decreases at,
{
    if exists|j: int| 0 <= j < at && wagers[j] == wager {
        let j = choose|j: int| 0 <= j < at && wagers[j] == wager;
        lemma_first_position_before(wagers, wager, j);
    } else {
        assert(is_first_position(wagers, wager, at));
    }
}

impl UserAccountView {
    /// The invariant of an account: no wager is listed twice.
    pub open spec fn wf(self) -> bool {
        self.active_wagers.no_duplicates()
    }

    /// Whether `wager` is among the open wagers.
    pub open spec fn holds(self, wager: Identity) -> bool {
        self.active_wagers.contains(wager)
    }

    /// The account with a new balance.
    pub open spec fn with_balance(self, balance: int) -> UserAccountView {
        UserAccountView { current_balance: balance as u64, ..self }
    }

    /// The account after `wager` was added to the open wagers.
    pub open spec fn listing(self, wager: Identity) -> UserAccountView {
        UserAccountView { active_wagers: self.active_wagers.push(wager), ..self }
    }

    /// The account after the first listing of `wager` was struck from the
    /// open wagers; unchanged where `wager` is not listed.
    pub open spec fn retiring(self, wager: Identity) -> UserAccountView {
        match first_position(self.active_wagers, wager) {
            Some(index) => UserAccountView {
                active_wagers: self.active_wagers.remove(index),
                ..self
            },
            None => self,
        }
    }
}

impl UserAccount {
    /// The invariant of an account: no wager is listed twice.
    pub open spec fn wf(&self) -> bool {
        self@.wf()
    }

    /// A new account of `account_owner`: nothing won, nothing lost, no open
    /// wager, no balance.
    pub fn new(account_owner: Identity) -> (account: UserAccount)
        ensures
            account@ == (UserAccountView {
                account_owner,
                wins: 0,
                losses: 0,
                active_wagers: Seq::empty(),
                current_balance: 0,
            }),
            account.wf(),
    {
        UserAccount {
            account_owner,
            wins: 0,
            losses: 0,
            active_wagers: Vec::new(),
            current_balance: 0,
        }
    }

    /// Where `wager` first stands among the open wagers.
    pub fn position_of(&self, wager: &Identity) -> (position: Option<usize>)
        ensures
            match position {
                Some(index) => first_position(self.active_wagers@, *wager) == Some(index as int)
                    && is_first_position(self.active_wagers@, *wager, index as int),
                None => first_position(self.active_wagers@, *wager) is None,
            },
            position is Some <==> self@.holds(*wager),
    {
        let mut i: usize = 0;
        while i < self.active_wagers.len()
            invariant
                i <= self.active_wagers.len(),
                forall|j: int| 0 <= j < i ==> self.active_wagers@[j] != *wager,
            decreases self.active_wagers.len() - i,
        {
            if self.active_wagers[i] == *wager {
                proof {
                    lemma_first_position(self.active_wagers@, *wager, i as int);
                }
                return Some(i);
            }
            i += 1;
        }
        None
    }

    /// Credits `amount` to the balance.
    ///
    /// Refused with `ArithmeticOverflow`, and the account unchanged, when the
    /// sum does not fit the balance.
    pub fn credit_from_settlement(&mut self, amount: u64) -> (r: Result<(), ErrorCode>)
        ensures
            old(self).current_balance + amount > u64::MAX ==> r == Err::<(), ErrorCode>(
                ErrorCode::ArithmeticOverflow,
            ) && *final(self) == *old(self),
            old(self).current_balance + amount <= u64::MAX ==> r is Ok && final(self)@ == old(self)@.with_balance(old(self).current_balance + amount),
    {
        match self.current_balance.checked_add(amount) {
            Some(balance) => {
                self.current_balance = balance;
                Ok(())
            },
            None => Err(ErrorCode::ArithmeticOverflow),
        }
    }

    /// Debits `amount` from the balance.
    ///
    /// Refused with `ArithmeticOverflow`, and the account unchanged, when the
    /// balance is smaller than the amount: a balance never goes below zero.
    pub fn debit_for_wager(&mut self, amount: u64) -> (r: Result<(), ErrorCode>)
        ensures
            old(self).current_balance < amount ==> r == Err::<(), ErrorCode>(
                ErrorCode::ArithmeticOverflow,
            ) && *final(self) == *old(self),
            old(self).current_balance >= amount ==> r is Ok && final(self)@ == old(self)@.with_balance(old(self).current_balance - amount),
    {
        match self.current_balance.checked_sub(amount) {
            Some(balance) => {
                self.current_balance = balance;
                Ok(())
            },
            None => Err(ErrorCode::ArithmeticOverflow),
        }
    }

    /// Lists `wager` among the open wagers.
    pub fn list_wager(&mut self, wager: Identity)
        ensures
            final(self)@ == old(self)@.listing(wager),
            old(self).wf() && !old(self)@.holds(wager) ==> final(self).wf(),
    {
        self.active_wagers.push(wager);
        proof {
            let before = old(self).active_wagers@;
            let after = self.active_wagers@;
            if old(self).wf() && !before.contains(wager) {
                assert forall|i: int, j: int|
                    0 <= i < after.len() && 0 <= j < after.len() && i != j implies after[i]
                    != after[j] by {
                    if i < before.len() && j < before.len() {
                        assert(before[i] != before[j]);
                    } else if i < before.len() {
                        assert(before.contains(before[i]));
                    } else {
                        assert(before.contains(before[j]));
                    }
                }
            }
        }
    }

    /// Strikes the first listing of `wager` from the open wagers.
    ///
    /// Refused with `ActiveWagerNotFound`, and the account unchanged, when
    /// `wager` is not listed.
    pub fn retire_wager(&mut self, wager: &Identity) -> (r: Result<(), ErrorCode>)
        ensures
            !old(self)@.holds(*wager) ==> r == Err::<(), ErrorCode>(
                ErrorCode::ActiveWagerNotFound,
            ) && *final(self) == *old(self),
            old(self)@.holds(*wager) ==> r is Ok && final(self)@ == old(self)@.retiring(*wager),
            old(self).wf() ==> final(self).wf(),
            old(self).wf() && r is Ok ==> !final(self)@.holds(*wager),
    {
        match self.position_of(wager) {
            Some(index) => {
                self.active_wagers.remove(index);
                proof {
                    if old(self).wf() {
                        lemma_retiring_keeps_wf(old(self)@, *wager);
                    }
                }
                Ok(())
            },
            None => Err(ErrorCode::ActiveWagerNotFound),
        }
    }
}

/// Striking a wager from a list without duplicates leaves a list without
/// duplicates, in which the wager no longer stands.
pub proof fn lemma_retiring_keeps_wf(account: UserAccountView, wager: Identity)
    requires
        account.wf(),
    ensures
        account.retiring(wager).wf(),
        !account.retiring(wager).holds(wager),
{
    let before = account.active_wagers;
    match first_position(before, wager) {
        Some(index) => {
            lemma_first_position_exists(before, wager);
            let after = before.remove(index);
            assert forall|i: int, j: int|
                0 <= i < after.len() && 0 <= j < after.len() && i != j implies after[i]
                != after[j] by {
                let bi = if i < index { i } else { i + 1 };
                let bj = if j < index { j } else { j + 1 };
                assert(after[i] == before[bi]);
                assert(after[j] == before[bj]);
                assert(before[bi] != before[bj]);
            }
            assert forall|i: int| 0 <= i < after.len() implies after[i] != wager by {
                let bi = if i < index { i } else { i + 1 };
                assert(after[i] == before[bi]);
                assert(before[bi] != before[index]);
            }
        },
        None => {},
    }
}

} // verus!
