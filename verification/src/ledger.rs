//! The balance ledger: what one owner may withdraw, token by token.
//!
//! The ledger knows nothing of whitelists or transfers. It is a map from token to a
//! non-negative amount, kept as a list of entries; a token without an entry has balance
//! zero.

use vstd::prelude::*;
use crate::error::ErrorCode;
use crate::identity::Identity;

verus! {

/// The amount a ledger records for `token`: zero where it records nothing.
pub open spec fn balance(ledger: Map<Identity, nat>, token: Identity) -> nat {
    if ledger.dom().contains(token) {
        ledger[token]
    } else {
        0
    }
}

/// The ledger after `amount` has been added to what it records for `token`.
pub open spec fn credited(ledger: Map<Identity, nat>, token: Identity, amount: nat) -> Map<
    Identity,
    nat,
> {
    ledger.insert(token, balance(ledger, token) + amount)
}

/// The ledger after `amount` has been taken from what it records for `token`.
/// Meant for `amount <= balance(ledger, token)`.
pub open spec fn debited(ledger: Map<Identity, nat>, token: Identity, amount: nat) -> Map<
    Identity,
    nat,
> {
    ledger.insert(token, (balance(ledger, token) - amount) as nat)
}

/// `i` is the place of the first entry for `token`.
pub open spec fn is_entry_of(entries: Seq<(Identity, u64)>, token: Identity, i: int) -> bool {
    &&& 0 <= i < entries.len()
    &&& entries[i].0 == token
    &&& forall|j: int| 0 <= j < i ==> (#[trigger] entries[j]).0 != token
}

/// Some entry is for `token`.
pub open spec fn has_entry(entries: Seq<(Identity, u64)>, token: Identity) -> bool {
    exists|i: int| is_entry_of(entries, token, i)
}

/// The place of the first entry for `token`, where there is one.
pub open spec fn entry_of(entries: Seq<(Identity, u64)>, token: Identity) -> int {
    choose|i: int| is_entry_of(entries, token, i)
}

/// The map that a list of entries stands for. Where a token has several entries, the first
/// one counts.
pub open spec fn recorded(entries: Seq<(Identity, u64)>) -> Map<Identity, nat> {
    Map::new(
        |token: Identity| has_entry(entries, token),
        |token: Identity| entries[entry_of(entries, token)].1 as nat,
    )
}

/// The list after `amount` has been added for `token`: the first entry for the token holds
/// the sum, or, where the token had no entry, a new last entry holds the amount.
pub open spec fn credited_entries(
    entries: Seq<(Identity, u64)>,
    token: Identity,
    amount: u64,
) -> Seq<(Identity, u64)> {
    if has_entry(entries, token) {
        let i = entry_of(entries, token);
        entries.update(i, (token, (entries[i].1 + amount) as u64))
    } else {
        entries.push((token, amount))
    }
}

/// The list after `amount` has been taken for `token`: the first entry for the token holds
/// the difference. Meant for a token with an entry of at least `amount`.
pub open spec fn debited_entries(
    entries: Seq<(Identity, u64)>,
    token: Identity,
    amount: u64,
) -> Seq<(Identity, u64)> {
    let i = entry_of(entries, token);
    entries.update(i, (token, (entries[i].1 - amount) as u64))
}

/// No token has two entries.
pub open spec fn distinct_tokens(entries: Seq<(Identity, u64)>) -> bool {
    forall|i: int, j: int|
        0 <= i < j < entries.len() ==> (#[trigger] entries[i]).0 != (#[trigger] entries[j]).0
}

/// A token has at most one first entry.
proof fn lemma_entry_unique(entries: Seq<(Identity, u64)>, token: Identity, i: int, j: int)
    requires
        is_entry_of(entries, token, i),
        is_entry_of(entries, token, j),
    ensures
        i == j,
{
    if i < j {
        assert(entries[i].0 != token);
    } else if j < i {
        assert(entries[j].0 != token);
    }
}

/// The first entry for `token` decides what is recorded for it.
proof fn lemma_entry_decides(entries: Seq<(Identity, u64)>, token: Identity, i: int)
    requires
        is_entry_of(entries, token, i),
    ensures
        has_entry(entries, token),
        entry_of(entries, token) == i,
        recorded(entries).dom().contains(token),
        recorded(entries)[token] == entries[i].1,
        balance(recorded(entries), token) == entries[i].1,
{
    lemma_entry_unique(entries, token, i, entry_of(entries, token));
}

/// Two lists that agree on `token` place by place have the same first entry for it.
proof fn lemma_same_entry(
    before: Seq<(Identity, u64)>,
    after: Seq<(Identity, u64)>,
    token: Identity,
)
    requires
        before.len() <= after.len(),
        forall|j: int|
            0 <= j < before.len() ==> ((#[trigger] before[j]).0 == token <==> (
            #[trigger] after[j]).0 == token),
        forall|j: int| before.len() <= j < after.len() ==> (#[trigger] after[j]).0 != token,
    ensures
        has_entry(after, token) == has_entry(before, token),
        has_entry(after, token) ==> entry_of(after, token) == entry_of(before, token),
{
    if has_entry(before, token) {
        let i = entry_of(before, token);
        assert(is_entry_of(after, token, i)) by {
            assert(after[i].0 == token <==> before[i].0 == token);
            assert forall|j: int| 0 <= j < i implies (#[trigger] after[j]).0 != token by {
                assert(before[j].0 != token);
            }
        }
        lemma_entry_decides(after, token, i);
    }
    if has_entry(after, token) {
        let i = entry_of(after, token);
        assert(is_entry_of(before, token, i)) by {
            assert(i < before.len());
            assert(after[i].0 == token <==> before[i].0 == token);
            assert forall|j: int| 0 <= j < i implies (#[trigger] before[j]).0 != token by {
                assert(after[j].0 != token);
            }
        }
        lemma_entry_decides(before, token, i);
    }
}

/// Writing a new amount into the first entry for `token` changes what is recorded for
/// `token` and nothing else.
proof fn lemma_recorded_update(entries: Seq<(Identity, u64)>, token: Identity, i: int, amount: u64)
    requires
        is_entry_of(entries, token, i),
    ensures
        recorded(entries.update(i, (token, amount))) == recorded(entries).insert(
            token,
            amount as nat,
        ),
        distinct_tokens(entries) ==> distinct_tokens(entries.update(i, (token, amount))),
{
    let after = entries.update(i, (token, amount));
    lemma_entry_decides(entries, token, i);
    assert forall|t: Identity|
        has_entry(after, t) == has_entry(entries, t) && (has_entry(after, t) ==> entry_of(
            after,
            t,
        ) == entry_of(entries, t)) by {
        lemma_same_entry(entries, after, t);
    }
    assert(recorded(after) =~= recorded(entries).insert(token, amount as nat));
    if distinct_tokens(entries) {
        assert forall|a: int, b: int| 0 <= a < b < after.len() implies (#[trigger] after[a]).0 != (
        #[trigger] after[b]).0 by {
            assert(after[a].0 == entries[a].0 && after[b].0 == entries[b].0);
        }
    }
}

/// Appending an entry for a token that has none records the amount for that token and
/// changes nothing else.
proof fn lemma_recorded_push(entries: Seq<(Identity, u64)>, token: Identity, amount: u64)
    requires
        forall|j: int| 0 <= j < entries.len() ==> (#[trigger] entries[j]).0 != token,
    ensures
        recorded(entries.push((token, amount))) == recorded(entries).insert(token, amount as nat),
        distinct_tokens(entries) ==> distinct_tokens(entries.push((token, amount))),
{
    let after = entries.push((token, amount));
    let last = entries.len() as int;
    assert(is_entry_of(after, token, last)) by {
        assert forall|j: int| 0 <= j < last implies (#[trigger] after[j]).0 != token by {
            assert(after[j] == entries[j]);
        }
    }
    lemma_entry_decides(after, token, last);
    assert forall|t: Identity|
        t != token implies has_entry(after, t) == has_entry(entries, t) && (has_entry(after, t)
            ==> entry_of(after, t) == entry_of(entries, t)) by {
        assert forall|j: int| 0 <= j < entries.len() implies ((#[trigger] entries[j]).0 == t <==> (
        #[trigger] after[j]).0 == t) by {
            assert(after[j] == entries[j]);
        }
        lemma_same_entry(entries, after, t);
    }
    assert(recorded(after) =~= recorded(entries).insert(token, amount as nat));
    if distinct_tokens(entries) {
        assert forall|a: int, b: int| 0 <= a < b < after.len() implies (#[trigger] after[a]).0 != (
        #[trigger] after[b]).0 by {
            assert(after[a] == entries[a]);
            if b < last {
                assert(after[b] == entries[b]);
            }
        }
    }
}

/// In a list where no token has two entries, every entry counts: the map records each
/// entry's amount for its token, and it records something for a token only where the list
/// has an entry for it.
pub proof fn every_entry_is_recorded(entries: Seq<(Identity, u64)>, token: Identity)
    requires
        distinct_tokens(entries),
    ensures
        forall|i: int|
            0 <= i < entries.len() && (#[trigger] entries[i]).0 == token ==> recorded(
                entries,
            ).dom().contains(token) && recorded(entries)[token] == entries[i].1,
        recorded(entries).dom().contains(token) ==> exists|i: int|
            0 <= i < entries.len() && (#[trigger] entries[i]).0 == token,
{
    assert forall|i: int|
        0 <= i < entries.len() && (#[trigger] entries[i]).0 == token implies recorded(
        entries,
    ).dom().contains(token) && recorded(entries)[token] == entries[i].1 by {
        assert(is_entry_of(entries, token, i));
        lemma_entry_decides(entries, token, i);
    }
    if recorded(entries).dom().contains(token) {
        assert(is_entry_of(entries, token, entry_of(entries, token)));
    }
}

/// The ledger account of one owner: for each token the owner has transacted in, the amount
/// the owner may withdraw.
#[derive(Clone, Debug, PartialEq, Eq)]
pub struct BankAccount {
    /// The principal this account belongs to. Fixed when the account is created.
    pub owner: Identity,
    /// One entry per token: the token and the balance, in the token's smallest unit.
    pub balances: Vec<(Identity, u64)>,
}

impl View for BankAccount {
    type V = Map<Identity, nat>;

    /// The balances as a map from token to amount.
    open spec fn view(&self) -> Map<Identity, nat> {
        recorded(self.balances@)
    }
}

impl BankAccount {
    /// The account is well formed: no token has two entries.
    pub open spec fn wf(&self) -> bool {
        distinct_tokens(self.balances@)
    }

    /// A new account of `owner`, with nothing recorded.
    pub fn new(owner: Identity) -> (account: BankAccount)
        ensures
            account.owner == owner,
            account.balances@ == Seq::<(Identity, u64)>::empty(),
            account@ == Map::<Identity, nat>::empty(),
            account.wf(),
    {
        BankAccount { owner, balances: Vec::new() }
    }

    /// The place of the first entry for `token`, if there is one.
    fn find(&self, token: Identity) -> (place: Option<usize>)
        ensures
            match place {
                Some(i) => is_entry_of(self.balances@, token, i as int),
                None => !has_entry(self.balances@, token) && forall|j: int|
                    0 <= j < self.balances@.len() ==> (#[trigger] self.balances@[j]).0 != token,
            },
    {
        let mut i: usize = 0;
        while i < self.balances.len()
            invariant
                i <= self.balances@.len(),
                forall|j: int| 0 <= j < i ==> (#[trigger] self.balances@[j]).0 != token,
            decreases self.balances@.len() - i,
        {
            if self.balances[i].0 == token {
                return Some(i);
            }
            i += 1;
        }
        None
    }

    /// The balance recorded for `token`: zero where nothing is recorded.
    pub fn balance_of(&self, token: Identity) -> (amount: u64)
        ensures
            amount == balance(self@, token),
    {
        match self.find(token) {
            Some(i) => {
                proof {
                    lemma_entry_decides(self.balances@, token, i as int);
                }
                self.balances[i].1
            },
            None => 0,
        }
    }

    /// Whether the balance recorded for `token` covers `amount`.
    pub fn has_sufficient_balance(&self, token: Identity, amount: u64) -> (covered: bool)
        ensures
            covered == (balance(self@, token) >= amount),
    {
        self.balance_of(token) >= amount
    }

    /// Adds `amount` to the balance of `token`, making an entry for the token where it has
    /// none. Refused with `LedgerOverflow`, and without effect, where the sum would not fit
    /// in 64 bits.
    pub fn add_balance(&mut self, token: Identity, amount: u64) -> (result: Result<(), ErrorCode>)
        ensures
            match result {
                Ok(()) => {
                    &&& balance(old(self)@, token) + amount <= u64::MAX
                    &&& final(self)@ == credited(old(self)@, token, amount as nat)
                    &&& final(self).balances@ == credited_entries(
                        old(self).balances@,
                        token,
                        amount,
                    )
                    &&& final(self).owner == old(self).owner
                },
                Err(e) => {
                    &&& e == ErrorCode::LedgerOverflow
                    &&& balance(old(self)@, token) + amount > u64::MAX
                    &&& *final(self) == *old(self)
                },
            },
            old(self).wf() ==> final(self).wf(),
    {
        match self.find(token) {
            Some(i) => {
                proof {
                    lemma_entry_decides(self.balances@, token, i as int);
                }
                match self.balances[i].1.checked_add(amount) {
                    Some(sum) => {
                        proof {
                            lemma_recorded_update(self.balances@, token, i as int, sum);
                        }
                        self.balances[i] = (token, sum);
                        Ok(())
                    },
                    None => Err(ErrorCode::LedgerOverflow),
                }
            },
            None => {
                proof {
                    lemma_recorded_push(self.balances@, token, amount);
                }
                self.balances.push((token, amount));
                Ok(())
            },
        }
    }

    /// Takes `amount` from the balance of `token`. Refused with `InsufficientUserBalance`,
    /// and without effect, where the token has no entry or its balance is less than
    /// `amount`.
    pub fn subtract_balance(&mut self, token: Identity, amount: u64) -> (result: Result<
        (),
        ErrorCode,
    >)
        ensures
            match result {
                Ok(()) => {
                    &&& old(self)@.dom().contains(token)
                    &&& old(self)@[token] >= amount
                    &&& final(self)@ == debited(old(self)@, token, amount as nat)
                    &&& final(self).balances@ == debited_entries(
                        old(self).balances@,
                        token,
                        amount,
                    )
                    &&& final(self).owner == old(self).owner
                },
                Err(e) => {
                    &&& e == ErrorCode::InsufficientUserBalance
                    &&& !(old(self)@.dom().contains(token) && old(self)@[token] >= amount)
                    &&& *final(self) == *old(self)
                },
            },
            old(self).wf() ==> final(self).wf(),
    {
        match self.find(token) {
            Some(i) => {
                proof {
                    lemma_entry_decides(self.balances@, token, i as int);
                }
                let held: u64 = self.balances[i].1;
                if held < amount {
                    return Err(ErrorCode::InsufficientUserBalance);
                }
                proof {
                    lemma_recorded_update(self.balances@, token, i as int, (held - amount) as u64);
                }
                self.balances[i] = (token, held - amount);
                Ok(())
            },
            None => Err(ErrorCode::InsufficientUserBalance),
        }
    }
}

} // verus!
