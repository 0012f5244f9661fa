//! An in-memory custody ledger: token accounts with an asset, an owner and a
//! balance, and the transfer operation that instructions use to move funds.
use vstd::prelude::*;
use crate::error::TransferError;
use crate::key::Key;

verus! {

/// A custody account holding one asset for one owner.
#[derive(Clone, Copy, Debug)]
pub struct TokenAccount {
    pub address: Key,
    pub mint: Key,
    pub owner: Key,
    pub amount: u64,
}

/// Account addresses are pairwise distinct.
pub open spec fn unique(s: Seq<TokenAccount>) -> bool {
    forall|i: int, j: int|
        0 <= i < s.len() && 0 <= j < s.len() && i != j ==> #[trigger] s[i].address@
            != #[trigger] s[j].address@
}

pub open spec fn has_account(s: Seq<TokenAccount>, k: Seq<u8>) -> bool {
    exists|i: int| 0 <= i < s.len() && #[trigger] s[i].address@ == k
}

pub open spec fn index_of(s: Seq<TokenAccount>, k: Seq<u8>) -> int {
    choose|i: int| 0 <= i < s.len() && #[trigger] s[i].address@ == k
}

/// The account at address `k` (meaningful where `has_account(s, k)`).
pub open spec fn account(s: Seq<TokenAccount>, k: Seq<u8>) -> TokenAccount {
    s[index_of(s, k)]
}

/// The balance held at address `k`; zero where no such account exists.
pub open spec fn balance(s: Seq<TokenAccount>, k: Seq<u8>) -> nat {
    if has_account(s, k) {
        account(s, k).amount as nat
    } else {
        0
    }
}

/// Why moving `amount` from `from` to `to` on the authority of `authority`
/// fails, checked in this order; `None` where it succeeds.
pub open spec fn transfer_check(
    s: Seq<TokenAccount>,
    from: Seq<u8>,
    to: Seq<u8>,
    authority: Seq<u8>,
    amount: u64,
) -> Option<TransferError> {
    if !has_account(s, from) || !has_account(s, to) {
        Some(TransferError::UnknownAccount)
    } else if account(s, from).amount < amount {
        Some(TransferError::InsufficientFunds)
    } else if account(s, from).mint@ != account(s, to).mint@ {
        Some(TransferError::MintMismatch)
    } else if account(s, from).owner@ != authority {
        Some(TransferError::InvalidAuthority)
    } else if from != to && account(s, to).amount + amount > u64::MAX {
        Some(TransferError::Overflow)
    } else {
        None
    }
}

/// One account after `amount` moved from `from` to `to`.
pub open spec fn moved(a: TokenAccount, from: Seq<u8>, to: Seq<u8>, amount: u64) -> TokenAccount {
    if from == to {
        a
    } else if a.address@ == from {
        TokenAccount { amount: (a.amount - amount) as u64, ..a }
    } else if a.address@ == to {
        TokenAccount { amount: (a.amount + amount) as u64, ..a }
    } else {
        a
    }
}

pub open spec fn transferred(s: Seq<TokenAccount>, from: Seq<u8>, to: Seq<u8>, amount: u64) -> Seq<
    TokenAccount,
> {
    s.map_values(|a: TokenAccount| moved(a, from, to, amount))
}

/// The accounts after the transfer, or the error that stops it.
pub open spec fn transfer_outcome(
    s: Seq<TokenAccount>,
    from: Seq<u8>,
    to: Seq<u8>,
    authority: Seq<u8>,
    amount: u64,
) -> Result<Seq<TokenAccount>, TransferError> {
    match transfer_check(s, from, to, authority, amount) {
        Some(e) => Err(e),
        None => Ok(transferred(s, from, to, amount)),
    }
}

/// With unique addresses, the account found at an address is the one there.
pub proof fn lemma_index_of(s: Seq<TokenAccount>, i: int)
    requires
        unique(s),
        0 <= i < s.len(),
    ensures
        has_account(s, s[i].address@),
        index_of(s, s[i].address@) == i,
        account(s, s[i].address@) == s[i],
{
    let k = s[i].address@;
    assert(s[i].address@ == k);
    let j = index_of(s, k);
    assert(s[j].address@ == k);
}

/// A successful transfer keeps the addresses, and changes exactly the two
/// balances involved.
pub proof fn lemma_transfer_balance(
    s: Seq<TokenAccount>,
    from: Seq<u8>,
    to: Seq<u8>,
    authority: Seq<u8>,
    amount: u64,
    k: Seq<u8>,
)
    requires
        unique(s),
        transfer_check(s, from, to, authority, amount) is None,
    ensures
        unique(transferred(s, from, to, amount)),
        has_account(transferred(s, from, to, amount), k) == has_account(s, k),
        balance(transferred(s, from, to, amount), k) == if from == to {
            balance(s, k) as int
        } else if k == from {
            balance(s, k) - amount
        } else if k == to {
            balance(s, k) + amount
        } else {
            balance(s, k) as int
        },
{
    let t = transferred(s, from, to, amount);
    assert forall|i: int| 0 <= i < t.len() implies #[trigger] t[i].address@ == s[i].address@ by {}
    if has_account(s, k) {
        let i = index_of(s, k);
        lemma_index_of(s, i);
        lemma_index_of(t, i);
        if k == from && from != to {
            let j = index_of(s, to);
            lemma_index_of(s, j);
        }
        if k == to && from != to {
            let j = index_of(s, from);
            lemma_index_of(s, j);
        }
    } else {
        if has_account(t, k) {
            let i = index_of(t, k);
            assert(s[i].address@ == k);
        }
    }
}

/// The custody ledger: the accounts, each address present at most once.
pub struct Ledger {
    pub accounts: Vec<TokenAccount>,
}

impl View for Ledger {
    type V = Seq<TokenAccount>;

    open spec fn view(&self) -> Seq<TokenAccount> {
        self.accounts@
    }
}

impl Ledger {
    pub open spec fn wf(&self) -> bool {
        unique(self@)
    }

    pub fn new() -> (r: Ledger)
        ensures
            r.wf(),
            r@ == Seq::<TokenAccount>::empty(),
    {
        Ledger { accounts: Vec::new() }
    }

    /// The position of the account at `key`, if there is one.
    pub fn find(&self, key: &Key) -> (r: Option<usize>)
        requires
            self.wf(),
        ensures
            match r {
                Some(i) => i < self@.len() && self@[i as int].address@ == key@ && index_of(
                    self@,
                    key@,
                ) == i,
                None => !has_account(self@, key@),
            },
    {
        let mut i: usize = 0;
        while i < self.accounts.len()
            invariant
                self.wf(),
                i <= self@.len(),
                forall|j: int| 0 <= j < i ==> #[trigger] self@[j].address@ != key@,
            decreases self@.len() - i,
        {
            if self.accounts[i].address.same_as(key) {
                proof {
                    lemma_index_of(self@, i as int);
                }
                return Some(i);
            }
            i = i + 1;
        }
        None
    }

    /// The balance held at `key`, if the account exists.
    pub fn balance_of(&self, key: &Key) -> (r: Option<u64>)
        requires
            self.wf(),
        ensures
            match r {
                Some(b) => has_account(self@, key@) && b == balance(self@, key@),
                None => !has_account(self@, key@),
            },
    {
        match self.find(key) {
            Some(i) => Some(self.accounts[i].amount),
            None => None,
        }
    }

    /// Adds an account; an address already present is refused.
    pub fn open_account(&mut self, account: TokenAccount) -> (r: Result<(), TransferError>)
        requires
            old(self).wf(),
        ensures
            final(self).wf(),
            has_account(old(self)@, account.address@) ==> r == Err::<(), TransferError>(
                TransferError::AccountExists,
            ) && final(self)@ == old(self)@,
            !has_account(old(self)@, account.address@) ==> r is Ok && final(self)@ == old(self)@.push(
                account,
            ),
    {
        match self.find(&account.address) {
            Some(_) => Err(TransferError::AccountExists),
            None => {
                self.accounts.push(account);
                proof {
                    let s = self@;
                    assert forall|i: int, j: int|
                        0 <= i < s.len() && 0 <= j < s.len() && i != j implies #[trigger] s[i].address@
                        != #[trigger] s[j].address@ by {
                        if i == s.len() - 1 {
                            assert(old(self)@[j].address@ != account.address@);
                        } else if j == s.len() - 1 {
                            assert(old(self)@[i].address@ != account.address@);
                        } else {
                            assert(old(self)@[i].address@ != old(self)@[j].address@);
                        }
                    }
                }
                Ok(())
            },
        }
    }

    /// Moves `amount` from the account at `from` to the one at `to`, on the
    /// authority of `authority`, which must own the source account.
    pub fn transfer(&mut self, from: &Key, to: &Key, authority: &Key, amount: u64) -> (r: Result<
        (),
        TransferError,
    >)
        requires
            old(self).wf(),
        ensures
            final(self).wf(),
            match transfer_outcome(old(self)@, from@, to@, authority@, amount) {
                Ok(s) => r is Ok && final(self)@ == s,
                Err(e) => r == Err::<(), TransferError>(e) && final(self)@ == old(self)@,
            },
    {
        let ghost s = self@;
        let fi = match self.find(from) {
            Some(i) => i,
            None => {
                return Err(TransferError::UnknownAccount);
            },
        };
        let ti = match self.find(to) {
            Some(i) => i,
            None => {
                return Err(TransferError::UnknownAccount);
            },
        };
        let src = self.accounts[fi];
        let dst = self.accounts[ti];
        if src.amount < amount {
            return Err(TransferError::InsufficientFunds);
        }
        if !src.mint.same_as(&dst.mint) {
            return Err(TransferError::MintMismatch);
        }
        if !src.owner.same_as(authority) {
            return Err(TransferError::InvalidAuthority);
        }
        if fi == ti {
            proof {
                assert(from@ == to@);
                assert(transferred(s, from@, to@, amount) =~= s);
            }
            return Ok(());
        }
        if dst.amount > u64::MAX - amount {
            return Err(TransferError::Overflow);
        }
        self.accounts.set(fi, TokenAccount { amount: src.amount - amount, ..src });
        self.accounts.set(ti, TokenAccount { amount: dst.amount + amount, ..dst });
        proof {
            assert(from@ != to@);
            let t = transferred(s, from@, to@, amount);
            assert forall|i: int| 0 <= i < s.len() implies #[trigger] self@[i] == t[i] by {
                if i != fi && i != ti {
                    assert(s[i].address@ != s[fi as int].address@);
                    assert(s[i].address@ != s[ti as int].address@);
                }
            }
            assert(self@ =~= t);
            assert forall|i: int, j: int|
                0 <= i < self@.len() && 0 <= j < self@.len() && i != j implies #[trigger] self@[i].address@
                != #[trigger] self@[j].address@ by {
                assert(s[i].address@ != s[j].address@);
            }
        }
        Ok(())
    }

    /// A copy of the ledger, used to undo a partly applied instruction.
    pub fn snapshot(&self) -> (r: Ledger)
        ensures
            r@ == self@,
    {
        let mut v: Vec<TokenAccount> = Vec::new();
        let mut i: usize = 0;
        while i < self.accounts.len()
            invariant
                i <= self@.len(),
                v@ == self@.subrange(0, i as int),
            decreases self@.len() - i,
        {
            v.push(self.accounts[i]);
            i = i + 1;
            assert(v@ =~= self@.subrange(0, i as int));
        }
        assert(self@.subrange(0, self@.len() as int) =~= self@);
        Ledger { accounts: v }
    }
}

} // verus!
