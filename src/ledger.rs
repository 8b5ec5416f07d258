use vstd::prelude::*;
use crate::bytes::{Key, keys_equal};

verus! {

/// The escrow record of one covered call.
#[derive(Clone, Copy, Debug)]
pub struct CoveredCall {
    pub seller: Key,
    pub buyer: Key,
    pub mint_base: Key,
    pub mint_quote: Key,
    pub amount_base: u64,
    pub amount_quote: u64,
    pub amount_premium: Option<u64>,
    pub timestamp_created: i64,
    pub timestamp_expiry: i64,
    pub is_exercised: bool,
    pub bump: u8,
}

/// An escrow record stored at its derived address.
#[derive(Clone, Copy, Debug)]
pub struct Escrow {
    pub address: Key,
    pub record: CoveredCall,
}

/// A custody account holding `amount` units of `mint`, movable by `owner`.
#[derive(Clone, Copy, Debug)]
pub struct TokenAccount {
    pub address: Key,
    pub mint: Key,
    pub owner: Key,
    pub amount: u64,
}

/// The accounts that initialization reads and writes, each stored at its
/// address.
pub struct Ledger {
    pub escrows: Vec<Escrow>,
    pub token_accounts: Vec<TokenAccount>,
}

impl Ledger {
    /// No two escrows, and no two token accounts, share an address.
    pub open spec fn wf(&self) -> bool {
        &&& forall|i: int, j: int|
            0 <= i < j < self.escrows@.len() ==> self.escrows@[i].address@
                != self.escrows@[j].address@
        &&& forall|i: int, j: int|
            0 <= i < j < self.token_accounts@.len() ==> self.token_accounts@[i].address@
                != self.token_accounts@[j].address@
    }
}

/// Whether an escrow is stored at `a`.
pub open spec fn has_escrow(s: Seq<Escrow>, a: Seq<u8>) -> bool {
    exists|i: int| 0 <= i < s.len() && s[i].address@ == a
}

/// The position of the first token account at `a` from position `k` on, or
/// -1 when there is none.
pub open spec fn account_index_from(s: Seq<TokenAccount>, a: Seq<u8>, k: int) -> int
    decreases s.len() - k,
{
    if k < 0 || k >= s.len() {
        -1
    } else if s[k].address@ == a {
        k
    } else {
        account_index_from(s, a, k + 1)
    }
}

/// The position of the token account at `a`, or -1 when there is none.
pub open spec fn account_index(s: Seq<TokenAccount>, a: Seq<u8>) -> int {
    account_index_from(s, a, 0)
}

/// The balance of the token account at `a`; an address that holds no
/// account holds nothing.
pub open spec fn balance(s: Seq<TokenAccount>, a: Seq<u8>) -> int {
    let i = account_index(s, a);
    if i >= 0 {
        s[i].amount as int
    } else {
        0
    }
}

pub proof fn account_index_from_bounds(s: Seq<TokenAccount>, a: Seq<u8>, k: int)
    ensures
        account_index_from(s, a, k) == -1 || (k <= account_index_from(s, a, k) < s.len()
            && s[account_index_from(s, a, k)].address@ == a),
    decreases s.len() - k,
{
    if 0 <= k < s.len() && s[k].address@ != a {
        account_index_from_bounds(s, a, k + 1);
    }
}

/// No account from position `k` on is at `a` when the search finds none.
pub proof fn account_index_from_none(s: Seq<TokenAccount>, a: Seq<u8>, k: int)
    requires
        0 <= k,
        account_index_from(s, a, k) == -1,
    ensures
        forall|i: int| k <= i < s.len() ==> s[i].address@ != a,
    decreases s.len() - k,
{
    if k < s.len() {
        account_index_from_none(s, a, k + 1);
    }
}

/// Appending an account leaves the positions of those already present and
/// places a new address at the end.
pub proof fn account_index_from_push(s: Seq<TokenAccount>, x: TokenAccount, a: Seq<u8>, k: int)
    requires
        0 <= k <= s.len(),
    ensures
        account_index_from(s.push(x), a, k) == if account_index_from(s, a, k) >= 0 {
            account_index_from(s, a, k)
        } else if x.address@ == a {
            s.len() as int
        } else {
            -1
        },
    decreases s.len() - k,
{
    if k < s.len() {
        assert(s.push(x)[k] == s[k]);
        if s[k].address@ != a {
            account_index_from_push(s, x, a, k + 1);
        }
    } else {
        assert(s.push(x)[k] == x);
        assert(account_index_from(s.push(x), a, k + 1) == -1);
    }
}

/// Replacing an account by one at the same address moves no position.
pub proof fn account_index_from_update(s: Seq<TokenAccount>, i: int, x: TokenAccount, a: Seq<u8>, k: int)
    requires
        0 <= i < s.len(),
        0 <= k <= s.len(),
        x.address@ == s[i].address@,
    ensures
        account_index_from(s.update(i, x), a, k) == account_index_from(s, a, k),
    decreases s.len() - k,
{
    if k < s.len() {
        assert(s.update(i, x)[k].address@ == s[k].address@);
        if s[k].address@ != a {
            account_index_from_update(s, i, x, a, k + 1);
        }
    }
}

impl Ledger {
    /// An empty ledger.
    pub fn new() -> (r: Ledger)
        ensures
            r.escrows@.len() == 0,
            r.token_accounts@.len() == 0,
    {
        Ledger { escrows: Vec::new(), token_accounts: Vec::new() }
    }

    /// Whether an escrow is stored at `address`.
    pub fn escrow_exists(&self, address: &Key) -> (r: bool)
        ensures
            r == has_escrow(self.escrows@, address@),
    {
        let mut i: usize = 0;
        while i < self.escrows.len()
            invariant
                i <= self.escrows@.len(),
                forall|j: int| 0 <= j < i ==> self.escrows@[j].address@ != address@,
            decreases self.escrows@.len() - i,
        {
            if keys_equal(&self.escrows[i].address, address) {
                return true;
            }
            i = i + 1;
        }
        false
    }

    /// The escrow record stored at `address`, if any.
    pub fn escrow(&self, address: &Key) -> (r: Option<CoveredCall>)
        ensures
            r is Some <==> has_escrow(self.escrows@, address@),
            r matches Some(c) ==> exists|i: int|
                0 <= i < self.escrows@.len() && self.escrows@[i].address@ == address@
                    && self.escrows@[i].record == c,
    {
        let mut i: usize = 0;
        while i < self.escrows.len()
            invariant
                i <= self.escrows@.len(),
                forall|j: int| 0 <= j < i ==> self.escrows@[j].address@ != address@,
            decreases self.escrows@.len() - i,
        {
            if keys_equal(&self.escrows[i].address, address) {
                return Some(self.escrows[i].record);
            }
            i = i + 1;
        }
        None
    }

    /// The position of the token account at `address`, if any.
    pub fn find_token_account(&self, address: &Key) -> (r: Option<usize>)
        ensures
            match r {
                Some(i) => i < self.token_accounts@.len() && i as int == account_index(
                    self.token_accounts@,
                    address@,
                ),
                None => account_index(self.token_accounts@, address@) == -1,
            },
    {
        let mut i: usize = 0;
        while i < self.token_accounts.len()
            invariant
                i <= self.token_accounts@.len(),
                account_index_from(self.token_accounts@, address@, i as int)
                    == account_index(self.token_accounts@, address@),
            decreases self.token_accounts@.len() - i,
        {
            if keys_equal(&self.token_accounts[i].address, address) {
                return Some(i);
            }
            i = i + 1;
        }
        None
    }

    /// The balance of the token account at `address`, if there is one.
    pub fn token_balance(&self, address: &Key) -> (r: Option<u64>)
        ensures
            match r {
                Some(b) => account_index(self.token_accounts@, address@) >= 0 && b as int
                    == balance(self.token_accounts@, address@),
                None => account_index(self.token_accounts@, address@) == -1,
            },
    {
        match self.find_token_account(address) {
            Some(i) => Some(self.token_accounts[i].amount),
            None => None,
        }
    }
}

} // verus!
