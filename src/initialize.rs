use vstd::prelude::*;
use crate::bytes::{Key, keys_equal};
use crate::address::{derive_escrow_address, derive_vault_address, escrow_address, found_view, vault_address};
use crate::ledger::{
    CoveredCall, Escrow, Ledger, TokenAccount, has_escrow, account_index,
    balance, account_index_from_bounds, account_index_from_none, account_index_from_push, account_index_from_update,
};

verus! {

/// The accounts named by an initialization.
#[derive(Clone, Copy, Debug)]
pub struct Initialize {
    /// The seller, who signs, funds the escrow and pays for its accounts.
    pub seller: Key,
    /// The only counterparty who may later exercise.
    pub buyer: Key,
    /// The address at which the escrow record is to be created.
    pub data: Key,
    pub mint_base: Key,
    pub mint_quote: Key,
    /// The seller's funding account in `mint_base`.
    pub ata_seller_base: Key,
    /// The vault to be created for the escrow in `mint_base`.
    pub ata_vault_base: Key,
}

/// Why an initialization was refused.
#[derive(Clone, Copy, Debug, PartialEq, Eq, Structural)]
pub enum InitError {
    /// The escrow or vault address given is not the one derived from the terms.
    TermsMismatch,
    /// An escrow or vault already occupies the derived address.
    AlreadyExists,
    /// The funding account holds less than the base amount.
    InsufficientFunds,
    /// The funding account holds another asset than the base mint.
    AssetMismatch,
    /// The expiry is not later than the current time.
    ExpiryInThePast,
    /// No valid address can be derived from the terms.
    DerivationExhausted,
    /// The funding account does not exist.
    AccountNotFound,
    /// The funding account is not the seller's.
    AuthorityMismatch,
}

/// The decision on an initialization, given the ledger, the accounts named,
/// the terms, the current time and what the two derivations returned.
/// Checks come in a fixed order and the first that fails gives the error.
pub open spec fn init_outcome(
    l: Ledger,
    a: Initialize,
    amount_base: u64,
    amount_quote: u64,
    timestamp_expiry: i64,
    now: i64,
    escrow: Option<(Seq<u8>, u8)>,
    vault: Option<Seq<u8>>,
) -> Result<(), InitError> {
    let fi = account_index(l.token_accounts@, a.ata_seller_base@);
    match escrow {
        None => Err(InitError::DerivationExhausted),
        Some((address, _)) => if address != a.data@ {
            Err(InitError::TermsMismatch)
        } else if has_escrow(l.escrows@, a.data@) {
            Err(InitError::AlreadyExists)
        } else if fi < 0 {
            Err(InitError::AccountNotFound)
        } else if l.token_accounts@[fi].owner@ != a.seller@ {
            Err(InitError::AuthorityMismatch)
        } else if l.token_accounts@[fi].mint@ != a.mint_base@ {
            Err(InitError::AssetMismatch)
        } else if l.token_accounts@[fi].amount < amount_base {
            Err(InitError::InsufficientFunds)
        } else {
            match vault {
                None => Err(InitError::DerivationExhausted),
                Some(v) => if v != a.ata_vault_base@ {
                    Err(InitError::TermsMismatch)
                } else if account_index(l.token_accounts@, v) >= 0 {
                    Err(InitError::AlreadyExists)
                } else if timestamp_expiry <= now {
                    Err(InitError::ExpiryInThePast)
                } else {
                    Ok(())
                },
            }
        },
    }
}

/// The record written by a successful initialization.
pub open spec fn new_record(
    a: Initialize,
    amount_base: u64,
    amount_quote: u64,
    timestamp_expiry: i64,
    now: i64,
    bump: u8,
) -> CoveredCall {
    CoveredCall {
        seller: a.seller,
        buyer: a.buyer,
        mint_base: a.mint_base,
        mint_quote: a.mint_quote,
        amount_base,
        amount_quote,
        amount_premium: None,
        timestamp_created: now,
        timestamp_expiry,
        is_exercised: false,
        bump,
    }
}

/// The escrows after a successful initialization: one record more, at `data`.
pub open spec fn escrows_after(
    s: Seq<Escrow>,
    a: Initialize,
    amount_base: u64,
    amount_quote: u64,
    timestamp_expiry: i64,
    now: i64,
    bump: u8,
) -> Seq<Escrow> {
    s.push(
        Escrow {
            address: a.data,
            record: new_record(a, amount_base, amount_quote, timestamp_expiry, now, bump),
        },
    )
}

/// The token accounts after a successful initialization: the funding account
/// less `amount_base`, and a new vault of the base mint, owned by the escrow
/// and holding `amount_base`. No other account changes.
pub open spec fn accounts_after(s: Seq<TokenAccount>, a: Initialize, amount_base: u64) -> Seq<
    TokenAccount,
> {
    let fi = account_index(s, a.ata_seller_base@);
    s.update(
        fi,
        TokenAccount {
            address: s[fi].address,
            mint: s[fi].mint,
            owner: s[fi].owner,
            amount: (s[fi].amount - amount_base) as u64,
        },
    ).push(
        TokenAccount {
            address: a.ata_vault_base,
            mint: a.mint_base,
            owner: a.data,
            amount: amount_base,
        },
    )
}

/// Decides an initialization from what the derivations returned and, when
/// every check passes, records the escrow and moves the collateral into its
/// new vault. On any error the ledger is left as it was.
pub fn initialize_with(
    ledger: &mut Ledger,
    accounts: &Initialize,
    amount_base: u64,
    amount_quote: u64,
    timestamp_expiry: i64,
    now: i64,
    escrow: Option<(Key, u8)>,
    vault: Option<Key>,
) -> (r: Result<(), InitError>)
    ensures
        r == init_outcome(
            *old(ledger),
            *accounts,
            amount_base,
            amount_quote,
            timestamp_expiry,
            now,
            found_view(escrow),
            match vault {
                Some(v) => Some(v@),
                None => None,
            },
        ),
        r is Ok ==> final(ledger).escrows@ == escrows_after(
            old(ledger).escrows@,
            *accounts,
            amount_base,
            amount_quote,
            timestamp_expiry,
            now,
            escrow->Some_0.1,
        ),
        r is Ok ==> final(ledger).token_accounts@ == accounts_after(
            old(ledger).token_accounts@,
            *accounts,
            amount_base,
        ),
        r is Err ==> final(ledger).escrows@ == old(ledger).escrows@,
        r is Err ==> final(ledger).token_accounts@ == old(ledger).token_accounts@,
        old(ledger).wf() ==> final(ledger).wf(),
{
    let bump = match escrow {
        None => {
            return Err(InitError::DerivationExhausted);
        },
        Some((address, bump)) => {
            if !keys_equal(&address, &accounts.data) {
                return Err(InitError::TermsMismatch);
            }
            bump
        },
    };
    if ledger.escrow_exists(&accounts.data) {
        return Err(InitError::AlreadyExists);
    }
    let fi = match ledger.find_token_account(&accounts.ata_seller_base) {
        None => {
            return Err(InitError::AccountNotFound);
        },
        Some(i) => i,
    };
    let funding = ledger.token_accounts[fi];
    if !keys_equal(&funding.owner, &accounts.seller) {
        return Err(InitError::AuthorityMismatch);
    }
    if !keys_equal(&funding.mint, &accounts.mint_base) {
        return Err(InitError::AssetMismatch);
    }
    if funding.amount < amount_base {
        return Err(InitError::InsufficientFunds);
    }
    match vault {
        None => {
            return Err(InitError::DerivationExhausted);
        },
        Some(v) => {
            if !keys_equal(&v, &accounts.ata_vault_base) {
                return Err(InitError::TermsMismatch);
            }
        },
    }
    if ledger.find_token_account(&accounts.ata_vault_base).is_some() {
        return Err(InitError::AlreadyExists);
    }
    if timestamp_expiry <= now {
        return Err(InitError::ExpiryInThePast);
    }
    let record = CoveredCall {
        seller: accounts.seller,
        buyer: accounts.buyer,
        mint_base: accounts.mint_base,
        mint_quote: accounts.mint_quote,
        amount_base,
        amount_quote,
        amount_premium: None,
        timestamp_created: now,
        timestamp_expiry,
        is_exercised: false,
        bump,
    };
    ledger.escrows.push(Escrow { address: accounts.data, record });
    let debited = TokenAccount {
        address: funding.address,
        mint: funding.mint,
        owner: funding.owner,
        amount: funding.amount - amount_base,
    };
    ledger.token_accounts.set(fi, debited);
    ledger.token_accounts.push(
        TokenAccount {
            address: accounts.ata_vault_base,
            mint: accounts.mint_base,
            owner: accounts.data,
            amount: amount_base,
        },
    );
    proof {
        account_index_from_none(old(ledger).token_accounts@, accounts.ata_vault_base@, 0);
        let s = old(ledger).token_accounts@;
        let t = ledger.token_accounts@;
        assert(forall|i: int| 0 <= i < s.len() ==> t[i].address@ == s[i].address@);
        assert(t[s.len() as int].address@ == accounts.ata_vault_base@);
        let e = ledger.escrows@;
        let n = old(ledger).escrows@.len() as int;
        assert(forall|i: int| 0 <= i < n ==> e[i] == old(ledger).escrows@[i]);
        assert(e[n].address@ == accounts.data@);
    }
    Ok(())
}

/// Initializes a covered call: derives the escrow's address from the terms
/// under `program_id` and its vault's address from the escrow's, checks them
/// against `accounts`, and then proceeds as `initialize_with`. `now` is the
/// ledger clock's time.
pub fn handle_initialize(
    ledger: &mut Ledger,
    program_id: &Key,
    accounts: &Initialize,
    amount_base: u64,
    amount_quote: u64,
    timestamp_expiry: i64,
    now: i64,
) -> (r: Result<(), InitError>)
    ensures
        r == init_outcome(
            *old(ledger),
            *accounts,
            amount_base,
            amount_quote,
            timestamp_expiry,
            now,
            escrow_address(
                program_id@,
                accounts.seller@,
                accounts.buyer@,
                accounts.mint_base@,
                accounts.mint_quote@,
                amount_base,
                amount_quote,
                timestamp_expiry,
            ),
            vault_address(accounts.data@, accounts.mint_base@),
        ),
        r is Ok ==> final(ledger).escrows@ == escrows_after(
            old(ledger).escrows@,
            *accounts,
            amount_base,
            amount_quote,
            timestamp_expiry,
            now,
            escrow_address(
                program_id@,
                accounts.seller@,
                accounts.buyer@,
                accounts.mint_base@,
                accounts.mint_quote@,
                amount_base,
                amount_quote,
                timestamp_expiry,
            )->Some_0.1,
        ),
        r is Ok ==> final(ledger).token_accounts@ == accounts_after(
            old(ledger).token_accounts@,
            *accounts,
            amount_base,
        ),
        r is Err ==> final(ledger).escrows@ == old(ledger).escrows@,
        r is Err ==> final(ledger).token_accounts@ == old(ledger).token_accounts@,
        old(ledger).wf() ==> final(ledger).wf(),
{
    let escrow = derive_escrow_address(
        program_id,
        &accounts.seller,
        &accounts.buyer,
        &accounts.mint_base,
        &accounts.mint_quote,
        amount_base,
        amount_quote,
        timestamp_expiry,
    );
    let vault = derive_vault_address(&accounts.data, &accounts.mint_base);
    proof {
        let vv = match vault {
            Some(v) => Some(v@),
            None => None,
        };
        assert(vv == vault_address(accounts.data@, accounts.mint_base@));
    }
    initialize_with(ledger, accounts, amount_base, amount_quote, timestamp_expiry, now, escrow, vault)
}

/// Initializing twice with identical terms fails the second time with
/// `AlreadyExists`, whatever the time, and the failed call changes nothing.
pub proof fn second_initialization_already_exists(
    l1: Ledger,
    l2: Ledger,
    a: Initialize,
    amount_base: u64,
    amount_quote: u64,
    timestamp_expiry: i64,
    now1: i64,
    now2: i64,
    escrow: Option<(Seq<u8>, u8)>,
    vault: Option<Seq<u8>>,
)
    requires
        init_outcome(l1, a, amount_base, amount_quote, timestamp_expiry, now1, escrow, vault)
            is Ok,
        l2.escrows@ == escrows_after(
            l1.escrows@,
            a,
            amount_base,
            amount_quote,
            timestamp_expiry,
            now1,
            escrow->Some_0.1,
        ),
    ensures
        init_outcome(l2, a, amount_base, amount_quote, timestamp_expiry, now2, escrow, vault)
            == Err::<(), InitError>(InitError::AlreadyExists),
{
    let n = l1.escrows@.len() as int;
    assert(l2.escrows@[n].address@ == a.data@);
    assert(has_escrow(l2.escrows@, a.data@));
}

/// An expiry at or before the current time is always refused.
pub proof fn expiry_not_after_now_refused(
    l: Ledger,
    a: Initialize,
    amount_base: u64,
    amount_quote: u64,
    timestamp_expiry: i64,
    now: i64,
    escrow: Option<(Seq<u8>, u8)>,
    vault: Option<Seq<u8>>,
)
    requires
        timestamp_expiry <= now,
    ensures
        init_outcome(l, a, amount_base, amount_quote, timestamp_expiry, now, escrow, vault) is Err,
{
}

/// Where the expiry was the only check that failed, an expiry one second
/// after the current time is accepted.
pub proof fn expiry_one_second_later_accepted(
    l: Ledger,
    a: Initialize,
    amount_base: u64,
    amount_quote: u64,
    timestamp_expiry: i64,
    now: i64,
    escrow: Option<(Seq<u8>, u8)>,
    vault: Option<Seq<u8>>,
)
    requires
        now < i64::MAX,
        init_outcome(l, a, amount_base, amount_quote, timestamp_expiry, now, escrow, vault)
            == Err::<(), InitError>(InitError::ExpiryInThePast),
    ensures
        init_outcome(l, a, amount_base, amount_quote, (now + 1) as i64, now, escrow, vault) is Ok,
{
}

/// After a successful initialization the funding account holds exactly
/// `amount_base` less, the vault exactly `amount_base` more (it held nothing
/// before), and the two together hold what the funding account held.
pub proof fn initialization_conserves_balances(
    l: Ledger,
    a: Initialize,
    amount_base: u64,
    amount_quote: u64,
    timestamp_expiry: i64,
    now: i64,
    escrow: Option<(Seq<u8>, u8)>,
    vault: Option<Seq<u8>>,
)
    requires
        init_outcome(l, a, amount_base, amount_quote, timestamp_expiry, now, escrow, vault) is Ok,
    ensures
        balance(accounts_after(l.token_accounts@, a, amount_base), a.ata_seller_base@)
            == balance(l.token_accounts@, a.ata_seller_base@) - amount_base,
        balance(accounts_after(l.token_accounts@, a, amount_base), a.ata_vault_base@)
            == balance(l.token_accounts@, a.ata_vault_base@) + amount_base,
        balance(l.token_accounts@, a.ata_vault_base@) == 0,
        balance(accounts_after(l.token_accounts@, a, amount_base), a.ata_seller_base@)
            + balance(accounts_after(l.token_accounts@, a, amount_base), a.ata_vault_base@)
            == balance(l.token_accounts@, a.ata_seller_base@) + balance(
            l.token_accounts@,
            a.ata_vault_base@,
        ),
{
    let s = l.token_accounts@;
    let fi = account_index(s, a.ata_seller_base@);
    account_index_from_bounds(s, a.ata_seller_base@, 0);
    let debited = TokenAccount {
        address: s[fi].address,
        mint: s[fi].mint,
        owner: s[fi].owner,
        amount: (s[fi].amount - amount_base) as u64,
    };
    let u = s.update(fi, debited);
    let x = TokenAccount {
        address: a.ata_vault_base,
        mint: a.mint_base,
        owner: a.data,
        amount: amount_base,
    };
    account_index_from_update(s, fi, debited, a.ata_seller_base@, 0);
    account_index_from_update(s, fi, debited, a.ata_vault_base@, 0);
    account_index_from_push(u, x, a.ata_seller_base@, 0);
    account_index_from_push(u, x, a.ata_vault_base@, 0);
    assert(u.push(x) == accounts_after(s, a, amount_base));
    assert(u.push(x)[fi] == debited);
    assert(u.push(x)[s.len() as int] == x);
}

} // verus!
