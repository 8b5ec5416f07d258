use anchor_lang::solana_program::pubkey::Pubkey;
use solana_options::bytes::{i64_to_le_bytes, keys_equal, u64_to_le_bytes, Key};
use solana_options::address::{derive_escrow_address, derive_vault_address, seeds_for_escrow};
use solana_options::initialize::{handle_initialize, initialize_with, InitError, Initialize};
use solana_options::ledger::{Ledger, TokenAccount};

const PROGRAM: Key = [9u8; 32];
const SELLER: Key = [1u8; 32];
const BUYER: Key = [2u8; 32];
const MINT_BASE: Key = [3u8; 32];
const MINT_QUOTE: Key = [4u8; 32];
const FUNDING: Key = [5u8; 32];
const NOW: i64 = 1_700_000_000;

fn accounts(amount_base: u64, amount_quote: u64, expiry: i64) -> Initialize {
    let (data, _) = derive_escrow_address(
        &PROGRAM, &SELLER, &BUYER, &MINT_BASE, &MINT_QUOTE, amount_base, amount_quote, expiry,
    )
    .unwrap();
    let vault = derive_vault_address(&data, &MINT_BASE).unwrap();
    Initialize {
        seller: SELLER,
        buyer: BUYER,
        data,
        mint_base: MINT_BASE,
        mint_quote: MINT_QUOTE,
        ata_seller_base: FUNDING,
        ata_vault_base: vault,
    }
}

fn funded_ledger(amount: u64) -> Ledger {
    let mut l = Ledger::new();
    l.token_accounts.push(TokenAccount { address: FUNDING, mint: MINT_BASE, owner: SELLER, amount });
    l
}

#[test]
fn end_to_end_initialization() {
    let mut l = funded_ledger(1_000_000);
    let a = accounts(100_000, 50_000, NOW + 86_400);
    assert_eq!(handle_initialize(&mut l, &PROGRAM, &a, 100_000, 50_000, NOW + 86_400, NOW), Ok(()));
    let c = l.escrow(&a.data).unwrap();
    assert!(!c.is_exercised);
    assert_eq!(c.amount_premium, None);
    assert_eq!(c.amount_base, 100_000);
    assert_eq!(c.amount_quote, 50_000);
    assert_eq!(c.timestamp_created, NOW);
    assert_eq!(c.timestamp_expiry, NOW + 86_400);
    assert_eq!(c.seller, SELLER);
    assert_eq!(c.buyer, BUYER);
    let (_, bump) = derive_escrow_address(
        &PROGRAM, &SELLER, &BUYER, &MINT_BASE, &MINT_QUOTE, 100_000, 50_000, NOW + 86_400,
    )
    .unwrap();
    assert_eq!(c.bump, bump);
    assert_eq!(l.token_balance(&a.ata_vault_base), Some(100_000));
    assert_eq!(l.token_balance(&FUNDING), Some(900_000));
    let vault = l.token_accounts[1];
    assert_eq!(vault.owner, a.data);
    assert_eq!(vault.mint, MINT_BASE);
}

#[test]
fn derivation_is_deterministic() {
    let r1 = derive_escrow_address(&PROGRAM, &SELLER, &BUYER, &MINT_BASE, &MINT_QUOTE, 7, 8, 9);
    let r2 = derive_escrow_address(&PROGRAM, &SELLER, &BUYER, &MINT_BASE, &MINT_QUOTE, 7, 8, 9);
    assert!(r1.is_some());
    assert_eq!(r1, r2);
}

#[test]
fn distinct_terms_give_distinct_addresses() {
    let base = derive_escrow_address(&PROGRAM, &SELLER, &BUYER, &MINT_BASE, &MINT_QUOTE, 7, 8, 9)
        .unwrap()
        .0;
    let variants = [
        derive_escrow_address(&PROGRAM, &BUYER, &BUYER, &MINT_BASE, &MINT_QUOTE, 7, 8, 9),
        derive_escrow_address(&PROGRAM, &SELLER, &SELLER, &MINT_BASE, &MINT_QUOTE, 7, 8, 9),
        derive_escrow_address(&PROGRAM, &SELLER, &BUYER, &MINT_QUOTE, &MINT_QUOTE, 7, 8, 9),
        derive_escrow_address(&PROGRAM, &SELLER, &BUYER, &MINT_BASE, &MINT_BASE, 7, 8, 9),
        derive_escrow_address(&PROGRAM, &SELLER, &BUYER, &MINT_BASE, &MINT_QUOTE, 6, 8, 9),
        derive_escrow_address(&PROGRAM, &SELLER, &BUYER, &MINT_BASE, &MINT_QUOTE, 7, 6, 9),
        derive_escrow_address(&PROGRAM, &SELLER, &BUYER, &MINT_BASE, &MINT_QUOTE, 7, 8, -9),
        derive_escrow_address(&FUNDING, &SELLER, &BUYER, &MINT_BASE, &MINT_QUOTE, 7, 8, 9),
    ];
    let mut seen = vec![base];
    for v in variants.iter() {
        let addr = v.unwrap().0;
        assert!(!seen.contains(&addr));
        seen.push(addr);
    }
}

#[test]
fn escrow_address_matches_runtime_derivation() {
    let seeds: [&[u8]; 8] = [
        b"covered-call",
        &SELLER,
        &BUYER,
        &MINT_BASE,
        &MINT_QUOTE,
        &100u64.to_le_bytes(),
        &200u64.to_le_bytes(),
        &(-300i64).to_le_bytes(),
    ];
    let (expected, bump) = Pubkey::find_program_address(&seeds, &Pubkey::new_from_array(PROGRAM));
    let r = derive_escrow_address(&PROGRAM, &SELLER, &BUYER, &MINT_BASE, &MINT_QUOTE, 100, 200, -300);
    assert_eq!(r, Some((expected.to_bytes(), bump)));
}

#[test]
fn vault_address_is_associated_token_address() {
    let escrow = [11u8; 32];
    let expected = anchor_spl::associated_token::get_associated_token_address(
        &Pubkey::new_from_array(escrow),
        &Pubkey::new_from_array(MINT_BASE),
    );
    assert_eq!(derive_vault_address(&escrow, &MINT_BASE), Some(expected.to_bytes()));
    assert_ne!(derive_vault_address(&escrow, &MINT_BASE), Some(escrow));
}

#[test]
fn seeds_encode_terms() {
    let s = seeds_for_escrow(&SELLER, &BUYER, &MINT_BASE, &MINT_QUOTE, 1, 258, -1);
    assert_eq!(s.len(), 8);
    assert_eq!(s[0], b"covered-call".to_vec());
    assert_eq!(s[1], SELLER.to_vec());
    assert_eq!(s[4], MINT_QUOTE.to_vec());
    assert_eq!(s[5], vec![1, 0, 0, 0, 0, 0, 0, 0]);
    assert_eq!(s[6], vec![2, 1, 0, 0, 0, 0, 0, 0]);
    assert_eq!(s[7], vec![255; 8]);
}

#[test]
fn little_endian_bytes() {
    assert_eq!(u64_to_le_bytes(0x0102_0304_0506_0708), vec![8, 7, 6, 5, 4, 3, 2, 1]);
    assert_eq!(u64_to_le_bytes(u64::MAX), vec![255; 8]);
    assert_eq!(i64_to_le_bytes(i64::MIN), vec![0, 0, 0, 0, 0, 0, 0, 128]);
    assert_eq!(i64_to_le_bytes(-2), (-2i64).to_le_bytes().to_vec());
}

#[test]
fn key_comparison() {
    let mut k = SELLER;
    assert!(keys_equal(&k, &SELLER));
    k[31] = 0;
    assert!(!keys_equal(&k, &SELLER));
}

#[test]
fn insufficient_funds_leaves_nothing_behind() {
    let mut l = funded_ledger(99_999);
    let a = accounts(100_000, 50_000, NOW + 10);
    assert_eq!(
        handle_initialize(&mut l, &PROGRAM, &a, 100_000, 50_000, NOW + 10, NOW),
        Err(InitError::InsufficientFunds)
    );
    assert!(l.escrow(&a.data).is_none());
    assert!(!l.escrow_exists(&a.data));
    assert_eq!(l.token_balance(&FUNDING), Some(99_999));
    assert_eq!(l.token_balance(&a.ata_vault_base), None);
    assert_eq!(l.escrows.len(), 0);
    assert_eq!(l.token_accounts.len(), 1);
}

#[test]
fn exact_balance_is_enough() {
    let mut l = funded_ledger(100_000);
    let a = accounts(100_000, 1, NOW + 10);
    assert_eq!(handle_initialize(&mut l, &PROGRAM, &a, 100_000, 1, NOW + 10, NOW), Ok(()));
    assert_eq!(l.token_balance(&FUNDING), Some(0));
    assert_eq!(l.token_balance(&a.ata_vault_base), Some(100_000));
}

#[test]
fn second_initialization_already_exists() {
    let mut l = funded_ledger(1_000_000);
    let a = accounts(100_000, 50_000, NOW + 100);
    assert_eq!(handle_initialize(&mut l, &PROGRAM, &a, 100_000, 50_000, NOW + 100, NOW), Ok(()));
    let first = l.escrow(&a.data).unwrap();
    assert_eq!(
        handle_initialize(&mut l, &PROGRAM, &a, 100_000, 50_000, NOW + 100, NOW + 1),
        Err(InitError::AlreadyExists)
    );
    let again = l.escrow(&a.data).unwrap();
    assert_eq!(again.timestamp_created, first.timestamp_created);
    assert_eq!(again.bump, first.bump);
    assert_eq!(l.escrows.len(), 1);
    assert_eq!(l.token_accounts.len(), 2);
    assert_eq!(l.token_balance(&a.ata_vault_base), Some(100_000));
    assert_eq!(l.token_balance(&FUNDING), Some(900_000));
}

#[test]
fn expiry_boundary() {
    for expiry in [NOW - 1, NOW] {
        let mut l = funded_ledger(1_000);
        let a = accounts(10, 20, expiry);
        assert_eq!(
            handle_initialize(&mut l, &PROGRAM, &a, 10, 20, expiry, NOW),
            Err(InitError::ExpiryInThePast)
        );
        assert_eq!(l.escrows.len(), 0);
        assert_eq!(l.token_balance(&FUNDING), Some(1_000));
    }
    let mut l = funded_ledger(1_000);
    let a = accounts(10, 20, NOW + 1);
    assert_eq!(handle_initialize(&mut l, &PROGRAM, &a, 10, 20, NOW + 1, NOW), Ok(()));
}

#[test]
fn conservation_of_balances() {
    let mut l = funded_ledger(5_000);
    let other = TokenAccount { address: [12u8; 32], mint: MINT_BASE, owner: BUYER, amount: 777 };
    l.token_accounts.push(other);
    let a = accounts(1_234, 1, NOW + 5);
    assert_eq!(handle_initialize(&mut l, &PROGRAM, &a, 1_234, 1, NOW + 5, NOW), Ok(()));
    let funding = l.token_balance(&FUNDING).unwrap();
    let vault = l.token_balance(&a.ata_vault_base).unwrap();
    assert_eq!(funding, 5_000 - 1_234);
    assert_eq!(vault, 1_234);
    assert_eq!(funding + vault, 5_000);
    assert_eq!(l.token_balance(&[12u8; 32]), Some(777));
}

#[test]
fn wrong_escrow_address_is_terms_mismatch() {
    let mut l = funded_ledger(1_000);
    let mut a = accounts(10, 20, NOW + 50);
    let right = accounts(10, 21, NOW + 50);
    a.data = right.data;
    assert_eq!(
        handle_initialize(&mut l, &PROGRAM, &a, 10, 20, NOW + 50, NOW),
        Err(InitError::TermsMismatch)
    );
    assert_eq!(l.escrows.len(), 0);
}

#[test]
fn wrong_vault_address_is_terms_mismatch() {
    let mut l = funded_ledger(1_000);
    let mut a = accounts(10, 20, NOW + 50);
    a.ata_vault_base = [13u8; 32];
    assert_eq!(
        handle_initialize(&mut l, &PROGRAM, &a, 10, 20, NOW + 50, NOW),
        Err(InitError::TermsMismatch)
    );
}

#[test]
fn existing_vault_is_already_exists() {
    let mut l = funded_ledger(1_000);
    let a = accounts(10, 20, NOW + 50);
    l.token_accounts.push(TokenAccount { address: a.ata_vault_base, mint: MINT_BASE, owner: a.data, amount: 0 });
    assert_eq!(
        handle_initialize(&mut l, &PROGRAM, &a, 10, 20, NOW + 50, NOW),
        Err(InitError::AlreadyExists)
    );
    assert_eq!(l.escrows.len(), 0);
}

#[test]
fn missing_funding_account() {
    let mut l = Ledger::new();
    let a = accounts(10, 20, NOW + 50);
    assert_eq!(
        handle_initialize(&mut l, &PROGRAM, &a, 10, 20, NOW + 50, NOW),
        Err(InitError::AccountNotFound)
    );
}

#[test]
fn funding_account_of_another_owner() {
    let mut l = Ledger::new();
    l.token_accounts.push(TokenAccount { address: FUNDING, mint: MINT_BASE, owner: BUYER, amount: 1_000 });
    let a = accounts(10, 20, NOW + 50);
    assert_eq!(
        handle_initialize(&mut l, &PROGRAM, &a, 10, 20, NOW + 50, NOW),
        Err(InitError::AuthorityMismatch)
    );
}

#[test]
fn funding_account_of_another_mint() {
    let mut l = Ledger::new();
    l.token_accounts.push(TokenAccount { address: FUNDING, mint: MINT_QUOTE, owner: SELLER, amount: 1_000 });
    let a = accounts(10, 20, NOW + 50);
    assert_eq!(
        handle_initialize(&mut l, &PROGRAM, &a, 10, 20, NOW + 50, NOW),
        Err(InitError::AssetMismatch)
    );
}

#[test]
fn failed_derivation_is_reported() {
    let mut l = funded_ledger(1_000);
    let a = accounts(10, 20, NOW + 50);
    assert_eq!(
        initialize_with(&mut l, &a, 10, 20, NOW + 50, NOW, None, Some(a.ata_vault_base)),
        Err(InitError::DerivationExhausted)
    );
    assert_eq!(
        initialize_with(&mut l, &a, 10, 20, NOW + 50, NOW, Some((a.data, 255)), None),
        Err(InitError::DerivationExhausted)
    );
    assert_eq!(l.escrows.len(), 0);
    assert_eq!(
        initialize_with(&mut l, &a, 10, 20, NOW + 50, NOW, Some((a.data, 255)), Some(a.ata_vault_base)),
        Ok(())
    );
    assert_eq!(l.escrow(&a.data).unwrap().bump, 255);
}
