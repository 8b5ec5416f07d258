use vstd::prelude::*;
use crate::bytes::{Key, le_bytes, le_bytes_signed, u64_to_le_bytes, i64_to_le_bytes, le_bytes_injective, le_bytes_signed_injective};

verus! {

/// The address and bump that the runtime's program-address search finds for
/// `seeds` under `program_id`, or `None` when the search fails.
pub uninterp spec fn program_address(seeds: Seq<Seq<u8>>, program_id: Seq<u8>) -> Option<(Seq<u8>, u8)>;

pub open spec fn seeds_view(seeds: Seq<Vec<u8>>) -> Seq<Seq<u8>> {
    seeds.map_values(|s: Vec<u8>| s@)
}

pub open spec fn found_view(r: Option<(Key, u8)>) -> Option<(Seq<u8>, u8)> {
    match r {
        Some((k, b)) => Some((k@, b)),
        None => None,
    }
}

/// Relies on `Pubkey::try_find_program_address` of solana-program (re-exported
/// by anchor-lang): its result depends on the seeds and the program id alone,
/// and a search with more than 15 seeds, or with a seed of more than 32 bytes,
/// finds nothing.
#[verifier::external_body]
fn find_program_address(seeds: &Vec<Vec<u8>>, program_id: &Key) -> (r: Option<(Key, u8)>)
    ensures
        found_view(r) == program_address(seeds_view(seeds@), program_id@),
        seeds@.len() > 15 ==> r is None,
        (exists|i: int| 0 <= i < seeds@.len() && seeds@[i]@.len() > 32) ==> r is None,
{
    let refs: Vec<&[u8]> = seeds.iter().map(|s| s.as_slice()).collect();
    let id = anchor_lang::solana_program::pubkey::Pubkey::new_from_array(*program_id);
    anchor_lang::solana_program::pubkey::Pubkey::try_find_program_address(&refs, &id)
        .map(|(k, b)| (k.to_bytes(), b))
}

/// The id of the SPL token program.
pub open spec fn token_program_id_bytes() -> Seq<u8> {
    seq![
        6, 221, 246, 225, 215, 101, 161, 147, 217, 203, 225, 70, 206, 235, 121, 172,
        28, 180, 133, 237, 95, 91, 55, 145, 58, 140, 245, 133, 126, 255, 0, 169,
    ]
}

/// The id of the associated token account program.
pub open spec fn associated_token_program_id_bytes() -> Seq<u8> {
    seq![
        140, 151, 37, 143, 78, 36, 137, 241, 187, 61, 16, 41, 20, 142, 13, 131,
        11, 90, 19, 153, 218, 255, 16, 132, 4, 142, 123, 216, 219, 233, 248, 89,
    ]
}

/// Relies on `anchor_spl::token::ID`, the token program's id
/// (TokenkegQfeZyiNwAJbNbGKPFXCWuBvf9Ss623VQ5DA).
#[verifier::external_body]
fn token_program_id() -> (r: Key)
    ensures
        r@ == token_program_id_bytes(),
{
    anchor_spl::token::ID.to_bytes()
}

/// Relies on `anchor_spl::associated_token::ID`, the associated token account
/// program's id (ATokenGPvbdGVxr1b2hvZbsiqW5xWH25efTNsLJA8knL).
#[verifier::external_body]
fn associated_token_program_id() -> (r: Key)
    ensures
        r@ == associated_token_program_id_bytes(),
{
    anchor_spl::associated_token::ID.to_bytes()
}

/// The tag that opens every escrow's seeds: the bytes of "covered-call".
pub open spec fn escrow_tag() -> Seq<u8> {
    seq![99, 111, 118, 101, 114, 101, 100, 45, 99, 97, 108, 108]
}

/// The seeds of the escrow for one term tuple, in their canonical order.
pub open spec fn escrow_seeds(
    seller: Seq<u8>,
    buyer: Seq<u8>,
    mint_base: Seq<u8>,
    mint_quote: Seq<u8>,
    amount_base: u64,
    amount_quote: u64,
    timestamp_expiry: i64,
) -> Seq<Seq<u8>> {
    seq![
        escrow_tag(),
        seller,
        buyer,
        mint_base,
        mint_quote,
        le_bytes(amount_base),
        le_bytes(amount_quote),
        le_bytes_signed(timestamp_expiry),
    ]
}

/// The escrow's address and bump for one term tuple under `program_id`.
pub open spec fn escrow_address(
    program_id: Seq<u8>,
    seller: Seq<u8>,
    buyer: Seq<u8>,
    mint_base: Seq<u8>,
    mint_quote: Seq<u8>,
    amount_base: u64,
    amount_quote: u64,
    timestamp_expiry: i64,
) -> Option<(Seq<u8>, u8)> {
    program_address(
        escrow_seeds(seller, buyer, mint_base, mint_quote, amount_base, amount_quote, timestamp_expiry),
        program_id,
    )
}

/// The address of the token account that holds `mint` for `wallet`, with the
/// associated token account program's seeds.
pub open spec fn vault_address(wallet: Seq<u8>, mint: Seq<u8>) -> Option<Seq<u8>> {
    match program_address(
        seq![wallet, token_program_id_bytes(), mint],
        associated_token_program_id_bytes(),
    ) {
        Some((a, _)) => Some(a),
        None => None,
    }
}

fn key_to_vec(k: &Key) -> (r: Vec<u8>)
    ensures
        r@ == k@,
{
    let mut r: Vec<u8> = Vec::new();
    let mut i: usize = 0;
    while i < 32
        invariant
            i <= 32,
            k@.len() == 32,
            r@ == k@.subrange(0, i as int),
        decreases 32 - i,
    {
        r.push(k[i]);
        assert(r@ =~= k@.subrange(0, i + 1));
        i = i + 1;
    }
    assert(r@ =~= k@);
    r
}

/// Builds the escrow's seeds from its terms.
pub fn seeds_for_escrow(
    seller: &Key,
    buyer: &Key,
    mint_base: &Key,
    mint_quote: &Key,
    amount_base: u64,
    amount_quote: u64,
    timestamp_expiry: i64,
) -> (r: Vec<Vec<u8>>)
    ensures
        seeds_view(r@) == escrow_seeds(
            seller@,
            buyer@,
            mint_base@,
            mint_quote@,
            amount_base,
            amount_quote,
            timestamp_expiry,
        ),
{
    let tag: Vec<u8> = vec![99, 111, 118, 101, 114, 101, 100, 45, 99, 97, 108, 108];
    let r = vec![
        tag,
        key_to_vec(seller),
        key_to_vec(buyer),
        key_to_vec(mint_base),
        key_to_vec(mint_quote),
        u64_to_le_bytes(amount_base),
        u64_to_le_bytes(amount_quote),
        i64_to_le_bytes(timestamp_expiry),
    ];
    assert(seeds_view(r@) =~= escrow_seeds(
        seller@,
        buyer@,
        mint_base@,
        mint_quote@,
        amount_base,
        amount_quote,
        timestamp_expiry,
    ));
    r
}

/// Derives the escrow's address and bump from its terms; `None` when no
/// valid address exists for them.
pub fn derive_escrow_address(
    program_id: &Key,
    seller: &Key,
    buyer: &Key,
    mint_base: &Key,
    mint_quote: &Key,
    amount_base: u64,
    amount_quote: u64,
    timestamp_expiry: i64,
) -> (r: Option<(Key, u8)>)
    ensures
        found_view(r) == escrow_address(
            program_id@,
            seller@,
            buyer@,
            mint_base@,
            mint_quote@,
            amount_base,
            amount_quote,
            timestamp_expiry,
        ),
{
    let seeds = seeds_for_escrow(
        seller,
        buyer,
        mint_base,
        mint_quote,
        amount_base,
        amount_quote,
        timestamp_expiry,
    );
    find_program_address(&seeds, program_id)
}

/// Derives the address of the vault that holds `mint` for the escrow at
/// `escrow`; `None` when no valid address exists.
pub fn derive_vault_address(escrow: &Key, mint: &Key) -> (r: Option<Key>)
    ensures
        match r {
            Some(a) => vault_address(escrow@, mint@) == Some(a@),
            None => vault_address(escrow@, mint@) is None,
        },
{
    let seeds = vec![key_to_vec(escrow), key_to_vec(&token_program_id()), key_to_vec(mint)];
    let program = associated_token_program_id();
    assert(seeds_view(seeds@) =~= seq![escrow@, token_program_id_bytes(), mint@]);
    match find_program_address(&seeds, &program) {
        Some((a, _)) => Some(a),
        None => None,
    }
}

/// Identical terms always give the same escrow address and bump.
pub proof fn escrow_address_deterministic(
    program_id: Seq<u8>,
    seller: Seq<u8>,
    buyer: Seq<u8>,
    mint_base: Seq<u8>,
    mint_quote: Seq<u8>,
    amount_base: u64,
    amount_quote: u64,
    timestamp_expiry: i64,
    r1: Option<(Seq<u8>, u8)>,
    r2: Option<(Seq<u8>, u8)>,
)
    requires
        r1 == escrow_address(program_id, seller, buyer, mint_base, mint_quote, amount_base, amount_quote, timestamp_expiry),
        r2 == escrow_address(program_id, seller, buyer, mint_base, mint_quote, amount_base, amount_quote, timestamp_expiry),
    ensures
        r1 == r2,
{
}

/// Term tuples that differ in any field give different seeds: the encoding
/// of the terms that the address search hashes loses nothing.
pub proof fn distinct_terms_distinct_seeds(
    seller1: Key,
    buyer1: Key,
    mint_base1: Key,
    mint_quote1: Key,
    amount_base1: u64,
    amount_quote1: u64,
    timestamp_expiry1: i64,
    seller2: Key,
    buyer2: Key,
    mint_base2: Key,
    mint_quote2: Key,
    amount_base2: u64,
    amount_quote2: u64,
    timestamp_expiry2: i64,
)
    requires
        seller1@ != seller2@ || buyer1@ != buyer2@ || mint_base1@ != mint_base2@
            || mint_quote1@ != mint_quote2@ || amount_base1 != amount_base2
            || amount_quote1 != amount_quote2 || timestamp_expiry1 != timestamp_expiry2,
    ensures
        escrow_seeds(seller1@, buyer1@, mint_base1@, mint_quote1@, amount_base1, amount_quote1, timestamp_expiry1)
            != escrow_seeds(seller2@, buyer2@, mint_base2@, mint_quote2@, amount_base2, amount_quote2, timestamp_expiry2),
{
    let s1 = escrow_seeds(seller1@, buyer1@, mint_base1@, mint_quote1@, amount_base1, amount_quote1, timestamp_expiry1);
    let s2 = escrow_seeds(seller2@, buyer2@, mint_base2@, mint_quote2@, amount_base2, amount_quote2, timestamp_expiry2);
    if s1 == s2 {
        assert(s1[1] == s2[1]);
        assert(s1[2] == s2[2]);
        assert(s1[3] == s2[3]);
        assert(s1[4] == s2[4]);
        assert(s1[5] == s2[5]);
        assert(s1[6] == s2[6]);
        assert(s1[7] == s2[7]);
        le_bytes_injective(amount_base1, amount_base2);
        le_bytes_injective(amount_quote1, amount_quote2);
        le_bytes_signed_injective(timestamp_expiry1, timestamp_expiry2);
    }
}

} // verus!
