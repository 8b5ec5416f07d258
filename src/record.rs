use vstd::prelude::*;
use crate::bytes::{Key, le_bytes, le_bytes_signed, le_bytes_injective, le_bytes_signed_injective};
use crate::ledger::CoveredCall;

verus! {

/// The optional premium: a marker byte, then the amount when present.
pub open spec fn premium_bytes(p: Option<u64>) -> Seq<u8> {
    match p {
        None => seq![0u8],
        Some(x) => seq![1u8] + le_bytes(x),
    }
}

/// The stored form of an escrow record: the discriminator, then each field
/// in order, amounts and times as eight little-endian bytes, the flag and
/// the bump as one byte each.
pub open spec fn record_bytes(discriminator: Seq<u8>, c: CoveredCall) -> Seq<u8> {
    discriminator + c.seller@ + c.buyer@ + c.mint_base@ + c.mint_quote@ + le_bytes(c.amount_base)
        + le_bytes(c.amount_quote) + premium_bytes(c.amount_premium) + le_bytes_signed(
        c.timestamp_created,
    ) + le_bytes_signed(c.timestamp_expiry) + seq![if c.is_exercised { 1u8 } else { 0u8 }]
        + seq![c.bump]
}

/// The space that a stored record may take, with the premium present.
pub const RECORD_SPACE: usize = 8 + 32 * 4 + 8 + 8 + 9 + 8 + 8 + 1 + 1;

fn push_all(out: &mut Vec<u8>, b: &[u8])
    ensures
        final(out)@ == old(out)@ + b@,
{
    out.extend_from_slice(b);
    assert(final(out)@ =~= old(out)@ + b@);
}

fn push_u64(out: &mut Vec<u8>, x: u64)
    ensures
        final(out)@ == old(out)@ + le_bytes(x),
{
    let b = crate::bytes::u64_to_le_bytes(x);
    push_all(out, b.as_slice());
}

fn push_key(out: &mut Vec<u8>, k: &Key)
    ensures
        final(out)@ == old(out)@ + k@,
{
    push_all(out, k.as_slice());
}

/// Writes the stored form of `c` after `discriminator`.
pub fn encode_record(discriminator: &[u8; 8], c: &CoveredCall) -> (r: Vec<u8>)
    ensures
        r@ == record_bytes(discriminator@, *c),
{
    let mut r: Vec<u8> = Vec::new();
    push_all(&mut r, discriminator.as_slice());
    push_key(&mut r, &c.seller);
    push_key(&mut r, &c.buyer);
    push_key(&mut r, &c.mint_base);
    push_key(&mut r, &c.mint_quote);
    push_u64(&mut r, c.amount_base);
    push_u64(&mut r, c.amount_quote);
    match c.amount_premium {
        None => {
            r.push(0u8);
        },
        Some(x) => {
            r.push(1u8);
            push_u64(&mut r, x);
        },
    }
    push_u64(&mut r, c.timestamp_created as u64);
    push_u64(&mut r, c.timestamp_expiry as u64);
    r.push(if c.is_exercised { 1u8 } else { 0u8 });
    r.push(c.bump);
    proof {
        assert(r@ =~= record_bytes(discriminator@, *c));
    }
    r
}

/// Where the fields after the premium start, from the premium's marker.
pub open spec fn after_premium(b: Seq<u8>) -> int {
    if b[152] == 0 {
        153
    } else {
        161
    }
}

/// Whether `b` opens with a stored record under `discriminator`: long
/// enough, the discriminator in front, and both marker bytes 0 or 1.
pub open spec fn record_decodable(discriminator: Seq<u8>, b: Seq<u8>) -> bool {
    &&& b.len() >= 153
    &&& b.subrange(0, 8) == discriminator
    &&& (b[152] == 0 || b[152] == 1)
    &&& b.len() >= after_premium(b) + 18
    &&& (b[after_premium(b) + 16] == 0 || b[after_premium(b) + 16] == 1)
}

fn read_u64(b: &[u8], at: usize) -> (r: u64)
    requires
        at + 8 <= b@.len(),
    ensures
        le_bytes(r) == b@.subrange(at as int, at + 8),
{
    let b0 = b[at];
    let b1 = b[at + 1];
    let b2 = b[at + 2];
    let b3 = b[at + 3];
    let b4 = b[at + 4];
    let b5 = b[at + 5];
    let b6 = b[at + 6];
    let b7 = b[at + 7];
    let r = (b0 as u64) | ((b1 as u64) << 8u64) | ((b2 as u64) << 16u64) | ((b3 as u64) << 24u64)
        | ((b4 as u64) << 32u64) | ((b5 as u64) << 40u64) | ((b6 as u64) << 48u64) | ((b7 as u64)
        << 56u64);
    assert(
        (r & 0xff) as u8 == b0
        && ((r >> 8u64) & 0xff) as u8 == b1
        && ((r >> 16u64) & 0xff) as u8 == b2
        && ((r >> 24u64) & 0xff) as u8 == b3
        && ((r >> 32u64) & 0xff) as u8 == b4
        && ((r >> 40u64) & 0xff) as u8 == b5
        && ((r >> 48u64) & 0xff) as u8 == b6
        && ((r >> 56u64) & 0xff) as u8 == b7
    ) by (bit_vector)
        requires
            r == (b0 as u64) | ((b1 as u64) << 8u64) | ((b2 as u64) << 16u64) | ((b3 as u64)
                << 24u64) | ((b4 as u64) << 32u64) | ((b5 as u64) << 40u64) | ((b6 as u64)
                << 48u64) | ((b7 as u64) << 56u64),
    ;
    assert(le_bytes(r) =~= b@.subrange(at as int, at + 8));
    r
}

fn read_i64(b: &[u8], at: usize) -> (r: i64)
    requires
        at + 8 <= b@.len(),
    ensures
        le_bytes_signed(r) == b@.subrange(at as int, at + 8),
{
    let u = read_u64(b, at);
    let r = u as i64;
    assert(r as u64 == u) by (bit_vector)
        requires
            r == u as i64,
    ;
    r
}

fn read_key(b: &[u8], at: usize) -> (r: Key)
    requires
        at + 32 <= b@.len(),
    ensures
        r@ == b@.subrange(at as int, at + 32),
{
    let mut r: Key = [0u8; 32];
    let len = b.len();
    let mut i: usize = 0;
    while i < 32
        invariant
            i <= 32,
            len == b@.len(),
            at + 32 <= b@.len(),
            r@.len() == 32,
            forall|j: int| 0 <= j < i ==> r@[j] == b@[at + j],
        decreases 32 - i,
    {
        r[i] = b[at + i];
        i = i + 1;
    }
    assert(r@ =~= b@.subrange(at as int, at + 32));
    r
}

/// Reads a stored record from the front of `b`; `None` when `b` does not
/// open with one under `discriminator`.
pub fn decode_record(discriminator: &[u8; 8], b: &[u8]) -> (r: Option<CoveredCall>)
    ensures
        r is Some <==> record_decodable(discriminator@, b@),
        r matches Some(c) ==> b@.subrange(0, record_bytes(discriminator@, c).len() as int)
            == record_bytes(discriminator@, c),
{
    if b.len() < 153 {
        return None;
    }
    let mut i: usize = 0;
    while i < 8
        invariant
            i <= 8,
            b@.len() >= 153,
            discriminator@.len() == 8,
            forall|j: int| 0 <= j < i ==> b@[j] == discriminator@[j],
        decreases 8 - i,
    {
        if b[i] != discriminator[i] {
            assert(b@.subrange(0, 8)[i as int] != discriminator@[i as int]);
            return None;
        }
        i = i + 1;
    }
    assert(b@.subrange(0, 8) =~= discriminator@);
    let tag = b[152];
    if tag != 0 && tag != 1 {
        return None;
    }
    let n: usize = if tag == 0 {
        153
    } else {
        161
    };
    if b.len() < n + 18 {
        return None;
    }
    let flag = b[n + 16];
    if flag != 0 && flag != 1 {
        return None;
    }
    let amount_premium = if tag == 0 {
        None
    } else {
        Some(read_u64(b, 153))
    };
    let c = CoveredCall {
        seller: read_key(b, 8),
        buyer: read_key(b, 40),
        mint_base: read_key(b, 72),
        mint_quote: read_key(b, 104),
        amount_base: read_u64(b, 136),
        amount_quote: read_u64(b, 144),
        amount_premium,
        timestamp_created: read_i64(b, n),
        timestamp_expiry: read_i64(b, n + 8),
        is_exercised: flag == 1,
        bump: b[n + 17],
    };
    proof {
        assert(premium_bytes(amount_premium) =~= b@.subrange(152, n as int));
        assert(b@.subrange(0, n + 18) =~= record_bytes(discriminator@, c));
    }
    Some(c)
}

/// A stored record can always be read back.
pub proof fn encoded_record_decodable(discriminator: Seq<u8>, c: CoveredCall)
    requires
        discriminator.len() == 8,
    ensures
        record_decodable(discriminator, record_bytes(discriminator, c)),
{
    let b = record_bytes(discriminator, c);
    assert(b.subrange(0, 8) =~= discriminator);
    assert(b[152] == premium_bytes(c.amount_premium)[0]);
    let n = after_premium(b);
    assert(b[n + 16] == if c.is_exercised { 1u8 } else { 0u8 });
}

/// Where each field of a record stands in its stored form.
#[verifier::rlimit(100)]
pub proof fn record_bytes_fields(discriminator: Seq<u8>, c: CoveredCall)
    requires
        discriminator.len() == 8,
    ensures
        ({
            let b = record_bytes(discriminator, c);
            let n: int = 152 + premium_bytes(c.amount_premium).len() as int;
            &&& b.subrange(8, 40) == c.seller@
            &&& b.subrange(40, 72) == c.buyer@
            &&& b.subrange(72, 104) == c.mint_base@
            &&& b.subrange(104, 136) == c.mint_quote@
            &&& b.subrange(136, 144) == le_bytes(c.amount_base)
            &&& b.subrange(144, 152) == le_bytes(c.amount_quote)
            &&& b.subrange(152, n) == premium_bytes(c.amount_premium)
            &&& b.subrange(n, n + 8) == le_bytes_signed(c.timestamp_created)
            &&& b.subrange(n + 8, n + 16) == le_bytes_signed(c.timestamp_expiry)
            &&& b[n + 16] == if c.is_exercised { 1u8 } else { 0u8 }
            &&& b[n + 17] == c.bump
            &&& b.len() == n + 18
        }),
{
    let b = record_bytes(discriminator, c);
    let n: int = 152 + premium_bytes(c.amount_premium).len() as int;
    assert(b.subrange(8, 40) =~= c.seller@);
    assert(b.subrange(40, 72) =~= c.buyer@);
    assert(b.subrange(72, 104) =~= c.mint_base@);
    assert(b.subrange(104, 136) =~= c.mint_quote@);
    assert(b.subrange(136, 144) =~= le_bytes(c.amount_base));
    assert(b.subrange(144, 152) =~= le_bytes(c.amount_quote));
    assert(b.subrange(152, n) =~= premium_bytes(c.amount_premium));
    assert(b.subrange(n, n + 8) =~= le_bytes_signed(c.timestamp_created));
    assert(b.subrange(n + 8, n + 16) =~= le_bytes_signed(c.timestamp_expiry));
}

/// The stored form determines the record: two records stored alike agree
/// in every field.
pub proof fn record_bytes_determine_record(discriminator: Seq<u8>, c1: CoveredCall, c2: CoveredCall)
    requires
        discriminator.len() == 8,
        record_bytes(discriminator, c1) == record_bytes(discriminator, c2),
    ensures
        c1.seller@ == c2.seller@,
        c1.buyer@ == c2.buyer@,
        c1.mint_base@ == c2.mint_base@,
        c1.mint_quote@ == c2.mint_quote@,
        c1.amount_base == c2.amount_base,
        c1.amount_quote == c2.amount_quote,
        c1.amount_premium == c2.amount_premium,
        c1.timestamp_created == c2.timestamp_created,
        c1.timestamp_expiry == c2.timestamp_expiry,
        c1.is_exercised == c2.is_exercised,
        c1.bump == c2.bump,
{
    let b = record_bytes(discriminator, c1);
    record_bytes_fields(discriminator, c1);
    record_bytes_fields(discriminator, c2);
    le_bytes_injective(c1.amount_base, c2.amount_base);
    le_bytes_injective(c1.amount_quote, c2.amount_quote);
    assert(premium_bytes(c1.amount_premium)[0] == b[152]);
    assert(premium_bytes(c2.amount_premium)[0] == b[152]);
    if c1.amount_premium is Some {
        assert(premium_bytes(c1.amount_premium).subrange(1, 9) =~= le_bytes(c1.amount_premium->Some_0));
        assert(premium_bytes(c2.amount_premium).subrange(1, 9) =~= le_bytes(c2.amount_premium->Some_0));
        le_bytes_injective(c1.amount_premium->Some_0, c2.amount_premium->Some_0);
    }
    le_bytes_signed_injective(c1.timestamp_created, c2.timestamp_created);
    le_bytes_signed_injective(c1.timestamp_expiry, c2.timestamp_expiry);
}

} // verus!
