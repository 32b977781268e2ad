use vstd::prelude::*;

use crate::bytes::{key_bytes, le_bytes, le_value, push_le_bytes, read_le_u64};
use crate::errors::PayrollError;
use crate::identity::Pubkey;

verus! {

/// The SHA-256 digest of `data`.
pub uninterp spec fn sha256_of(data: Seq<u8>) -> Seq<u8>;

/// Relies on anchor_lang::solana_program::hash::hash: the SHA-256 digest of
/// the bytes, whose `to_bytes` gives its 32 bytes.
#[verifier::external_body]
fn sha256(data: &Vec<u8>) -> (r: Vec<u8>)
    ensures
        r@ == sha256_of(data@),
        r@.len() == 32,
{
    anchor_lang::solana_program::hash::hash(data.as_slice()).to_bytes().to_vec()
}

/// The entropy buffer of a fallback draw: slot, timestamp, raffle identity,
/// block entropy and tickets sold, integers least significant byte first.
pub open spec fn entropy_seed(
    slot: u64,
    timestamp: i64,
    raffle_key: Pubkey,
    blockhash: Seq<u8>,
    tickets_sold: u32,
) -> Seq<u8> {
    le_bytes(slot as nat, 8) + le_bytes((timestamp as u64) as nat, 8) + key_bytes(raffle_key)
        + blockhash + le_bytes(tickets_sold as nat, 4)
}

/// Three hash passes over the seed, each appending the previous digest to
/// the buffer before hashing it again; the last digest.
pub open spec fn mixed_digest(seed: Seq<u8>) -> Seq<u8> {
    let second = seed + sha256_of(seed);
    let third = second + sha256_of(second);
    sha256_of(third)
}

/// The ticket index that random bytes select: their first eight bytes as a
/// little-endian number, modulo the tickets sold.
pub open spec fn ticket_from_random(bytes: Seq<u8>, tickets_sold: u32) -> int {
    le_value(bytes.subrange(0, 8)) as int % (tickets_sold as int)
}

/// Maps random bytes to a ticket index below `tickets_sold`.
pub fn ticket_from_random_bytes(bytes: &[u8], tickets_sold: u32) -> (r: u32)
    requires
        bytes@.len() >= 8,
        tickets_sold > 0,
    ensures
        r == ticket_from_random(bytes@, tickets_sold),
        r < tickets_sold,
{
    let v = read_le_u64(bytes, 0);
    (v % (tickets_sold as u64)) as u32
}

/// What `generate_secure_random` returns.
pub open spec fn fallback_draw(
    slot: u64,
    timestamp: i64,
    raffle_key: Pubkey,
    blockhash: Seq<u8>,
    tickets_sold: u32,
) -> Result<u32, PayrollError> {
    if tickets_sold == 0 {
        Err(PayrollError::NoTicketsSold)
    } else {
        Ok(
            ticket_from_random(
                mixed_digest(entropy_seed(slot, timestamp, raffle_key, blockhash, tickets_sold)),
                tickets_sold,
            ) as u32,
        )
    }
}

/// Picks a winning ticket from mixed entropy when no VRF result is used.
/// Anyone who controls slot, timestamp and block entropy together can steer
/// it: a best-effort fallback, not a commitment scheme.
pub fn generate_secure_random(
    slot: u64,
    timestamp: i64,
    raffle_key: &Pubkey,
    blockhash: &[u8],
    tickets_sold: u32,
) -> (r: Result<u32, PayrollError>)
    ensures
        r == fallback_draw(slot, timestamp, *raffle_key, blockhash@, tickets_sold),
        r is Ok ==> r->Ok_0 < tickets_sold,
{
    if tickets_sold == 0 {
        return Err(PayrollError::NoTicketsSold);
    }
    let mut seed: Vec<u8> = Vec::new();
    push_le_bytes(&mut seed, slot, 8);
    push_le_bytes(&mut seed, timestamp as u64, 8);
    let key = raffle_key.to_bytes();
    let mut i: usize = 0;
    while i < key.len()
        invariant
            0 <= i <= key@.len(),
            seed@ == le_bytes(slot as nat, 8) + le_bytes((timestamp as u64) as nat, 8)
                + key@.subrange(0, i as int),
        decreases key@.len() - i,
    {
        seed.push(key[i]);
        i += 1;
        assert(seed@ =~= le_bytes(slot as nat, 8) + le_bytes((timestamp as u64) as nat, 8)
            + key@.subrange(0, i as int));
    }
    let mut j: usize = 0;
    while j < blockhash.len()
        invariant
            0 <= j <= blockhash@.len(),
            seed@ == le_bytes(slot as nat, 8) + le_bytes((timestamp as u64) as nat, 8)
                + key_bytes(*raffle_key) + blockhash@.subrange(0, j as int),
        decreases blockhash@.len() - j,
    {
        seed.push(blockhash[j]);
        j += 1;
        assert(seed@ =~= le_bytes(slot as nat, 8) + le_bytes((timestamp as u64) as nat, 8)
            + key_bytes(*raffle_key) + blockhash@.subrange(0, j as int));
    }
    assert(blockhash@.subrange(0, blockhash@.len() as int) =~= blockhash@);
    assert(key@.subrange(0, key@.len() as int) =~= key@);
    push_le_bytes(&mut seed, tickets_sold as u64, 4);
    let ghost initial = seed@;
    assert(initial == entropy_seed(slot, timestamp, *raffle_key, blockhash@, tickets_sold));
    let first = sha256(&seed);
    append_bytes(&mut seed, &first);
    let second = sha256(&seed);
    append_bytes(&mut seed, &second);
    let last = sha256(&seed);
    Ok(ticket_from_random_bytes(last.as_slice(), tickets_sold))
}

/// Appends all of `extra` to `buf`.
fn append_bytes(buf: &mut Vec<u8>, extra: &Vec<u8>)
    ensures
        final(buf)@ == old(buf)@ + extra@,
{
    let mut i: usize = 0;
    while i < extra.len()
        invariant
            0 <= i <= extra@.len(),
            buf@ == old(buf)@ + extra@.subrange(0, i as int),
        decreases extra@.len() - i,
    {
        buf.push(extra[i]);
        i += 1;
        assert(buf@ =~= old(buf)@ + extra@.subrange(0, i as int));
    }
    assert(extra@.subrange(0, extra@.len() as int) =~= extra@);
}

/// What `verify_vrf_and_get_random` returns.
pub open spec fn vrf_draw(vrf_result: Seq<u8>, tickets_sold: u32) -> Result<u32, PayrollError> {
    if vrf_result.len() == 0 {
        Err(PayrollError::VrfResultNotAvailable)
    } else if vrf_result.len() < 8 {
        Err(PayrollError::InvalidVrfProof)
    } else if tickets_sold == 0 {
        Err(PayrollError::NoTicketsSold)
    } else {
        Ok(ticket_from_random(vrf_result, tickets_sold) as u32)
    }
}

/// Picks a winning ticket from a VRF output: its first eight bytes as a
/// little-endian number, modulo the tickets sold.
pub fn verify_vrf_and_get_random(vrf_result: &[u8], tickets_sold: u32) -> (r: Result<
    u32,
    PayrollError,
>)
    ensures
        r == vrf_draw(vrf_result@, tickets_sold),
        r is Ok ==> r->Ok_0 < tickets_sold,
{
    if vrf_result.len() == 0 {
        return Err(PayrollError::VrfResultNotAvailable);
    }
    if vrf_result.len() < 8 {
        return Err(PayrollError::InvalidVrfProof);
    }
    if tickets_sold == 0 {
        return Err(PayrollError::NoTicketsSold);
    }
    Ok(ticket_from_random_bytes(vrf_result, tickets_sold))
}

} // verus!
