//! The pseudorandom winner draw.
//!
//! The draw derives a 64-bit seed by hashing the wall-clock timestamp
//! (big-endian), a monotonic ledger sequence number (big-endian) and the
//! raffle identifier's raw bytes through SHA-256, reads the first 8 digest
//! bytes as a little-endian integer, and maps it onto the closed range
//! `[1, max_entries]` by a modulus.
//!
//! This source is deliberately weak: the seed is deterministic given the
//! hashed inputs, so it is only as unpredictable as the timestamp and
//! sequence number are to an adversary who can observe them. It is an
//! inspectable pseudorandom draw, not a cryptographically secure lottery.

use vstd::prelude::*;

verus! {

/// The SHA-256 digest of `data`. The digest is a pure function of the input
/// bytes; nothing further is assumed of its value.
pub uninterp spec fn digest_of(data: Seq<u8>) -> Seq<u8>;

/// The 8 bytes of `x` in big-endian order.
pub open spec fn u64_be_bytes(x: u64) -> Seq<u8> {
    seq![
        ((x >> 56) & 0xff) as u8,
        ((x >> 48) & 0xff) as u8,
        ((x >> 40) & 0xff) as u8,
        ((x >> 32) & 0xff) as u8,
        ((x >> 24) & 0xff) as u8,
        ((x >> 16) & 0xff) as u8,
        ((x >> 8) & 0xff) as u8,
        (x & 0xff) as u8,
    ]
}

/// The unsigned integer read little-endian from the first 8 bytes of `b`.
pub open spec fn le_u64(b: Seq<u8>) -> int
    recommends
        b.len() >= 8,
{
    b[0] + b[1] * 0x100 + b[2] * 0x1_0000 + b[3] * 0x100_0000 + b[4] * 0x1_0000_0000
        + b[5] * 0x100_0000_0000 + b[6] * 0x1_0000_0000_0000 + b[7] * 0x100_0000_0000_0000
}

/// The byte string the draw hashes: timestamp, then sequence number, both
/// big-endian, then the raffle identifier's raw bytes.
pub open spec fn draw_input(raffle_id: Seq<u8>, timestamp: i64, sequence: u64) -> Seq<u8> {
    u64_be_bytes(timestamp as u64) + u64_be_bytes(sequence) + raffle_id
}

/// The ticket number the draw selects for the given inputs: the hashed seed
/// taken modulo the capacity, shifted onto `[1, max_entries]`.
pub open spec fn drawn_ticket(
    raffle_id: Seq<u8>,
    timestamp: i64,
    sequence: u64,
    max_entries: u32,
) -> int
    recommends
        max_entries > 0,
{
    le_u64(digest_of(draw_input(raffle_id, timestamp, sequence))) % (max_entries as int) + 1
}

/// Relies on `anchor_lang::solana_program::hash::hash`: it returns the
/// SHA-256 digest of its input, a function of the input bytes alone, and
/// `Hash::to_bytes` hands out its 32 bytes.
#[verifier::external_body]
fn sha256(input: &Vec<u8>) -> (r: Vec<u8>)
    ensures
        r@ == digest_of(input@),
        r@.len() == 32,
{
    anchor_lang::solana_program::hash::hash(input.as_slice()).to_bytes().to_vec()
}

/// Writes `x` as its 8 big-endian bytes.
fn u64_to_be_bytes(x: u64) -> (r: Vec<u8>)
    ensures
        r@ == u64_be_bytes(x),
{
    let mut r: Vec<u8> = Vec::new();
    r.push(((x >> 56) & 0xff) as u8);
    r.push(((x >> 48) & 0xff) as u8);
    r.push(((x >> 40) & 0xff) as u8);
    r.push(((x >> 32) & 0xff) as u8);
    r.push(((x >> 24) & 0xff) as u8);
    r.push(((x >> 16) & 0xff) as u8);
    r.push(((x >> 8) & 0xff) as u8);
    r.push((x & 0xff) as u8);
    proof {
        assert(r@ =~= u64_be_bytes(x));
    }
    r
}

/// Reads the first 8 bytes of `bytes` as a little-endian unsigned integer.
fn read_le_u64(bytes: &Vec<u8>) -> (r: u64)
    requires
        bytes@.len() >= 8,
    ensures
        r == le_u64(bytes@),
{
    let mut r: u64 = bytes[7] as u64;
    r = r * 0x100 + bytes[6] as u64;
    r = r * 0x100 + bytes[5] as u64;
    r = r * 0x100 + bytes[4] as u64;
    r = r * 0x100 + bytes[3] as u64;
    r = r * 0x100 + bytes[2] as u64;
    r = r * 0x100 + bytes[1] as u64;
    r = r * 0x100 + bytes[0] as u64;
    r
}

/// Concatenates the seed inputs in the order the draw hashes them.
fn build_draw_input(raffle_id: &Vec<u8>, timestamp: i64, sequence: u64) -> (r: Vec<u8>)
    ensures
        r@ == draw_input(raffle_id@, timestamp, sequence),
{
    let mut r = u64_to_be_bytes(timestamp as u64);
    let mut seq_bytes = u64_to_be_bytes(sequence);
    r.append(&mut seq_bytes);
    let mut i: usize = 0;
    while i < raffle_id.len()
        invariant
            i <= raffle_id@.len(),
            r@ == u64_be_bytes(timestamp as u64) + u64_be_bytes(sequence)
                + raffle_id@.take(i as int),
        decreases raffle_id@.len() - i,
    {
        r.push(raffle_id[i]);
        proof {
            assert(raffle_id@.take(i + 1) =~= raffle_id@.take(i as int).push(raffle_id@[i as int]));
        }
        i = i + 1;
    }
    proof {
        assert(raffle_id@.take(raffle_id@.len() as int) =~= raffle_id@);
    }
    r
}

/// Maps a 64-bit seed onto the closed range `[1, max_entries]`: the seed
/// modulo the capacity, plus one.
pub fn winner_from_seed(seed: u64, max_entries: u32) -> (w: u32)
    requires
        max_entries > 0,
    ensures
        1 <= w <= max_entries,
        w == seed as int % (max_entries as int) + 1,
{
    let m: u64 = seed % (max_entries as u64);
    (m + 1) as u32
}

/// Runs the whole draw for the given seed inputs: hashes them, reads the
/// seed from the digest and maps it onto `[1, max_entries]`.
pub fn draw_winner(raffle_id: &Vec<u8>, timestamp: i64, sequence: u64, max_entries: u32) -> (w: u32)
    requires
        max_entries > 0,
    ensures
        1 <= w <= max_entries,
        w == drawn_ticket(raffle_id@, timestamp, sequence, max_entries),
{
    let input = build_draw_input(raffle_id, timestamp, sequence);
    let digest = sha256(&input);
    let seed = read_le_u64(&digest);
    winner_from_seed(seed, max_entries)
}

} // verus!
