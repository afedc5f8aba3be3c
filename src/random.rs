use vstd::prelude::*;

verus! {

/// The Keccak-256 digest of a byte sequence.
pub uninterp spec fn keccak256_of(input: Seq<u8>) -> Seq<u8>;

/// Relies on `ink::env::hash_bytes` with `Keccak256`: it fills a 32-byte
/// array with the digest of the input, which depends on the input alone.
#[verifier::external_body]
fn keccak256(input: &Vec<u8>) -> (r: [u8; 32])
    ensures
        r@ == keccak256_of(input@),
{
    let mut output: [u8; 32] = [0u8; 32];
    ink::env::hash_bytes::<ink::env::hash::Keccak256>(input.as_slice(), &mut output);
    output
}

/// The eight big-endian bytes of `x`.
pub open spec fn be_bytes(x: u64) -> Seq<u8> {
    seq![
        ((x >> 56u64) % 256) as u8,
        ((x >> 48u64) % 256) as u8,
        ((x >> 40u64) % 256) as u8,
        ((x >> 32u64) % 256) as u8,
        ((x >> 24u64) % 256) as u8,
        ((x >> 16u64) % 256) as u8,
        ((x >> 8u64) % 256) as u8,
        (x % 256) as u8,
    ]
}

/// What a draw hashes: the block timestamp, then the salt, both big-endian.
pub open spec fn draw_input(block_timestamp: u64, salt: u64) -> Seq<u8> {
    be_bytes(block_timestamp) + be_bytes(salt)
}

/// A byte brought into `[0, max_value]`.
pub open spec fn bounded(byte: u8, max_value: u8) -> u8 {
    (byte as int % (max_value as int + 1)) as u8
}

/// The value drawn at this timestamp with this salt, in `[0, max_value]`.
pub open spec fn draw(block_timestamp: u64, salt: u64, max_value: u8) -> u8 {
    bounded(keccak256_of(draw_input(block_timestamp, salt))[0], max_value)
}

fn push_be_bytes(out: &mut Vec<u8>, x: u64)
    ensures
        final(out)@ == old(out)@ + be_bytes(x),
{
    out.push(((x >> 56u64) % 256) as u8);
    out.push(((x >> 48u64) % 256) as u8);
    out.push(((x >> 40u64) % 256) as u8);
    out.push(((x >> 32u64) % 256) as u8);
    out.push(((x >> 24u64) % 256) as u8);
    out.push(((x >> 16u64) % 256) as u8);
    out.push(((x >> 8u64) % 256) as u8);
    out.push((x % 256) as u8);
    assert(out@ =~= old(out)@ + be_bytes(x));
}

/// The bytes that a draw hashes.
pub fn draw_input_bytes(block_timestamp: u64, salt: u64) -> (r: Vec<u8>)
    ensures
        r@ == draw_input(block_timestamp, salt),
{
    let mut input: Vec<u8> = Vec::new();
    push_be_bytes(&mut input, block_timestamp);
    push_be_bytes(&mut input, salt);
    assert(input@ =~= draw_input(block_timestamp, salt));
    input
}

/// Brings the first byte of a digest into `[0, max_value]`.
pub fn bounded_draw(byte: u8, max_value: u8) -> (r: u8)
    ensures
        r == bounded(byte, max_value),
        r <= max_value,
{
    let m: u16 = max_value as u16 + 1;
    ((byte as u16) % m) as u8
}

/// Draws a value in `[0, max_value]` from the digest of the timestamp and the
/// salt.
pub fn draw_bounded(block_timestamp: u64, salt: u64, max_value: u8) -> (r: u8)
    ensures
        r == draw(block_timestamp, salt, max_value),
        r <= max_value,
{
    let input = draw_input_bytes(block_timestamp, salt);
    let digest = keccak256(&input);
    bounded_draw(digest[0], max_value)
}

/// Every draw lies in `[0, max_value]`, whatever the digest.
pub proof fn lemma_draw_in_range(block_timestamp: u64, salt: u64, max_value: u8)
    ensures
        draw(block_timestamp, salt, max_value) <= max_value,
{
}

} // verus!
