//! Where the game's randomness comes from: the chain's random seed, mixed with
//! who asks and when, encoded in SCALE and hashed with Blake2.
use vstd::prelude::*;
use parity_scale_codec::Encode;
use sp_runtime::traits::BlakeTwo256;

verus! {

/// The Blake2b digest of `data` with a 128-bit output.
pub uninterp spec fn blake2_128_digest(data: Seq<u8>) -> Seq<u8>;

/// The Blake2b digest of `data` with a 256-bit output.
pub uninterp spec fn blake2_256_digest(data: Seq<u8>) -> Seq<u8>;

/// The `n` least significant bytes of `x`, least significant first.
pub open spec fn le_bytes(x: nat, n: nat) -> Seq<u8>
    decreases n,
{
    if n == 0 {
        Seq::empty()
    } else {
        seq![(x % 256) as u8] + le_bytes(x / 256, (n - 1) as nat)
    }
}

/// The SCALE encoding of an optional `u32`: a zero byte, or a one byte and the value.
pub open spec fn scale_option_u32(o: Option<u32>) -> Seq<u8> {
    match o {
        None => seq![0u8],
        Some(v) => seq![1u8] + le_bytes(v as nat, 4),
    }
}

/// The SCALE encoding of an `i32`: its two's complement, least significant byte first.
pub open spec fn scale_i32(v: i32) -> Seq<u8> {
    le_bytes((if v < 0 { v + 0x1_0000_0000 } else { v as int }) as nat, 4)
}

/// The bytes hashed into a new kitty's DNA: the chain's seed, the sender,
/// the extrinsic index and the block number, SCALE-encoded in that order.
pub open spec fn dna_payload(seed: Seq<u8>, sender: u64, extrinsic_index: Option<u32>, block_number: u64) -> Seq<u8> {
    seed + le_bytes(sender as nat, 8) + scale_option_u32(extrinsic_index) + le_bytes(block_number as nat, 8)
}

/// The bytes hashed for the lottery: the chain's seed, the extrinsic index and
/// the block number, SCALE-encoded in that order.
pub open spec fn lottery_payload(seed: Seq<u8>, extrinsic_index: Option<u32>, block_number: u64) -> Seq<u8> {
    seed + scale_option_u32(extrinsic_index) + le_bytes(block_number as nat, 8)
}

/// `parity_scale_codec::Encode::encode` of the tuple `(seed, sender, extrinsic_index,
/// block_number)`: SCALE writes a byte array as its bytes, a `u64` as eight bytes
/// least significant first, and an `Option` as a tag byte followed by the value.
#[verifier::external_body]
fn encode_dna_payload(seed: [u8; 32], sender: u64, extrinsic_index: Option<u32>, block_number: u64) -> (r: Vec<u8>)
    ensures
        r@ == dna_payload(seed@, sender, extrinsic_index, block_number),
{
    (seed, sender, extrinsic_index, block_number).encode()
}

/// `parity_scale_codec::Encode::encode` of the tuple `(seed, extrinsic_index,
/// block_number)`, laid out as for `encode_dna_payload`.
#[verifier::external_body]
fn encode_lottery_payload(seed: [u8; 32], extrinsic_index: Option<u32>, block_number: u64) -> (r: Vec<u8>)
    ensures
        r@ == lottery_payload(seed@, extrinsic_index, block_number),
{
    (seed, extrinsic_index, block_number).encode()
}

/// `parity_scale_codec::Encode::encode` of an `i32`: four bytes of its two's
/// complement, least significant first.
#[verifier::external_body]
pub(crate) fn encode_i32(v: i32) -> (r: Vec<u8>)
    ensures
        r@ == scale_i32(v),
{
    v.encode()
}

/// `sp_io::hashing::blake2_128`: the 128-bit Blake2b digest of `data`, which the
/// contract names and does not spell out.
#[verifier::external_body]
fn blake2_128(data: &[u8]) -> (r: [u8; 16])
    ensures
        r@ == blake2_128_digest(data@),
{
    sp_io::hashing::blake2_128(data)
}

/// `<BlakeTwo256 as sp_runtime::traits::Hash>::hash`: the 256-bit Blake2b digest of
/// `data`, which the contract names and does not spell out.
#[verifier::external_body]
fn blake_two_256(data: &[u8]) -> (r: [u8; 32])
    ensures
        r@ == blake2_256_digest(data@),
{
    <BlakeTwo256 as sp_runtime::traits::Hash>::hash(data).0
}

/// The 128 random bits given to a kitty created or bred by `sender`: the Blake2-128
/// digest of the encoded chain seed, sender, extrinsic index and block number.
pub fn random_value(random_seed: [u8; 32], sender: u64, extrinsic_index: Option<u32>, block_number: u64) -> (r: [u8; 16])
    ensures
        r@ == blake2_128_digest(dna_payload(random_seed@, sender, extrinsic_index, block_number)),
{
    let payload = encode_dna_payload(random_seed, sender, extrinsic_index, block_number);
    blake2_128(payload.as_slice())
}

/// The seed of the lottery's number generator: the Blake2-256 digest of the
/// Blake2-128 digest of the encoded chain seed, extrinsic index and block number.
pub fn lottery_seed(random_seed: [u8; 32], extrinsic_index: Option<u32>, block_number: u64) -> (r: [u8; 32])
    ensures
        r@ == blake2_256_digest(blake2_128_digest(lottery_payload(random_seed@, extrinsic_index, block_number))),
{
    let payload = encode_lottery_payload(random_seed, extrinsic_index, block_number);
    let short = blake2_128(payload.as_slice());
    blake_two_256(&short)
}

} // verus!
