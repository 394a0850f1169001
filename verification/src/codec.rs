//! The password transform: a fixed byte permutation followed by a fixed XOR.

use vstd::prelude::*;
use crate::flags::ALL_CHEATS;
use crate::flags::CheatCodes;

verus! {

/// Fixed key XORed with the permuted mask to form the password.
pub const OBFUSCATION_KEY: u32 = 0xA5B4C3D2;

/// The byte permutation applied while encoding. Writing the input bytes as
/// `B3 B2 B1 B0` (most to least significant), the output bytes read
/// `B2 B0 B3 B1`: byte 0 moves to byte 2, byte 1 to byte 0, byte 2 to
/// byte 3, and byte 3 to byte 1.
pub open spec fn spec_permute(x: u32) -> u32 {
    ((x >> 8) & 0xFF) | (((x >> 24) & 0xFF) << 8) | ((x & 0xFF) << 16) | (((x >> 16) & 0xFF)
        << 24)
}

/// The inverse byte permutation, applied while decoding: each byte returns
/// to the position it held before [`spec_permute`].
pub open spec fn spec_unpermute(y: u32) -> u32 {
    ((y >> 16) & 0xFF) | ((y & 0xFF) << 8) | (((y >> 24) & 0xFF) << 16) | (((y >> 8) & 0xFF)
        << 24)
}

/// What encoding returns: the permuted mask XORed with the key.
pub open spec fn spec_encrypt(f: u32) -> u32 {
    spec_permute(f) ^ OBFUSCATION_KEY
}

/// What decoding returns: the XOR undone, the permutation inverted, and
/// unnamed bits (26..=31) dropped.
pub open spec fn spec_decrypt(p: u32) -> u32 {
    spec_unpermute(p ^ OBFUSCATION_KEY) & ALL_CHEATS
}

/// Turns a cheat set into the password the player is shown.
pub fn encrypt(bitmask: CheatCodes) -> (password: u32)
    ensures
        password == spec_encrypt(bitmask@),
{
    let bits = bitmask.bits();
    let esi = (bits >> 24) << 8;
    let edx = (bits & 0x00FF0000) << 8;
    let dh = (bits & 0x0000FF00) >> 8;
    let dl = (bits & 0x000000FF) << 16;
    let permuted = esi | edx | dh | dl;
    proof {
        assert(((bits >> 24) << 8) | ((bits & 0x00FF0000) << 8) | ((bits & 0x0000FF00) >> 8) | ((
        bits & 0x000000FF) << 16) == spec_permute(bits)) by (bit_vector);
    }
    permuted ^ OBFUSCATION_KEY
}

/// Recovers the cheat set from a password. Total: any 32-bit value decodes,
/// and bits that name no cheat are silently dropped.
pub fn decrypt(password: u32) -> (codes: CheatCodes)
    ensures
        codes@ == spec_decrypt(password),
        codes.wf(),
{
    let masked = password ^ OBFUSCATION_KEY;
    let esi = (masked >> 8) << 24;
    let edx = (masked >> 8) & 0x00FF0000;
    let dh = (masked << 8) & 0x0000FF00;
    let dl = (masked >> 16) & 0x000000FF;
    let raw = esi | edx | dh | dl;
    proof {
        assert(((masked >> 8) << 24) | ((masked >> 8) & 0x00FF0000) | ((masked << 8)
            & 0x0000FF00) | ((masked >> 16) & 0x000000FF) == spec_unpermute(masked)) by (bit_vector);
    }
    CheatCodes::from_bits_truncate(raw)
}

/// The byte permutation is lossless: inverting it recovers every 32-bit
/// value exactly, so encoding collides no two masks.
pub proof fn lemma_permute_inverse(x: u32)
    ensures
        spec_unpermute(spec_permute(x)) == x,
{
    assert(spec_unpermute(spec_permute(x)) == x) by (bit_vector);
}

/// XORing with the key is an involution: applying it twice gives the
/// permuted value back unchanged.
pub proof fn lemma_key_involution(p: u32)
    ensures
        (p ^ OBFUSCATION_KEY) ^ OBFUSCATION_KEY == p,
{
    assert((p ^ OBFUSCATION_KEY) ^ OBFUSCATION_KEY == p) by (bit_vector);
}

/// Round trip: decoding an encoded mask gives the mask back, for every
/// value that carries named bits only. (A mask with a bit in 26..=31 set
/// still permutes losslessly, but decoding drops that bit.)
pub proof fn lemma_round_trip(f: u32)
    requires
        f & ALL_CHEATS == f,
    ensures
        spec_decrypt(spec_encrypt(f)) == f,
{
    assert(spec_unpermute((spec_permute(f) ^ OBFUSCATION_KEY) ^ OBFUSCATION_KEY) & ALL_CHEATS
        == f) by (bit_vector)
        requires
            f & ALL_CHEATS == f,
    ;
}

/// Byte-permutation exactness: each output byte of the permutation equals
/// one fixed input byte, per the mapping documented on [`spec_permute`].
pub proof fn lemma_permute_bytes(x: u32)
    ensures
        spec_permute(x) & 0xFF == (x >> 8) & 0xFF,
        (spec_permute(x) >> 8) & 0xFF == (x >> 24) & 0xFF,
        (spec_permute(x) >> 16) & 0xFF == x & 0xFF,
        (spec_permute(x) >> 24) & 0xFF == (x >> 16) & 0xFF,
{
    assert(spec_permute(x) & 0xFF == (x >> 8) & 0xFF && (spec_permute(x) >> 8) & 0xFF == (x
        >> 24) & 0xFF && (spec_permute(x) >> 16) & 0xFF == x & 0xFF && (spec_permute(x) >> 24)
        & 0xFF == (x >> 16) & 0xFF) by (bit_vector);
}

/// Where input bit `j` lands under the byte permutation: bits travel with
/// their byte, so the destination is `j` shifted by whole bytes.
pub open spec fn spec_bit_dest(j: u32) -> u32 {
    if j < 8 {
        (j + 16) as u32
    } else if j < 16 {
        (j - 8) as u32
    } else if j < 24 {
        (j + 8) as u32
    } else {
        (j - 16) as u32
    }
}

/// Bit independence: flipping any single input bit flips exactly one output
/// bit of the permutation, the one at [`spec_bit_dest`], and no other.
pub proof fn lemma_bit_independence(x: u32, j: u32)
    requires
        j < 32,
    ensures
        spec_permute(x ^ (1u32 << j)) == spec_permute(x) ^ (1u32 << spec_bit_dest(j)),
{
    assert(spec_permute(x ^ (1u32 << j)) == spec_permute(x) ^ (1u32 << spec_bit_dest(
        j))) by (bit_vector)
        requires
            j < 32u32,
    ;
}

} // verus!
