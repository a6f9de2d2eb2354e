//! Decryption of encrypted course files: a per-file 128-bit key is derived
//! from a seed embedded in the file trailer, then the body is decrypted with
//! AES-128 in cipher-block-chaining mode without padding.

pub mod keys;
pub mod rand;

use vstd::prelude::*;

use crate::course_decryptor::keys::COURSE_KEY_TABLE;
use crate::course_decryptor::rand::{rng_next, rng_step, rng_steps, Random};
use crate::cursor::{le_u32, le_u32_at};

verus! {

/// Decryption failed because the ciphertext body is not a whole number of
/// cipher blocks.
#[derive(Debug, PartialEq, Eq)]
pub enum DecryptError {
    MalformedLength,
}

/// One byte of key material, drawn with two generator outputs: the first
/// selects a table entry, the second selects which of its bytes to keep.
pub open spec fn key_byte(table: Seq<u32>, s: Seq<u32>) -> u32 {
    (table[(rng_next(s) >> 26u32) as int] >> ((rng_next(rng_step(s)) >> 27u32) & 24)) & 0xff
}

/// Accumulator after folding `n` more key bytes into `slot`, starting from
/// generator state `s`.
pub open spec fn key_word_rounds(table: Seq<u32>, s: Seq<u32>, slot: u32, n: nat) -> u32
    decreases n,
{
    if n == 0 {
        slot
    } else {
        key_word_rounds(table, rng_steps(s, 2), (slot << 8u32) | key_byte(table, s), (n - 1) as nat)
    }
}

/// One 32-bit word of the derived key: four key bytes folded into an
/// initially zero accumulator.
pub open spec fn key_word(table: Seq<u32>, s: Seq<u32>) -> u32 {
    key_word_rounds(table, s, 0, 4)
}

fn gen_word(key_table: &[u32], rand_state: &mut Random) -> (out: u32)
    requires
        key_table@.len() >= 64,
    ensures
        out == key_word(key_table@, old(rand_state)@),
        final(rand_state)@ == rng_steps(old(rand_state)@, 8),
{
    let ghost s0 = rand_state@;
    let mut slot: u32 = 0;
    for round in 0..4usize
        invariant
            key_table@.len() >= 64,
            rand_state@ == rng_steps(s0, 2 * round as nat),
            key_word(key_table@, s0) == key_word_rounds(
                key_table@,
                rand_state@,
                slot,
                (4 - round) as nat,
            ),
    {
        let ghost s_round = rand_state@;
        let r1 = rand_state.gen();
        let r2 = rand_state.gen();
        proof {
            lemma_rng_steps_add(s0, 2 * round as nat, 2);
            reveal_with_fuel(rng_steps, 3);
            assert(rng_steps(s_round, 2) == rng_step(rng_step(s_round)));
            assert((r1 >> 26u32) < 64) by (bit_vector);
            assert(((r2 >> 27u32) & 24) < 32) by (bit_vector);
        }
        let idx: usize = (r1 >> 26u32) as usize;
        let shift: u32 = (r2 >> 27u32) & 24;
        slot = (slot << 8u32) | ((key_table[idx] >> shift) & 0xff);
    }
    slot
}

/// Derives the four words of a cipher key from the generator stream: for each
/// word, four rounds shift the accumulator left a byte and fold in one table
/// byte picked by two generator outputs.
pub fn gen_key(key_table: &[u32], rand_state: &mut Random) -> (out: [u32; 4])
    requires
        key_table@.len() >= 64,
    ensures
        out@ == derived_key(key_table@, old(rand_state)@),
        final(rand_state)@ == rng_steps(old(rand_state)@, 32),
{
    let ghost s0 = rand_state@;
    let w0 = gen_word(key_table, rand_state);
    let w1 = gen_word(key_table, rand_state);
    let w2 = gen_word(key_table, rand_state);
    let w3 = gen_word(key_table, rand_state);
    proof {
        lemma_rng_steps_add(s0, 8, 8);
        lemma_rng_steps_add(s0, 16, 8);
        lemma_rng_steps_add(s0, 24, 8);
        assert(seq![w0, w1, w2, w3] =~= derived_key(key_table@, s0));
    }
    [w0, w1, w2, w3]
}

/// The full 128-bit derived key, as four 32-bit words.
pub open spec fn derived_key(table: Seq<u32>, s: Seq<u32>) -> Seq<u32> {
    seq![
        key_word(table, s),
        key_word(table, rng_steps(s, 8)),
        key_word(table, rng_steps(s, 16)),
        key_word(table, rng_steps(s, 24)),
    ]
}

/// Stepping the generator `a + b` times is stepping it `a` times, then `b`
/// more.
pub proof fn lemma_rng_steps_add(s: Seq<u32>, a: nat, b: nat)
    ensures
        rng_steps(s, a + b) == rng_steps(rng_steps(s, a), b),
    decreases b,
{
    if b > 0 {
        lemma_rng_steps_add(s, a, (b - 1) as nat);
    }
}

/// The derived key is a function of the table and the seed alone: equal
/// inputs give an identical 128-bit key.
pub proof fn lemma_derive_deterministic(table: Seq<u32>, s1: Seq<u32>, s2: Seq<u32>)
    requires
        s1 =~= s2,
    ensures
        derived_key(table, s1) == derived_key(table, s2),
{
}

/// The little-endian bytes of one 32-bit word.
pub open spec fn u32_le_bytes(w: u32) -> Seq<u8> {
    seq![
        (w % 0x100) as u8,
        ((w / 0x100) % 0x100) as u8,
        ((w / 0x10000) % 0x100) as u8,
        (w / 0x1000000) as u8,
    ]
}

/// The 16 little-endian bytes of a 4-word key.
pub open spec fn words_le_bytes(ws: Seq<u32>) -> Seq<u8>
    recommends
        ws.len() == 4,
{
    u32_le_bytes(ws[0]) + u32_le_bytes(ws[1]) + u32_le_bytes(ws[2]) + u32_le_bytes(ws[3])
}

fn push_u32_le(v: &mut Vec<u8>, w: u32)
    ensures
        final(v)@ == old(v)@ + u32_le_bytes(w),
{
    v.push((w % 0x100) as u8);
    v.push(((w / 0x100) % 0x100) as u8);
    v.push(((w / 0x10000) % 0x100) as u8);
    v.push((w / 0x1000000) as u8);
    proof {
        assert(v@ =~= old(v)@ + u32_le_bytes(w));
    }
}

/// The plaintext that AES-128 decryption in cipher-block-chaining mode, with
/// no padding removal, yields for the given key, initialization vector and
/// ciphertext.
pub uninterp spec fn aes128_cbc_dec_of(key: Seq<u8>, iv: Seq<u8>, data: Seq<u8>) -> Seq<u8>;

/// Relies on cbc::Decryptor<aes::Aes128Dec> with block_padding::NoPadding:
/// for a body that is a whole number of 16-byte blocks, decryption succeeds
/// and the plaintext is exactly as long as the ciphertext.
#[verifier::external_body]
fn aes128_cbc_decrypt(key: &[u8], iv: &[u8], data: &[u8]) -> (r: Vec<u8>)
    requires
        key@.len() == 16,
        iv@.len() == 16,
        data@.len() % 16 == 0,
    ensures
        r@ == aes128_cbc_dec_of(key@, iv@, data@),
        r@.len() == data@.len(),
{
    let decryptor: cbc::Decryptor<aes::Aes128Dec> =
        <cbc::Decryptor<aes::Aes128Dec> as cbc::cipher::KeyIvInit>::new_from_slices(key, iv)
            .unwrap();
    cbc::cipher::BlockDecryptMut::decrypt_padded_vec_mut::<aes::cipher::block_padding::NoPadding>(
        decryptor,
        data,
    )
    .unwrap()
}

/// The key seed embedded in the trailer: four little-endian words starting
/// 0x20 bytes before the end.
pub open spec fn seed_words_of(d: Seq<u8>) -> Seq<u32>
    recommends
        d.len() >= 0x40,
{
    let t = d.len() - 0x20;
    seq![le_u32(d, t), le_u32(d, t + 4), le_u32(d, t + 8), le_u32(d, t + 12)]
}

/// The 16 cipher-key bytes a file's trailer seed derives.
pub open spec fn file_key_bytes(d: Seq<u8>) -> Seq<u8>
    recommends
        d.len() >= 0x40,
{
    words_le_bytes(derived_key(COURSE_KEY_TABLE@, seed_words_of(d)))
}

/// The plaintext of a whole course file: its body (after the fixed 16-byte
/// prefix, before the 0x30-byte trailer) decrypted under the key derived from
/// the trailer seed, with the trailer's leading 16 bytes as initialization
/// vector.
pub open spec fn decrypted_course_body(d: Seq<u8>) -> Seq<u8>
    recommends
        d.len() >= 0x40,
{
    aes128_cbc_dec_of(
        file_key_bytes(d),
        d.subrange(d.len() - 0x30, d.len() - 0x20),
        d.subrange(0x10, d.len() - 0x30),
    )
}

/// Strips the fixed prefix and trailer, derives the cipher key from the seed
/// in the trailer, and decrypts the body: the result is exactly the body's
/// length, with no padding removed. A body that is not a whole number of
/// cipher blocks is rejected.
pub fn decrypt_course_data(input: &[u8]) -> (r: Result<Vec<u8>, DecryptError>)
    requires
        input@.len() >= 0x40,
    ensures
        r is Ok <==> (input@.len() - 0x40) % 16 == 0,
        r matches Ok(out) ==> out@ == decrypted_course_body(input@) && out@.len() == input@.len()
            - 0x40,
        r matches Err(e) ==> e == DecryptError::MalformedLength,
{
    let len = input.len();
    if (len - 0x40) % 16 != 0 {
        return Err(DecryptError::MalformedLength);
    }
    let body = vstd::slice::slice_subrange(input, 0x10, len - 0x30);
    let iv = vstd::slice::slice_subrange(input, len - 0x30, len - 0x20);
    let s0 = le_u32_at(input, len - 0x20);
    let s1 = le_u32_at(input, len - 0x1c);
    let s2 = le_u32_at(input, len - 0x18);
    let s3 = le_u32_at(input, len - 0x14);
    let mut rng = Random::new([s0, s1, s2, s3]);
    proof {
        assert(rng@ =~= seed_words_of(input@));
    }
    let key_words = gen_key(COURSE_KEY_TABLE.as_slice(), &mut rng);
    let mut key_bytes: Vec<u8> = Vec::new();
    push_u32_le(&mut key_bytes, key_words[0]);
    push_u32_le(&mut key_bytes, key_words[1]);
    push_u32_le(&mut key_bytes, key_words[2]);
    push_u32_le(&mut key_bytes, key_words[3]);
    proof {
        assert(key_bytes@ =~= file_key_bytes(input@));
    }
    Ok(aes128_cbc_decrypt(key_bytes.as_slice(), iv, body))
}

} // verus!
