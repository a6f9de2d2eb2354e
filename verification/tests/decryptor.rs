use aes::cipher::block_padding::NoPadding;
use cbc::cipher::{BlockEncryptMut, KeyIvInit};

use smm2_stats::course_decryptor::keys::COURSE_KEY_TABLE;
use smm2_stats::course_decryptor::rand::Random;
use smm2_stats::course_decryptor::{decrypt_course_data, gen_key, DecryptError};

fn key_bytes_for_seed(seed: [u32; 4]) -> Vec<u8> {
    let mut rng = Random::new(seed);
    let words = gen_key(&COURSE_KEY_TABLE, &mut rng);
    let mut key = Vec::new();
    for w in words.iter() {
        key.extend_from_slice(&w.to_le_bytes());
    }
    key
}

fn build_file(body: &[u8], iv: &[u8; 16], seed: [u32; 4]) -> Vec<u8> {
    let key = key_bytes_for_seed(seed);
    let enc: cbc::Encryptor<aes::Aes128Enc> =
        KeyIvInit::new_from_slices(&key, iv).unwrap();
    let ciphertext = enc.encrypt_padded_vec_mut::<NoPadding>(body);
    let mut file = vec![0u8; 16];
    file.extend_from_slice(&ciphertext);
    file.extend_from_slice(iv);
    for w in seed.iter() {
        file.extend_from_slice(&w.to_le_bytes());
    }
    file.extend_from_slice(&[0u8; 16]);
    file
}

#[test]
fn derive_is_deterministic() {
    let seed = [0xdead_beef, 0x1234_5678, 0x9abc_def0, 0x0f0f_0f0f];
    let mut a = Random::new(seed);
    let mut b = Random::new(seed);
    let ka = gen_key(&COURSE_KEY_TABLE, &mut a);
    let kb = gen_key(&COURSE_KEY_TABLE, &mut b);
    assert_eq!(ka, kb);
}

#[test]
fn derive_golden_words() {
    let mut rng = Random::new([0x11111111, 0x22222222, 0x33333333, 0x44444444]);
    let key = gen_key(&COURSE_KEY_TABLE, &mut rng);
    assert_eq!(key, [0x425416d7, 0x6532d7d2, 0xf39aca5c, 0xa9583a8e]);
}

#[test]
fn decrypt_round_trips_encryption() {
    let body: Vec<u8> = (0u8..64).collect();
    let iv = [0xa5u8; 16];
    let seed = [0x11111111, 0x22222222, 0x33333333, 0x44444444];
    let file = build_file(&body, &iv, seed);
    let out = decrypt_course_data(&file).unwrap();
    assert_eq!(out, body);
}

#[test]
fn decrypt_output_is_body_length() {
    let body = vec![7u8; 160];
    let iv = [1u8; 16];
    let seed = [5, 6, 7, 8];
    let file = build_file(&body, &iv, seed);
    let out = decrypt_course_data(&file).unwrap();
    assert_eq!(out.len(), file.len() - 0x40);
    assert_eq!(out, body);
}

#[test]
fn decrypt_rejects_misaligned_body() {
    // 0x40 bytes of envelope plus a 15-byte body: not a whole block
    let file = vec![0u8; 0x40 + 15];
    match decrypt_course_data(&file) {
        Err(DecryptError::MalformedLength) => {}
        _ => panic!("expected MalformedLength"),
    }
}

#[test]
fn decrypt_accepts_empty_body() {
    let iv = [9u8; 16];
    let seed = [1, 2, 3, 4];
    let file = build_file(&[], &iv, seed);
    assert_eq!(file.len(), 0x40);
    let out = decrypt_course_data(&file).unwrap();
    assert!(out.is_empty());
}
