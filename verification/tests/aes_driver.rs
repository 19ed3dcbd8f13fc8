//! AES accelerator driver: keys, control words and poll decisions.

use stm32wl_hal::aes::{encrypt_ecb_poll, Aes, EcbPoll, Error, Key, Key128, Key256, Mode};

#[test]
fn key128_from_u128_matches_from_u32() {
    let a = Key128::from_u128(0xAAAAAAAA_BBBBBBBB_CCCCCCCC_DDDDDDDD);
    let b = Key128::from_u32([0xAAAAAAAA, 0xBBBBBBBB, 0xCCCCCCCC, 0xDDDDDDDD]);
    assert_eq!(a, b);
}

#[test]
fn key_words_come_out_most_significant_first() {
    let k = Key::K128(Key128::from_u128(0x00010203_04050607_08090A0B_0C0D0E0F));
    assert_eq!(k.key(), &[0x00010203, 0x04050607, 0x08090A0B, 0x0C0D0E0F]);
    let k = Key::K256(Key256::from_u32([1, 2, 3, 4, 5, 6, 7, 8]));
    assert_eq!(k.key(), &[1, 2, 3, 4, 5, 6, 7, 8]);
}

#[test]
fn key_wrapping_conversions() {
    let k128 = Key128::from_u128(7);
    assert!(matches!(Key::from(k128), Key::K128(k) if k == k128));
    let k256 = Key256::from_u32([9; 8]);
    assert!(matches!(Key::from(k256), Key::K256(k) if k == k256));
}

#[test]
fn keysize_selects_256_bit() {
    assert!(!Key::K128(Key128::from_u128(0)).keysize());
    assert!(Key::K256(Key256::from_u32([0; 8])).keysize());
}

#[test]
fn mode_encodings() {
    assert_eq!(Mode::Encryption.bits(), 0b00);
    assert_eq!(Mode::KeyDerivation.bits(), 0b01);
    assert_eq!(Mode::Decryption.bits(), 0b10);
}

#[test]
fn new_models_reset() {
    let aes = Aes::new();
    assert_eq!(aes.cr, 0);
    aes.free();
}

#[test]
fn ecb_encrypt_control_word() {
    // enable, ECB chaining, encryption mode, both flag clears, both
    // interrupt enables and both DMA enables; key size in bit 18
    let mut aes = Aes::new();
    let k128 = Key::K128(Key128::from_u128(0));
    assert_eq!(aes.start_encrypt_ecb(&k128), 0x1F81);
    assert_eq!(aes.cr, 0x1F81);
    let k256 = Key::K256(Key256::from_u32([0; 8]));
    assert_eq!(aes.start_encrypt_ecb(&k256), 0x41F81);
    assert_eq!(aes.cr, 0x41F81);
}

#[test]
fn poll_decisions_by_flag() {
    assert_eq!(encrypt_ecb_poll(0b000), EcbPoll::Pending);
    assert_eq!(encrypt_ecb_poll(0b001), EcbPoll::Complete);
    assert_eq!(encrypt_ecb_poll(0b010), EcbPoll::Failed(Error::Read));
    assert_eq!(encrypt_ecb_poll(0b100), EcbPoll::Failed(Error::Write));
    // the busy flag alone keeps the loop polling
    assert_eq!(encrypt_ecb_poll(0b1000), EcbPoll::Pending);
}

#[test]
fn poll_faults_take_priority_over_completion() {
    // a write fault outranks a read fault, and both outrank completion
    assert_eq!(encrypt_ecb_poll(0b110), EcbPoll::Failed(Error::Write));
    assert_eq!(encrypt_ecb_poll(0b101), EcbPoll::Failed(Error::Write));
    assert_eq!(encrypt_ecb_poll(0b011), EcbPoll::Failed(Error::Read));
    assert_eq!(encrypt_ecb_poll(0b111), EcbPoll::Failed(Error::Write));
}
