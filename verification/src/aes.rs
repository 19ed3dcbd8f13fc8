//! AES hardware accelerator driver.
//!
//! The accelerator is configured through a single control word and fed
//! through data registers; completion and faults are reported in a status
//! register. Everything the driver decides — the exact control word for an
//! operation, the order of the key words, and what each status read means
//! for the poll loop — is computed and specified here. The embedding
//! writes the words to the registers, feeds the data in, polls the status
//! register and reads the result out.

use vstd::prelude::*;

verus! {

/// Algorithm modes of the accelerator.
#[derive(Debug, PartialEq, Eq, Clone, Copy)]
pub(crate) enum Algorithm {
    /// Electronic codebook chaining algorithm.
    Ecb,
    /// Cipher block chaining algorithm.
    Cbc,
    /// Counter mode chaining algorithm.
    Ctr,
    /// Galois counter mode - Galois message authentication code.
    Gcm,
    /// Counter with cipher mode.
    Ccm,
}

impl Algorithm {
    /// The high chaining-mode selector (bit 16 of the control register).
    pub(crate) open spec fn chmod2_spec(self) -> bool {
        match self {
            Algorithm::Ccm => true,
            _ => false,
        }
    }

    /// The low chaining-mode selector (bits 6:5 of the control register).
    pub(crate) open spec fn chmod10_spec(self) -> u32 {
        match self {
            Algorithm::Ecb => 0,
            Algorithm::Cbc => 1,
            Algorithm::Ctr => 2,
            Algorithm::Gcm => 3,
            Algorithm::Ccm => 0,
        }
    }

    /// The high chaining-mode selector bit.
    pub(crate) fn chmod2(&self) -> (r: bool)
        ensures
            r == self.chmod2_spec(),
    {
        match self {
            Algorithm::Ccm => true,
            _ => false,
        }
    }

    /// The low chaining-mode selector field.
    pub(crate) fn chmod10(&self) -> (r: u8)
        ensures
            r as u32 == self.chmod10_spec(),
    {
        match self {
            Algorithm::Ecb => 0b00,
            Algorithm::Cbc => 0b01,
            Algorithm::Ctr => 0b10,
            Algorithm::Gcm => 0b11,
            Algorithm::Ccm => 0b00,
        }
    }
}

/// 128-bit AES key.
#[derive(Debug, PartialEq, Eq, Clone, Copy, Hash)]
pub struct Key128 {
    key: [u32; 4],
}

impl Key128 {
    /// The four key words, most significant first: the native key format
    /// of the hardware.
    pub closed spec fn words(self) -> Seq<u32> {
        self.key@
    }

    /// Create a new 128-bit key from a `u128`.
    pub fn from_u128(key: u128) -> (r: Key128)
        ensures
            r.words() == seq![
                (key >> 96) as u32,
                (key >> 64) as u32,
                (key >> 32) as u32,
                key as u32,
            ],
    {
        Key128 {
            key: [
                #[verifier::truncate]
                ((key >> 96) as u32),
                #[verifier::truncate]
                ((key >> 64) as u32),
                #[verifier::truncate]
                ((key >> 32) as u32),
                #[verifier::truncate]
                (key as u32),
            ],
        }
    }

    /// Create a new 128-bit key from 4 dwords, most significant first.
    ///
    /// This is the native key format of the hardware.
    pub fn from_u32(key: [u32; 4]) -> (r: Key128)
        ensures
            r.words() == key@,
    {
        Key128 { key }
    }
}

/// 256-bit AES key.
#[derive(Debug, PartialEq, Eq, Clone, Copy, Hash)]
pub struct Key256 {
    key: [u32; 8],
}

impl Key256 {
    /// The eight key words, most significant first: the native key format
    /// of the hardware.
    pub closed spec fn words(self) -> Seq<u32> {
        self.key@
    }

    /// Create a new 256-bit key from 8 dwords, most significant first.
    ///
    /// This is the native key format of the hardware.
    pub fn from_u32(key: [u32; 8]) -> (r: Key256)
        ensures
            r.words() == key@,
    {
        Key256 { key }
    }
}

/// AES key sizes.
pub enum Key {
    /// 128-bit key.
    K128(Key128),
    /// 256-bit key.
    K256(Key256),
}

impl Key {
    /// The key-size selector bit of the control register: set for a
    /// 256-bit key.
    pub open spec fn keysize_spec(self) -> bool {
        match self {
            Key::K128(_) => false,
            Key::K256(_) => true,
        }
    }

    /// The key words, most significant first: four for a 128-bit key,
    /// eight for a 256-bit key.
    pub open spec fn words_spec(self) -> Seq<u32> {
        match self {
            Key::K128(k) => k.words(),
            Key::K256(k) => k.words(),
        }
    }

    /// The key-size selector bit of the control register.
    pub fn keysize(&self) -> (r: bool)
        ensures
            r == self.keysize_spec(),
    {
        match self {
            Key::K128(_) => false,
            Key::K256(_) => true,
        }
    }

    /// The key words in the order the key registers take them.
    pub fn key(&self) -> (r: &[u32])
        ensures
            r@ == self.words_spec(),
    {
        match self {
            Key::K128(k) => k.key.as_slice(),
            Key::K256(k) => k.key.as_slice(),
        }
    }
}

impl From<Key128> for Key {
    /// Wrap a 128-bit key.
    fn from(k: Key128) -> (r: Key) {
        Key::K128(k)
    }
}

impl vstd::std_specs::convert::FromSpecImpl<Key128> for Key {
    open spec fn obeys_from_spec() -> bool {
        true
    }

    open spec fn from_spec(k: Key128) -> Key {
        Key::K128(k)
    }
}

impl From<Key256> for Key {
    /// Wrap a 256-bit key.
    fn from(k: Key256) -> (r: Key) {
        Key::K256(k)
    }
}

impl vstd::std_specs::convert::FromSpecImpl<Key256> for Key {
    open spec fn obeys_from_spec() -> bool {
        true
    }

    open spec fn from_spec(k: Key256) -> Key {
        Key::K256(k)
    }
}

/// Operating modes of the accelerator (bits 4:3 of the control register).
pub enum Mode {
    /// Encryption.
    Encryption,
    /// Key derivation.
    KeyDerivation,
    /// Decryption.
    Decryption,
}

impl Mode {
    /// The mode field encoding.
    pub open spec fn bits_spec(self) -> u32 {
        match self {
            Mode::Encryption => 0,
            Mode::KeyDerivation => 1,
            Mode::Decryption => 2,
        }
    }

    /// The mode field encoding, as written to the control register.
    pub fn bits(self) -> (r: u8)
        ensures
            r as u32 == self.bits_spec(),
    {
        match self {
            Mode::Encryption => 0b00,
            Mode::KeyDerivation => 0b01,
            Mode::Decryption => 0b10,
        }
    }
}

/// AES errors.
#[derive(Debug, PartialEq, Eq, Clone, Copy)]
#[non_exhaustive]
pub enum Error {
    /// Unexpected read operation from the data-output register during
    /// computation or data input phase.
    Read,
    /// Unexpected write operation to the data-input register during
    /// computation or data output phase.
    Write,
}

/// The control word the driver writes to start an operation: enable
/// (bit 0), data type 0 (bits 2:1), the mode (bits 4:3), the low
/// chaining-mode selector (bits 6:5), both flag clears and both interrupt
/// enables (bits 7 to 10), both DMA enables (bits 11 and 12), GCM phase 0
/// (bits 14:13), the high chaining-mode selector (bit 16), the key size
/// (bit 18) and no padding (bits 23:20).
pub open spec fn aes_cr_word_spec(mode: u32, chmod10: u32, chmod2: bool, keysize: bool) -> u32 {
    1u32 | (mode << 3) | (chmod10 << 5) | 0x1F80u32 | (if chmod2 {
        0x10000u32
    } else {
        0u32
    }) | (if keysize {
        0x40000u32
    } else {
        0u32
    })
}

/// Build the control word for an operation.
pub(crate) fn aes_cr_word(mode: u8, chmod10: u8, chmod2: bool, keysize: bool) -> (r: u32)
    requires
        mode < 4,
        chmod10 < 4,
    ensures
        r == aes_cr_word_spec(mode as u32, chmod10 as u32, chmod2, keysize),
{
    1u32 | ((mode as u32) << 3) | ((chmod10 as u32) << 5) | 0x1F80u32 | (if chmod2 {
        0x10000u32
    } else {
        0u32
    }) | (if keysize {
        0x40000u32
    } else {
        0u32
    })
}

/// What one status-register read means for the poll loop of an
/// electronic-codebook operation: a write fault and a read fault abort, in
/// that order of priority; the computation-complete flag ends the loop;
/// anything else keeps polling.
#[derive(Debug, PartialEq, Eq, Clone, Copy)]
pub enum EcbPoll {
    /// No flag set yet: keep polling.
    Pending,
    /// Computation complete: the ciphertext is readable.
    Complete,
    /// A fault flag is set: abort with this error.
    Failed(Error),
}

/// The decision [`encrypt_ecb_poll`] takes on a status word: the write
/// error flag is bit 2, the read error flag bit 1, and the
/// computation-complete flag bit 0.
pub open spec fn ecb_poll_spec(sr: u32) -> EcbPoll {
    if sr & 0x4u32 != 0 {
        EcbPoll::Failed(Error::Write)
    } else if sr & 0x2u32 != 0 {
        EcbPoll::Failed(Error::Read)
    } else if sr & 0x1u32 != 0 {
        EcbPoll::Complete
    } else {
        EcbPoll::Pending
    }
}

/// Decide what a freshly read status word means for the poll loop.
pub fn encrypt_ecb_poll(sr: u32) -> (r: EcbPoll)
    ensures
        r == ecb_poll_spec(sr),
{
    if sr & 0x4u32 != 0 {
        EcbPoll::Failed(Error::Write)
    } else if sr & 0x2u32 != 0 {
        EcbPoll::Failed(Error::Read)
    } else if sr & 0x1u32 != 0 {
        EcbPoll::Complete
    } else {
        EcbPoll::Pending
    }
}

/// AES driver: the driver's model of the accelerator's control register.
pub struct Aes {
    /// Control register, as last written.
    pub cr: u32,
}

impl Aes {
    /// Create a new AES driver.
    ///
    /// This models the reset the driver pulses on creation: the control
    /// register is at its reset value. Enabling the peripheral's bus
    /// clock is the embedding's to do.
    pub fn new() -> (r: Aes)
        ensures
            r.cr == 0,
    {
        Aes { cr: 0 }
    }

    /// Release the peripheral from the driver: ownership of the register
    /// interface passes back to the embedding.
    pub fn free(self) {
    }

    /// Configure the accelerator for one encryption with the electronic
    /// codebook chaining (ECB) algorithm and return the control word.
    ///
    /// The embedding writes the word to the control register, then the
    /// key words ([`Key::key`]) to the key registers in order, then the
    /// four plaintext words to the data-input register, then polls the
    /// status register with [`encrypt_ecb_poll`] and finally reads the
    /// four ciphertext words from the data-output register.
    pub fn start_encrypt_ecb(&mut self, key: &Key) -> (w: u32)
        ensures
            w == aes_cr_word_spec(0, 0, false, key.keysize_spec()),
            w == if key.keysize_spec() {
                0x41F81u32
            } else {
                0x1F81u32
            },
            final(self).cr == w,
    {
        let chmod2: bool = Algorithm::Ecb.chmod2();
        let chmod10: u8 = Algorithm::Ecb.chmod10();
        let mode: u8 = Mode::Encryption.bits();
        let w: u32 = aes_cr_word(mode, chmod10, chmod2, key.keysize());
        proof {
            assert(aes_cr_word_spec(0, 0, false, false) == 0x1F81u32 && aes_cr_word_spec(
                0,
                0,
                false,
                true,
            ) == 0x41F81u32) by (bit_vector);
        }
        self.cr = w;
        w
    }
}

} // verus!
