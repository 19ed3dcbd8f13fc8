//! Driver logic for the STM32WL analog-to-digital converter and AES
//! hardware accelerator.
//!
//! The modules here hold everything about the two peripherals that can be
//! stated and checked away from the silicon: the exact rational arithmetic
//! used for clock and sensor computations, the bit-exact register encodings,
//! the enable/disable/calibrate state machine, and the conversion of raw
//! samples into physical values. Memory-mapped register access itself is
//! left to the embedding, which drives it through the peripheral access
//! crate; every word it writes and every decision it takes on a word it has
//! read comes from a function in this crate.

pub mod adc;
pub mod aes;
pub mod channel;
pub mod clock;
pub mod irq;
pub mod ratio;
pub mod sample;
pub mod sensor;
