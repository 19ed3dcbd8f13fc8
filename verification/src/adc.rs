//! Analog-to-digital converter driver.
//!
//! [`Adc`] is the driver's model of the peripheral: it tracks the register
//! state the driver owns, field by field, exactly as the hardware protocol
//! defines it. Every operation performs the same register transactions as
//! the driver performs on the silicon, and the state after a call is the
//! state the driver observes when the call's internal busy-waits have
//! completed: a flag a transaction awaits is recorded as set, a request bit
//! the hardware consumes is recorded as cleared. Requests whose completion
//! is asynchronous (the disable request) stay pending in the model, just as
//! they read back on the hardware until it finishes them.
//!
//! An embedding mirrors each operation onto the memory-mapped registers:
//! it writes the words this model computes, runs the busy-waits by polling
//! the status register with [`crate::irq::flag_set`], and feeds values only
//! the silicon knows (conversion results, the calibration factor, the
//! factory calibration constants) in as arguments.

use vstd::prelude::*;

use crate::channel::{lemma_channel_mask_valid, Ch, CH_MASK};
use crate::clock::{clock_hz_spec, resolve_clock_hz, CkMode, Clk, RccClocks};
use crate::irq;
use crate::ratio::Ratio;
use crate::sample::{smpr_word, smpr_word_spec, Ts};
use crate::sensor::{signed_sub16, temperature_from_sample, temperature_numer_spec};

verus! {

/// Temperature sensor minimum sampling time, in microseconds.
pub const TS_MIN_SAMPLE_MICROS: u32 = 5;

/// Temperature sensor typical startup time, in microseconds.
pub const TS_START_TYP_MICROS: u32 = 70;

/// Temperature sensor maximum startup time, in microseconds.
pub const TS_START_MAX_MICROS: u32 = 120;

/// ADC voltage regulator maximum startup time, in microseconds. After
/// requesting the regulator the caller must wait this long before its
/// output is valid.
pub const T_ADCVREG_SETUP_MICROS: u8 = 20;

/// The control-register bits of the peripheral, as the driver's protocol
/// leaves them. The enable, disable-request, start-conversion and
/// calibration-start bits are request bits the hardware consumes; the
/// model records each by its effect. The regulator-enable bit is plain
/// read-write.
#[derive(Debug, PartialEq, Eq, Clone, Copy)]
pub struct Cr {
    /// Enable bit: set by the enable request, cleared by the hardware when
    /// a disable completes.
    pub aden: bool,
    /// Disable-request bit: cleared by the hardware when the disable
    /// completes.
    pub addis: bool,
    /// Start-conversion bit: cleared by the hardware when the single-shot
    /// conversion ends.
    pub adstart: bool,
    /// Voltage-regulator enable bit.
    pub advregen: bool,
    /// Calibration-start bit: cleared by the hardware when calibration
    /// completes.
    pub adcal: bool,
}

/// The common-configuration register: internal-source enables and the
/// clock prescaler field.
#[derive(Debug, PartialEq, Eq, Clone, Copy)]
pub struct CommonCfg {
    /// Temperature sensor enable.
    pub tsen: bool,
    /// Internal voltage reference enable.
    pub vrefen: bool,
    /// Battery voltage divider enable.
    pub vbaten: bool,
    /// Prescaler field for the asynchronous clock (4 bits; encodings 12 to
    /// 15 are reserved).
    pub presc: u8,
}

/// Analog-to-digital converter driver: the driver's bit-exact model of the
/// peripheral registers it owns.
#[derive(Debug, PartialEq, Eq, Clone, Copy)]
pub struct Adc {
    /// Control register.
    pub cr: Cr,
    /// Status register flags (bit positions of [`crate::irq`]).
    pub isr: u32,
    /// Interrupt-enable register.
    pub ier: u32,
    /// DMA-enable bit of the first configuration register.
    pub dmaen: bool,
    /// Clock-mode field of the second configuration register.
    pub ckmode: CkMode,
    /// Sample-time register (packed two-slot-plus-mask encoding).
    pub smpr: u32,
    /// Channel-selection register (one-hot).
    pub chselr: u32,
    /// Common-configuration register.
    pub ccr: CommonCfg,
}

impl Adc {
    /// Well-formedness: a conversion only runs on an enabled peripheral,
    /// the prescaler field is four bits, and the channel selection never
    /// addresses a reserved channel.
    pub open spec fn inv(self) -> bool {
        &&& self.cr.adstart ==> self.cr.aden
        &&& self.ccr.presc < 16
        &&& self.chselr & !CH_MASK == 0
    }

    /// The peripheral is enabled: the enable bit reads set.
    pub open spec fn enabled_spec(self) -> bool {
        self.cr.aden
    }

    /// The peripheral is fully disabled: neither the enable bit nor a
    /// pending disable request reads set.
    pub open spec fn disabled_spec(self) -> bool {
        !self.cr.aden && !self.cr.addis
    }

    /// Create a new ADC driver with the given clock source selected.
    ///
    /// This models the reset pulse and clock configuration the driver
    /// performs on creation: every register is at its reset value except
    /// the clock-mode field. The embedding also writes the matching
    /// multiplexer selection, [`Clk::adcsel`], into the clock-tree
    /// peripheral; selecting the source does not enable it.
    pub fn new(clk: Clk) -> (r: Adc)
        ensures
            r == (Adc {
                cr: (Cr {
                    aden: false,
                    addis: false,
                    adstart: false,
                    advregen: false,
                    adcal: false,
                }),
                isr: 0,
                ier: 0,
                dmaen: false,
                ckmode: clk.ckmode_spec(),
                smpr: 0,
                chselr: 0,
                ccr: (CommonCfg { tsen: false, vrefen: false, vbaten: false, presc: 0 }),
            }),
            r.inv(),
            r.disabled_spec(),
    {
        proof {
            assert(0u32 & !CH_MASK == 0) by (bit_vector);
        }
        Adc {
            cr: Cr { aden: false, addis: false, adstart: false, advregen: false, adcal: false },
            isr: 0,
            ier: 0,
            dmaen: false,
            ckmode: clk.ckmode(),
            smpr: 0,
            chselr: 0,
            ccr: CommonCfg { tsen: false, vrefen: false, vbaten: false, presc: 0 },
        }
    }

    /// Release the peripheral from the driver: ownership of the register
    /// interface passes back to the embedding.
    pub fn free(self) {
    }

    /// Calculate the ADC clock frequency in hertz from the configured
    /// clock mode, the prescaler field and the reported clock-tree
    /// frequencies.
    ///
    /// If the prescaler field holds a reserved encoding the resolution
    /// falls back to a prescaler of 1 rather than failing; test
    /// [`crate::clock::prescaler_div`] on the field to raise a diagnostic
    /// for that case. Fractional frequencies are truncated towards zero.
    pub fn clock_hz(&self, rcc: &RccClocks) -> (r: u32)
        requires
            self.inv(),
            rcc.wf(),
        ensures
            r == clock_hz_spec(self.ckmode, self.ccr.presc, *rcc),
    {
        resolve_clock_hz(self.ckmode, self.ccr.presc, rcc)
    }

    /// Set sample times for **all** channels.
    ///
    /// For each valid channel, a clear bit in `mask` selects `sel0` and a
    /// set bit selects `sel1`; reserved channel bits of `mask` are
    /// discarded. Sample times may only be reprogrammed while no
    /// conversion is in progress.
    pub fn set_sample_times(&mut self, mask: u32, sel0: Ts, sel1: Ts)
        requires
            old(self).inv(),
            !old(self).cr.adstart,
        ensures
            final(self).inv(),
            *final(self) == (Adc {
                smpr: smpr_word_spec(mask, sel0.num_spec(), sel1.num_spec()),
                ..*old(self)
            }),
    {
        self.smpr = smpr_word(mask, sel0, sel1);
    }

    /// Set all channels to the maximum sample time of 160.5 cycles.
    pub fn set_max_sample_time(&mut self)
        requires
            old(self).inv(),
            !old(self).cr.adstart,
        ensures
            final(self).inv(),
            *final(self) == (Adc { smpr: smpr_word_spec(0, 7, 7), ..*old(self) }),
    {
        self.set_sample_times(0, Ts::Cyc160, Ts::Cyc160);
    }

    /// Returns `true` if the ADC is enabled.
    pub fn is_enabled(&self) -> (r: bool)
        ensures
            r == self.enabled_spec(),
    {
        self.cr.aden
    }

    /// Returns `true` if the ADC is disabled and no disable request is
    /// pending.
    pub fn is_disabled(&self) -> (r: bool)
        ensures
            r == self.disabled_spec(),
    {
        !self.cr.aden && !self.cr.addis
    }

    /// Enable the ADC and wait until it reports ready.
    ///
    /// Enabling an already-enabled peripheral is a no-op: the state is
    /// left exactly as it was, with no second transition. Otherwise the
    /// ready flag is cleared, the enable is requested, and the operation
    /// completes when the hardware raises the ready flag again.
    pub fn enable(&mut self)
        requires
            old(self).inv(),
        ensures
            final(self).inv(),
            final(self).enabled_spec(),
            old(self).cr.aden ==> *final(self) == *old(self),
            !old(self).cr.aden ==> *final(self) == (Adc {
                cr: (Cr { aden: true, ..old(self).cr }),
                isr: old(self).isr | irq::ARDY,
                ..*old(self)
            }),
    {
        if !self.cr.aden {
            // write 1 to the ready flag: write-1-to-clear
            self.isr = self.isr & !irq::ARDY;
            // request enable
            self.cr.aden = true;
            // the busy-wait ends when the hardware raises the ready flag
            self.isr = self.isr | irq::ARDY;
            proof {
                lemma_set_after_clear(old(self).isr, irq::ARDY);
            }
        }
    }

    /// Start the ADC disable procedure.
    ///
    /// A conversion in progress is stopped first: the stop request is
    /// raised and consumed, which also ends the conversion. If the
    /// peripheral is enabled the disable is then requested. The request
    /// completes asynchronously: it stays pending here, exactly as it
    /// reads back on the hardware, and the embedding polls
    /// [`is_disabled`](Adc::is_disabled) against fresh reads. Requesting a
    /// disable on an already-disabled peripheral is a no-op.
    pub fn start_disable(&mut self)
        requires
            old(self).inv(),
        ensures
            final(self).inv(),
            !final(self).cr.adstart,
            *final(self) == (Adc {
                cr: (Cr {
                    adstart: false,
                    addis: old(self).cr.addis || old(self).cr.aden,
                    ..old(self).cr
                }),
                ..*old(self)
            }),
            old(self).disabled_spec() ==> *final(self) == *old(self),
    {
        if self.cr.adstart {
            // request a conversion stop; the hardware consumes the request
            // and clears the start-conversion bit with it
            self.cr.adstart = false;
        }
        // a disable request is only effective while the ADC is enabled and
        // no conversion is ongoing
        if self.cr.aden {
            self.cr.addis = true;
        }
    }

    /// Clear status flags: write-1-to-clear, restricted to the valid flag
    /// bits.
    pub fn set_isr(&mut self, mask: u32)
        ensures
            *final(self) == (Adc { isr: old(self).isr & !(mask & irq::ALL), ..*old(self) }),
    {
        self.isr = self.isr & !(mask & irq::ALL);
    }

    /// Read the status flags.
    pub fn isr(&self) -> (r: u32)
        ensures
            r == self.isr,
    {
        self.isr
    }

    /// Enable and disable interrupts: the interrupt-enable register is
    /// written with the given mask.
    pub fn set_ier(&mut self, mask: u32)
        ensures
            *final(self) == (Adc { ier: mask, ..*old(self) }),
    {
        self.ier = mask;
    }

    /// Select the single active conversion channel and wait for the
    /// sequencer to acknowledge the new configuration.
    fn cfg_ch_seq(&mut self, ch: Ch)
        requires
            old(self).inv(),
        ensures
            final(self).inv(),
            *final(self) == (Adc {
                chselr: ch.mask_spec(),
                isr: old(self).isr | irq::CCRDY,
                ..*old(self)
            }),
    {
        proof {
            lemma_channel_mask_valid(ch);
        }
        self.chselr = ch.mask();
        // the busy-wait ends when the hardware raises the
        // channel-configuration-ready flag
        self.isr = self.isr | irq::CCRDY;
    }

    /// Select a channel, run one conversion on it and return the raw
    /// result.
    ///
    /// `dr` is the conversion result the embedding reads from the data
    /// register once the end-of-conversion flag is observed; the model
    /// returns it unchanged. The end-of-conversion flag is cleared again
    /// on the way out and the hardware clears the start-conversion bit
    /// when the single-shot conversion ends.
    fn sample_channel(&mut self, ch: Ch, dr: u16) -> (r: u16)
        requires
            old(self).inv(),
            old(self).enabled_spec(),
        ensures
            final(self).inv(),
            r == dr,
            *final(self) == (Adc {
                cr: (Cr { adstart: false, ..old(self).cr }),
                isr: (old(self).isr | irq::CCRDY) & !irq::EOC,
                chselr: ch.mask_spec(),
                ..*old(self)
            }),
    {
        self.cfg_ch_seq(ch);
        // request the conversion start
        self.cr.adstart = true;
        // the busy-wait ends when the hardware raises end-of-conversion;
        // the data register is then read and the flag cleared by writing 1
        // to it; the hardware clears the start bit as the conversion ends
        self.cr.adstart = false;
        self.isr = (self.isr | irq::EOC) & !irq::EOC;
        proof {
            lemma_clear_after_set(old(self).isr | irq::CCRDY, irq::EOC);
        }
        dr
    }

    /// Enable the temperature sensor.
    ///
    /// The sensor needs its startup time ([`TS_START_TYP_MICROS`] or
    /// [`TS_START_MAX_MICROS`]) before samples are accurate.
    pub fn enable_tsen(&mut self)
        ensures
            *final(self) == (Adc { ccr: (CommonCfg { tsen: true, ..old(self).ccr }), ..*old(self) }),
    {
        self.ccr.tsen = true;
    }

    /// Disable the temperature sensor.
    pub fn disable_tsen(&mut self)
        ensures
            *final(self) == (Adc { ccr: (CommonCfg { tsen: false, ..old(self).ccr }), ..*old(self) }),
    {
        self.ccr.tsen = false;
    }

    /// Returns `true` if the temperature sensor is enabled.
    pub fn is_tsen_enabled(&mut self) -> (r: bool)
        ensures
            r == final(self).ccr.tsen,
            *final(self) == *old(self),
    {
        self.ccr.tsen
    }

    /// Enable the internal voltage reference.
    pub fn enable_vref(&mut self)
        ensures
            *final(self) == (Adc { ccr: (CommonCfg { vrefen: true, ..old(self).ccr }), ..*old(self) }),
    {
        self.ccr.vrefen = true;
    }

    /// Disable the internal voltage reference.
    pub fn disable_vref(&mut self)
        ensures
            *final(self) == (Adc { ccr: (CommonCfg { vrefen: false, ..old(self).ccr }), ..*old(self) }),
    {
        self.ccr.vrefen = false;
    }

    /// Returns `true` if the internal voltage reference is enabled.
    pub fn is_vref_enabled(&mut self) -> (r: bool)
        ensures
            r == final(self).ccr.vrefen,
            *final(self) == *old(self),
    {
        self.ccr.vrefen
    }

    /// Enable the battery voltage divider.
    ///
    /// To prevent unwanted battery consumption, enable the bridge divider
    /// only when needed for a conversion.
    pub fn enable_vbat(&mut self)
        ensures
            *final(self) == (Adc { ccr: (CommonCfg { vbaten: true, ..old(self).ccr }), ..*old(self) }),
    {
        self.ccr.vbaten = true;
    }

    /// Disable the battery voltage divider.
    pub fn disable_vbat(&mut self)
        ensures
            *final(self) == (Adc { ccr: (CommonCfg { vbaten: false, ..old(self).ccr }), ..*old(self) }),
    {
        self.ccr.vbaten = false;
    }

    /// Returns `true` if the battery voltage divider is enabled.
    pub fn is_vbat_enabled(&self) -> (r: bool)
        ensures
            r == self.ccr.vbaten,
    {
        self.ccr.vbaten
    }

    /// Get the junction temperature from one conversion of the
    /// temperature-sensor channel.
    ///
    /// The peripheral and the temperature sensor must be enabled, and a
    /// sample time of at least [`TS_MIN_SAMPLE_MICROS`] must be
    /// configured. `dr` is the raw sample the embedding reads from the
    /// data register; `calfact` is the calibration factor read from the
    /// calibration-factor register; `cal1` and `cal2` are the factory
    /// calibration constants. The result is the exact interpolated
    /// temperature in degrees Celsius; truncate it with
    /// [`Ratio::to_integer`].
    pub fn temperature(&mut self, dr: u16, calfact: u8, cal1: u16, cal2: u16) -> (r: Ratio)
        requires
            old(self).inv(),
            old(self).enabled_spec(),
            old(self).ccr.tsen,
        ensures
            final(self).inv(),
            r.denom == signed_sub16(cal2 as int, cal1 as int),
            r.numer == temperature_numer_spec(dr as int, calfact as int, cal1 as int, cal2 as int),
            *final(self) == (Adc {
                cr: (Cr { adstart: false, ..old(self).cr }),
                isr: (old(self).isr | irq::CCRDY) & !irq::EOC,
                chselr: Ch::Vts.mask_spec(),
                ..*old(self)
            }),
    {
        let sample: u16 = self.sample_channel(Ch::Vts, dr);
        temperature_from_sample(sample, calfact, cal1, cal2)
    }

    /// Read the internal voltage reference: one conversion of the
    /// voltage-reference channel, returning the raw code.
    ///
    /// The peripheral and the voltage reference must be enabled. `dr` is
    /// the conversion result the embedding reads from the data register.
    pub fn vref(&mut self, dr: u16) -> (r: u16)
        requires
            old(self).inv(),
            old(self).enabled_spec(),
            old(self).ccr.vrefen,
        ensures
            final(self).inv(),
            r == dr,
            *final(self) == (Adc {
                cr: (Cr { adstart: false, ..old(self).cr }),
                isr: (old(self).isr | irq::CCRDY) & !irq::EOC,
                chselr: Ch::Vref.mask_spec(),
                ..*old(self)
            }),
    {
        self.sample_channel(Ch::Vref, dr)
    }

    /// Sample the battery voltage divider: one conversion of the battery
    /// channel, returning the raw code, which stands for a third of the
    /// battery voltage.
    ///
    /// The peripheral and the battery divider must be enabled. `dr` is the
    /// conversion result the embedding reads from the data register.
    pub fn vbat(&mut self, dr: u16) -> (r: u16)
        requires
            old(self).inv(),
            old(self).enabled_spec(),
            old(self).ccr.vbaten,
        ensures
            final(self).inv(),
            r == dr,
            *final(self) == (Adc {
                cr: (Cr { adstart: false, ..old(self).cr }),
                isr: (old(self).isr | irq::CCRDY) & !irq::EOC,
                chselr: Ch::Vbat.mask_spec(),
                ..*old(self)
            }),
    {
        self.sample_channel(Ch::Vbat, dr)
    }

    /// Sample the DAC loopback channel: the DAC must be configured to
    /// output to chip peripherals for the sample to be meaningful.
    ///
    /// The peripheral must be enabled. `dr` is the conversion result the
    /// embedding reads from the data register.
    pub fn dac(&mut self, dr: u16) -> (r: u16)
        requires
            old(self).inv(),
            old(self).enabled_spec(),
        ensures
            final(self).inv(),
            r == dr,
            *final(self) == (Adc {
                cr: (Cr { adstart: false, ..old(self).cr }),
                isr: (old(self).isr | irq::CCRDY) & !irq::EOC,
                chselr: Ch::Dac.mask_spec(),
                ..*old(self)
            }),
    {
        self.sample_channel(Ch::Dac, dr)
    }

    /// Sample an external input pin: one conversion of the given external
    /// channel.
    ///
    /// The peripheral must be enabled and the channel must be one of the
    /// external inputs 0 to 11. `dr` is the conversion result the
    /// embedding reads from the data register.
    pub fn pin(&mut self, ch: Ch, dr: u16) -> (r: u16)
        requires
            old(self).inv(),
            old(self).enabled_spec(),
            ch.num_spec() <= 11,
        ensures
            final(self).inv(),
            r == dr,
            *final(self) == (Adc {
                cr: (Cr { adstart: false, ..old(self).cr }),
                isr: (old(self).isr | irq::CCRDY) & !irq::EOC,
                chselr: ch.mask_spec(),
                ..*old(self)
            }),
    {
        self.sample_channel(ch, dr)
    }

    /// Enable the ADC voltage regulator for calibration.
    ///
    /// The peripheral is first fully disabled (forcing the disable and
    /// waiting for it), then the control register is written with only the
    /// regulator-enable bit and DMA request generation is disabled, as the
    /// calibration procedure requires. The caller must wait
    /// [`T_ADCVREG_SETUP_MICROS`] before the regulator output is valid;
    /// that delay is not performed here.
    pub fn enable_vreg(&mut self)
        requires
            old(self).inv(),
        ensures
            final(self).inv(),
            final(self).disabled_spec(),
            *final(self) == (Adc {
                cr: (Cr {
                    aden: false,
                    addis: false,
                    adstart: false,
                    advregen: true,
                    adcal: false,
                }),
                dmaen: false,
                ..*old(self)
            }),
    {
        self.start_disable();
        // the busy-wait on the disable ends when the hardware clears the
        // enable bit and the disable request with it
        self.cr.aden = false;
        self.cr.addis = false;
        // full control-register write: regulator enable alone
        self.cr = Cr { aden: false, addis: false, adstart: false, advregen: true, adcal: false };
        // disable DMA request generation per the calibration procedure
        self.dmaen = false;
    }

    /// Disable the ADC voltage regulator.
    pub fn disable_vreg(&mut self)
        ensures
            *final(self) == (Adc { cr: (Cr { advregen: false, ..old(self).cr }), ..*old(self) }),
    {
        self.cr.advregen = false;
    }

    /// Start the ADC calibration.
    ///
    /// The peripheral must be disabled and its voltage regulator enabled;
    /// violating that order is a caller bug, ruled out here rather than
    /// reported at run time. When this returns the calibration has
    /// started but may not have finished: completion is polled via the
    /// end-of-calibration flag, and the calibration factor becomes
    /// readable once done.
    pub fn start_calibrate(&mut self)
        requires
            old(self).inv(),
            old(self).disabled_spec(),
            old(self).cr.advregen,
        ensures
            final(self).inv(),
            *final(self) == (Adc {
                cr: (Cr {
                    aden: false,
                    addis: false,
                    adstart: false,
                    advregen: true,
                    adcal: true,
                }),
                ..*old(self)
            }),
    {
        // full control-register write: calibration start with the
        // regulator kept enabled
        self.cr = Cr { aden: false, addis: false, adstart: false, advregen: true, adcal: true };
    }

    /// Calibrate the ADC for additional accuracy.
    ///
    /// Chains the whole sequence: force a disable, enable the voltage
    /// regulator, start the calibration once the regulator is up, wait for
    /// completion and clear the end-of-calibration flag. The embedding
    /// inserts the [`T_ADCVREG_SETUP_MICROS`] regulator startup delay
    /// between the regulator enable and the calibration start; the model
    /// records no passage of time. The calibration factor is lost when
    /// the ADC loses power or is reset.
    pub fn calibrate(&mut self)
        requires
            old(self).inv(),
        ensures
            final(self).inv(),
            final(self).disabled_spec(),
            final(self).cr.advregen,
            *final(self) == (Adc {
                cr: (Cr {
                    aden: false,
                    addis: false,
                    adstart: false,
                    advregen: true,
                    adcal: false,
                }),
                dmaen: false,
                isr: old(self).isr & !irq::EOCAL,
                ..*old(self)
            }),
    {
        self.enable_vreg();
        // the embedding waits T_ADCVREG_SETUP_MICROS here for the
        // regulator output to become valid
        self.start_calibrate();
        // the busy-wait ends when the hardware finishes the calibration:
        // it clears the calibration-start bit and raises the
        // end-of-calibration flag, which is then cleared by writing 1
        self.cr.adcal = false;
        self.isr = self.isr | irq::EOCAL;
        self.set_isr(irq::EOCAL);
        proof {
            assert(irq::EOCAL & irq::ALL == irq::EOCAL) by (bit_vector);
            lemma_clear_after_set(old(self).isr, irq::EOCAL);
        }
    }
}

/// Clearing a flag bit after setting it leaves the word with exactly that
/// bit cleared: `(w | m) & !m == w & !m`.
proof fn lemma_clear_after_set(w: u32, m: u32)
    ensures
        (w | m) & !m == w & !m,
{
    assert((w | m) & !m == w & !m) by (bit_vector);
}

/// Setting a flag bit after clearing it leaves the word with exactly that
/// bit set: `(w & !m) | m == w | m`.
proof fn lemma_set_after_clear(w: u32, m: u32)
    ensures
        (w & !m) | m == w | m,
{
    assert((w & !m) | m == w | m) by (bit_vector);
}

} // verus!
