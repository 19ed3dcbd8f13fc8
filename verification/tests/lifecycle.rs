//! Lifecycle state machine: enable, disable, calibrate.

use stm32wl_hal::adc::Adc;
use stm32wl_hal::channel::Ch;
use stm32wl_hal::clock::Clk;
use stm32wl_hal::irq;
use stm32wl_hal::sample::Ts;

#[test]
fn new_is_disabled_at_reset() {
    let adc = Adc::new(Clk::RccHsi);
    assert!(adc.is_disabled());
    assert!(!adc.is_enabled());
    assert_eq!(adc.isr(), 0);
    assert_eq!(adc.smpr, 0);
    assert_eq!(adc.chselr, 0);
    assert!(!adc.cr.advregen);
    assert!(!adc.dmaen);
    assert_eq!(adc.ccr.presc, 0);
}

#[test]
fn enable_reports_ready() {
    let mut adc = Adc::new(Clk::RccHsi);
    adc.enable();
    assert!(adc.is_enabled());
    assert!(!adc.is_disabled());
    assert_ne!(adc.isr() & irq::ARDY, 0);
}

#[test]
fn enable_twice_is_a_no_op() {
    // requesting enable while already enabled causes no second transition
    let mut adc = Adc::new(Clk::RccHsi);
    adc.enable();
    let snapshot = adc;
    adc.enable();
    assert_eq!(adc, snapshot);
}

#[test]
fn start_disable_on_disabled_is_a_no_op() {
    let mut adc = Adc::new(Clk::RccHsi);
    let snapshot = adc;
    adc.start_disable();
    assert_eq!(adc, snapshot);
    assert!(adc.is_disabled());
}

#[test]
fn start_disable_leaves_request_pending() {
    // disable completion is asynchronous: the request reads back pending
    // until the hardware finishes it
    let mut adc = Adc::new(Clk::RccHsi);
    adc.enable();
    adc.start_disable();
    assert!(adc.cr.addis);
    assert!(!adc.is_disabled());
}

#[test]
fn enable_vreg_forces_disable_and_enables_regulator() {
    let mut adc = Adc::new(Clk::RccHsi);
    adc.enable();
    adc.enable_vreg();
    assert!(adc.is_disabled());
    assert!(adc.cr.advregen);
    assert!(!adc.dmaen);
}

#[test]
fn disable_vreg_clears_regulator() {
    let mut adc = Adc::new(Clk::RccHsi);
    adc.enable_vreg();
    adc.disable_vreg();
    assert!(!adc.cr.advregen);
}

#[test]
fn start_calibrate_raises_calibration_request() {
    let mut adc = Adc::new(Clk::RccHsi);
    adc.enable_vreg();
    adc.start_calibrate();
    assert!(adc.cr.adcal);
    assert!(adc.cr.advregen);
    assert!(adc.is_disabled());
}

#[test]
fn calibrate_completes_disabled_with_regulator_on() {
    let mut adc = Adc::new(Clk::RccHsi);
    adc.enable();
    adc.calibrate();
    assert!(adc.is_disabled());
    assert!(adc.cr.advregen);
    assert!(!adc.cr.adcal);
    // the end-of-calibration flag was cleared on the way out
    assert_eq!(adc.isr() & irq::EOCAL, 0);
    assert!(!adc.dmaen);
}

#[test]
fn set_isr_clears_only_requested_valid_flags() {
    let mut adc = Adc::new(Clk::RccHsi);
    adc.enable();
    assert_ne!(adc.isr() & irq::ARDY, 0);
    // clearing a different flag leaves ready set
    adc.set_isr(irq::EOC);
    assert_ne!(adc.isr() & irq::ARDY, 0);
    adc.set_isr(irq::ALL);
    assert_eq!(adc.isr(), 0);
}

#[test]
fn set_ier_writes_mask() {
    let mut adc = Adc::new(Clk::RccHsi);
    adc.set_ier(irq::ALL);
    assert_eq!(adc.ier, irq::ALL);
    adc.set_ier(0);
    assert_eq!(adc.ier, 0);
}

#[test]
fn sample_times_reach_register_image() {
    let mut adc = Adc::new(Clk::RccHsi);
    adc.set_sample_times(Ch::Vbat.mask(), Ts::Cyc160, Ts::Cyc39);
    assert_eq!(adc.smpr, (Ch::Vbat.mask() << 8) | (5 << 4) | 7);
    adc.set_max_sample_time();
    assert_eq!(adc.smpr, (7 << 4) | 7);
}

#[test]
fn sample_times_mask_out_reserved_channels() {
    // selector bits for the reserved channels 15 and 16 never reach the
    // register
    let mut adc = Adc::new(Clk::RccHsi);
    adc.set_sample_times((1 << 15) | (1 << 16), Ts::Cyc1, Ts::Cyc160);
    assert_eq!(adc.smpr >> 8, 0);
}

#[test]
fn conversions_select_their_channel() {
    let mut adc = Adc::new(Clk::RccHsi);
    adc.enable();
    adc.enable_vref();
    let raw = adc.vref(1234);
    assert_eq!(raw, 1234);
    assert_eq!(adc.chselr, Ch::Vref.mask());
    // the conversion has ended: no conversion reads active afterwards
    assert!(!adc.cr.adstart);

    adc.enable_vbat();
    assert_eq!(adc.vbat(333), 333);
    assert_eq!(adc.chselr, Ch::Vbat.mask());

    assert_eq!(adc.dac(55), 55);
    assert_eq!(adc.chselr, Ch::Dac.mask());

    assert_eq!(adc.pin(Ch::In3, 77), 77);
    assert_eq!(adc.chselr, Ch::In3.mask());
    assert_eq!(adc.chselr & 0x18000, 0);
}

#[test]
fn internal_source_enables() {
    let mut adc = Adc::new(Clk::RccHsi);
    assert!(!adc.is_tsen_enabled());
    adc.enable_tsen();
    assert!(adc.is_tsen_enabled());
    adc.disable_tsen();
    assert!(!adc.is_tsen_enabled());

    assert!(!adc.is_vref_enabled());
    adc.enable_vref();
    assert!(adc.is_vref_enabled());
    adc.disable_vref();
    assert!(!adc.is_vref_enabled());

    assert!(!adc.is_vbat_enabled());
    adc.enable_vbat();
    assert!(adc.is_vbat_enabled());
    adc.disable_vbat();
    assert!(!adc.is_vbat_enabled());
}

#[test]
fn free_releases_the_driver() {
    let adc = Adc::new(Clk::RccHsi);
    adc.free();
}
