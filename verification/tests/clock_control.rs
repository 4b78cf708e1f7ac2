//! Tests of the register model, the reconfiguration protocol and the
//! frequency derivation.

use stm32wl5x::chip_specs::ChipSpecs;
use stm32wl5x::clock_constants::PllConstants;
use stm32wl5x::clocks::Clocks;
use stm32wl5x::pll::Pll;
use stm32wl5x::pll::PllError;
use stm32wl5x::rcc::AHBPrescaler;
use stm32wl5x::rcc::APBPrescaler;
use stm32wl5x::rcc::MsiRange;
use stm32wl5x::rcc::PllSource;
use stm32wl5x::rcc::Rcc;
use stm32wl5x::rcc::RtcClockSource;
use stm32wl5x::rcc::SysClockSource;

#[test]
fn configure_from_targets_updates_cached_freqs() {
    let mut rcc = Rcc::new();
    let mut pll = Pll::new(PllConstants::stm32wl55());

    // Ask for R = 48 MHz system clock and Q = 48 MHz.
    pll.configure_from_targets_mhz(&mut rcc, PllSource::HSI16, None, Some(48), Some(48), 100)
        .expect("configuration should succeed");

    assert_eq!(pll.pllq_frequency_mhz, 48);
    assert_eq!(pll.pllr_frequency_mhz, 48);
}

#[test]
fn configure_programs_the_registers_and_locks() {
    let mut rcc = Rcc::new();
    let mut pll = Pll::new(PllConstants::stm32wl55());

    pll.configure_from_targets_mhz(&mut rcc, PllSource::HSI16, None, Some(48), Some(48), 50)
        .expect("configuration should succeed");

    assert_eq!(rcc.registers.pllm, 2);
    assert_eq!(rcc.registers.plln, 12);
    assert_eq!(rcc.registers.pllq, 2);
    assert_eq!(rcc.registers.pllr, 2);
    // The placeholder for the unused P output is a valid divider and the
    // output stays disabled.
    assert_eq!(rcc.registers.pllp, 2);
    assert!(!rcc.registers.pllpen);
    assert!(rcc.registers.pllqen);
    assert!(rcc.registers.pllren);
    assert!(rcc.registers.pllon);
    assert!(rcc.registers.pllrdy);
}

#[test]
fn no_solution_leaves_all_state_untouched() {
    let mut rcc = Rcc::new();
    let mut pll = Pll::new(PllConstants::stm32wl55());
    let rcc_before = rcc;
    let pll_before = pll;

    let result =
        pll.configure_from_targets_mhz(&mut rcc, PllSource::HSI16, None, Some(60), None, 1000);

    assert_eq!(result, Err(PllError::NoSolution));
    assert_eq!(rcc, rcc_before);
    assert_eq!(pll, pll_before);
}

#[test]
fn reconfiguring_identically_is_idempotent() {
    let mut rcc = Rcc::new();
    let mut pll = Pll::new(PllConstants::stm32wl55());

    pll.configure_from_targets_mhz(&mut rcc, PllSource::HSI16, None, Some(48), Some(48), 50)
        .expect("first configuration should succeed");
    let rcc_after_first = rcc;
    let pll_after_first = pll;

    pll.configure_from_targets_mhz(&mut rcc, PllSource::HSI16, None, Some(48), Some(48), 50)
        .expect("second configuration should succeed");

    assert_eq!(rcc, rcc_after_first);
    assert_eq!(pll, pll_after_first);
}

#[test]
fn committed_solution_drives_clock_queries_from_the_cache() {
    let mut clocks = Clocks::new(Rcc::new(), ChipSpecs::stm32wl55());

    clocks
        .configure_pll_from_targets_mhz(PllSource::HSI16, None, Some(48), Some(48), 50)
        .expect("configuration should succeed");

    assert_eq!(clocks.pll.pllq_frequency_mhz, 48);
    assert_eq!(clocks.pll.pllr_frequency_mhz, 48);

    clocks
        .set_sys_clock_source(SysClockSource::PLLRCLK)
        .expect("the locked PLL may drive the system clock");

    assert_eq!(clocks.get_sys_clock_source(), SysClockSource::PLLRCLK);
    assert_eq!(clocks.get_sys_clock_frequency_mhz(), 48);
    assert_eq!(clocks.get_ahb_frequency_mhz(), 48);
}

#[test]
fn configure_sysclk_shorthand_hits_both_targets() {
    let mut rcc = Rcc::new();
    let mut pll = Pll::new(PllConstants::stm32wl55());

    pll.configure_sysclk_and_optional_48mhz(&mut rcc, PllSource::HSI16, 48, true)
        .expect("48 MHz with the 48 MHz Q output should be solvable");

    assert_eq!(pll.pllq_frequency_mhz, 48);
    assert_eq!(pll.pllr_frequency_mhz, 48);

    pll.switch_sysclk_to_pllr(&mut rcc);
    assert_eq!(rcc.get_sys_clock_source(), SysClockSource::PLLRCLK);
}

#[test]
fn msi_source_feeds_the_solver() {
    let mut rcc = Rcc::new();
    let mut pll = Pll::new(PllConstants::stm32wl55());

    // The multi-speed oscillator resets to 4 MHz; 4 * 24 / (1 * 2) = 48.
    pll.configure_from_targets_mhz(&mut rcc, PllSource::MSI, None, None, Some(48), 0)
        .expect("48 MHz from the 4 MHz multi-speed oscillator is exact");

    assert_eq!(rcc.registers.pllm, 1);
    assert_eq!(rcc.registers.plln, 24);
    assert_eq!(rcc.registers.pllr, 2);
    assert_eq!(pll.pllr_frequency_mhz, 48);
}

#[test]
fn switching_to_a_disabled_source_is_rejected() {
    let mut clocks = Clocks::new(Rcc::new(), ChipSpecs::stm32wl55());
    let before = clocks;

    let result = clocks.set_sys_clock_source(SysClockSource::HSE32);

    assert_eq!(result, Err(PllError::InvalidSource));
    assert_eq!(clocks, before);
}

#[test]
fn switching_to_an_enabled_source_succeeds() {
    let mut clocks = Clocks::new(Rcc::new(), ChipSpecs::stm32wl55());

    clocks.rcc.set_hsi_enable(true);
    clocks
        .set_sys_clock_source(SysClockSource::HSI16)
        .expect("an enabled, ready source may be selected");

    assert_eq!(clocks.get_sys_clock_source(), SysClockSource::HSI16);
    assert_eq!(clocks.get_sys_clock_frequency_mhz(), 16);
}

#[test]
fn out_of_range_divider_is_rejected_before_any_write() {
    let mut rcc = Rcc::new();
    let before = rcc;

    assert_eq!(rcc.set_pll_clock_q_divider(9), Err(PllError::OutOfRangeDivider));
    assert_eq!(rcc.set_pll_clock_r_divider(1), Err(PllError::OutOfRangeDivider));
    assert_eq!(rcc.set_pll_clocks_m_divider(0), Err(PllError::OutOfRangeDivider));
    assert_eq!(rcc.set_pll_clock_n_multiplier(128), Err(PllError::OutOfRangeDivider));
    assert_eq!(rcc.set_pll_clock_p_divider(33), Err(PllError::OutOfRangeDivider));
    assert_eq!(rcc, before);
}

#[test]
fn waiting_for_a_disabled_pll_times_out() {
    let rcc = Rcc::new();
    assert_eq!(rcc.wait_pll_ready(), Err(PllError::Timeout));
}

#[test]
fn oscillator_enables_latch_their_ready_flags() {
    let mut rcc = Rcc::new();

    rcc.set_hsi_enable(true);
    assert!(rcc.is_hsi_enabled());
    assert!(rcc.is_hsi_is_ready());

    rcc.set_hse_enable(true);
    assert!(rcc.is_hse_enabled());
    assert!(rcc.is_hse_is_ready());

    rcc.set_hse_enable(false);
    assert!(!rcc.is_hse_enabled());
    assert!(!rcc.is_hse_is_ready());
}

#[test]
fn msi_range_frequencies_are_the_datasheet_values() {
    assert_eq!(MsiRange::Range100kHz.frequency_hz(), 100_000);
    assert_eq!(MsiRange::Range100kHz.frequency_mhz(), 0);
    assert_eq!(MsiRange::Range4MHz.frequency_hz(), 4_000_000);
    assert_eq!(MsiRange::Range4MHz.frequency_mhz(), 4);
    assert_eq!(MsiRange::Range48MHz.frequency_hz(), 48_000_000);
    assert_eq!(MsiRange::Range48MHz.frequency_mhz(), 48);
}

#[test]
fn msi_range_round_trips_through_the_register() {
    let mut rcc = Rcc::new();

    rcc.set_msi_frequency(MsiRange::Range16MHz);
    assert_eq!(rcc.get_msi_frequency(), MsiRange::Range16MHz);

    rcc.set_msi_clock_range(MsiRange::Range800kHz);
    assert_eq!(rcc.get_msi_frequency(), MsiRange::Range800kHz);
}

#[test]
fn prescalers_round_trip_and_divide() {
    let mut rcc = Rcc::new();

    rcc.set_ahb_prescaler(AHBPrescaler::Div8);
    assert_eq!(rcc.get_ahb_prescaler(), AHBPrescaler::Div8);
    assert_eq!(AHBPrescaler::Div8.divisor(), 8);
    assert_eq!(AHBPrescaler::Div512.divisor(), 512);

    rcc.set_apb1_prescaler(APBPrescaler::Div4);
    assert_eq!(rcc.get_apb1_prescaler(), APBPrescaler::Div4);
    rcc.set_apb2_prescaler(APBPrescaler::Div16);
    assert_eq!(rcc.get_apb2_prescaler(), APBPrescaler::Div16);
}

#[test]
fn bus_frequencies_follow_the_prescaler_chain() {
    let mut clocks = Clocks::new(Rcc::new(), ChipSpecs::stm32wl55());

    clocks.rcc.set_hsi_enable(true);
    clocks
        .set_sys_clock_source(SysClockSource::HSI16)
        .expect("an enabled, ready source may be selected");
    clocks.rcc.set_ahb_prescaler(AHBPrescaler::Div2);
    clocks.rcc.set_apb1_prescaler(APBPrescaler::Div2);
    clocks.rcc.set_apb2_prescaler(APBPrescaler::Div4);

    assert_eq!(clocks.get_sys_clock_frequency_mhz(), 16);
    assert_eq!(clocks.get_ahb_frequency_mhz(), 8);
    assert_eq!(clocks.get_apb1_frequency_mhz(), 4);
    assert_eq!(clocks.get_apb2_frequency_mhz(), 2);
}

#[test]
fn rtc_clock_enable_selects_source_and_starts_lsi() {
    let mut rcc = Rcc::new();

    rcc.enable_rtc_clock(RtcClockSource::LSE)
        .expect("the bounded poll must see the latched enable");

    assert!(rcc.is_lsi_clock_enabled());
    assert!(rcc.is_lsi_clock_ready());
    assert!(rcc.registers.rtcen);
    assert_eq!(rcc.registers.rtcsel, 1);

    rcc.disable_rtc_clock();
    assert!(!rcc.registers.rtcen);
    assert_eq!(rcc.registers.rtcsel, 0);
}

#[test]
fn system_clock_attribution_sees_through_the_pll() {
    let mut rcc = Rcc::new();
    let mut pll = Pll::new(PllConstants::stm32wl55());

    pll.configure_from_targets_mhz(&mut rcc, PllSource::HSI16, None, None, Some(48), 50)
        .expect("configuration should succeed");
    pll.switch_sysclk_to_pllr(&mut rcc);

    assert!(rcc.is_hsi_clock_system_clock());
    assert!(!rcc.is_msi_clock_system_clock());
    assert!(!rcc.is_hse_clock_system_clock());
}
