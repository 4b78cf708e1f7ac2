//! Tests of the flash latency decoding and the register encodings.

use stm32wl5x::flash::FlashLatency3;
use stm32wl5x::flash::RegisterToFlashLatency;
use stm32wl5x::rcc::AHBPrescaler;
use stm32wl5x::rcc::PllSource;
use stm32wl5x::rcc::SysClockSource;

#[test]
fn flash_latency_decodes_from_register_values() {
    assert_eq!(FlashLatency3::convert_register_to_enum(0), FlashLatency3::Latency0);
    assert_eq!(FlashLatency3::convert_register_to_enum(1), FlashLatency3::Latency1);
    assert_eq!(FlashLatency3::convert_register_to_enum(2), FlashLatency3::Latency2);
    // Values beyond the defined settings read as the widest latency.
    assert_eq!(FlashLatency3::convert_register_to_enum(7), FlashLatency3::Latency2);
}

#[test]
fn flash_latency_converts_to_wait_state_counts() {
    assert_eq!(u32::from(FlashLatency3::Latency0), 0);
    assert_eq!(u32::from(FlashLatency3::Latency1), 1);
    assert_eq!(u32::from(FlashLatency3::Latency2), 2);
}

#[test]
fn selector_encodings_match_the_reference_manual() {
    assert_eq!(SysClockSource::MSI.register_value(), 0b00);
    assert_eq!(SysClockSource::HSI16.register_value(), 0b01);
    assert_eq!(SysClockSource::HSE32.register_value(), 0b10);
    assert_eq!(SysClockSource::PLLRCLK.register_value(), 0b11);

    assert_eq!(PllSource::MSI.register_value(), 0b01);
    assert_eq!(PllSource::HSI16.register_value(), 0b10);
    assert_eq!(PllSource::HSE32.register_value(), 0b11);

    assert_eq!(AHBPrescaler::Div1.register_value(), 0b0000);
    assert_eq!(AHBPrescaler::Div3.register_value(), 0b0001);
    assert_eq!(AHBPrescaler::Div512.register_value(), 0b1111);
}
