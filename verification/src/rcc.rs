//! Reset and clock control (RCC) unit, modelled as an explicit in-memory
//! register value store.
//!
//! Each logical register field is held as a plain value.  The store models
//! hardware whose sources stabilize immediately: writing an oscillator or
//! PLL enable bit latches the matching ready flag, and writing the
//! system-clock selector settles the read-only status field at once.  A
//! memory-mapped implementation of the same operations packs these fields
//! into the chip's registers; the sequencing and range rules proved here are
//! what such an implementation must follow.

use vstd::prelude::*;

verus! {

use crate::pll::PllError;

/// Clock sources that can drive the system clock.
#[derive(Clone, Copy, Debug, PartialEq, Eq, Structural)]
pub enum SysClockSource {
    /// Multi-speed internal RC oscillator.
    MSI,
    /// 16 MHz high-speed internal RC oscillator.
    HSI16,
    /// 32 MHz high-speed external oscillator.
    HSE32,
    /// The PLL's `R` output.
    PLLRCLK,
}

/// Clock sources that can feed the PLL.
#[derive(Clone, Copy, Debug, PartialEq, Eq, Structural)]
pub enum PllSource {
    /// Multi-speed internal RC oscillator.
    MSI,
    /// 16 MHz high-speed internal RC oscillator.
    HSI16,
    /// 32 MHz high-speed external oscillator.
    HSE32,
}

/// Clock sources that can drive the microcontroller clock output pin.
#[derive(Clone, Copy, Debug, PartialEq, Eq, Structural)]
pub enum MCO1Source {
    /// High-speed internal oscillator.
    HSI,
    /// High-speed external oscillator.
    HSE,
    /// PLL output.
    PLL,
}

/// Operating mode of the high-speed external oscillator.
#[derive(Clone, Copy, Debug, PartialEq, Eq, Structural)]
pub enum HseMode {
    /// Bypass mode, external clock source.
    BYPASS,
    /// External crystal oscillator mode.
    CRYSTAL,
}

/// Clock sources that can drive the real-time clock.
#[derive(Clone, Copy, Debug, PartialEq, Eq, Structural)]
pub enum RtcClockSource {
    /// Low-speed internal RC oscillator.
    LSI,
    /// Low-speed external crystal.
    LSE,
    /// High-speed external oscillator, pre-divided.
    HSE32,
}

/// AHB prescaler choices: the divisor applied to the system clock.
#[derive(Clone, Copy, Debug, PartialEq, Eq, Structural)]
pub enum AHBPrescaler {
    /// System clock not divided.
    Div1,
    /// Divided by 3.
    Div3,
    /// Divided by 5.
    Div5,
    /// Divided by 6.
    Div6,
    /// Divided by 10.
    Div10,
    /// Divided by 32.
    Div32,
    /// Divided by 2.
    Div2,
    /// Divided by 4.
    Div4,
    /// Divided by 8.
    Div8,
    /// Divided by 16.
    Div16,
    /// Divided by 64.
    Div64,
    /// Divided by 128.
    Div128,
    /// Divided by 256.
    Div256,
    /// Divided by 512.
    Div512,
}

/// APB prescaler choices: the divisor applied to the AHB clock.
#[derive(Clone, Copy, Debug, PartialEq, Eq, Structural)]
pub enum APBPrescaler {
    /// AHB clock not divided.
    Div1,
    /// Divided by 2.
    Div2,
    /// Divided by 4.
    Div4,
    /// Divided by 8.
    Div8,
    /// Divided by 16.
    Div16,
}

/// Frequency ranges of the multi-speed internal oscillator.
#[derive(Clone, Copy, Debug, PartialEq, Eq, Structural)]
pub enum MsiRange {
    /// 100 kHz.
    Range100kHz,
    /// 200 kHz.
    Range200kHz,
    /// 400 kHz.
    Range400kHz,
    /// 800 kHz.
    Range800kHz,
    /// 1 MHz.
    Range1MHz,
    /// 2 MHz.
    Range2MHz,
    /// 4 MHz, the reset value.
    Range4MHz,
    /// 8 MHz.
    Range8MHz,
    /// 16 MHz.
    Range16MHz,
    /// 24 MHz.
    Range24MHz,
    /// 32 MHz.
    Range32MHz,
    /// 48 MHz.
    Range48MHz,
}

impl SysClockSource {
    /// Encoding of this selection in the clock configuration register.
    pub open spec fn spec_register_value(self) -> u32 {
        match self {
            SysClockSource::MSI => 0,
            SysClockSource::HSI16 => 1,
            SysClockSource::HSE32 => 2,
            SysClockSource::PLLRCLK => 3,
        }
    }

    /// Encoding of this selection in the clock configuration register.
    #[verifier::when_used_as_spec(spec_register_value)]
    pub fn register_value(self) -> (r: u32)
        ensures
            r == self.spec_register_value(),
    {
        match self {
            SysClockSource::MSI => 0,
            SysClockSource::HSI16 => 1,
            SysClockSource::HSE32 => 2,
            SysClockSource::PLLRCLK => 3,
        }
    }
}

/// The system-clock source a status-field value denotes; values above three
/// cannot occur in the two-bit field.
pub open spec fn spec_sys_clock_source_of(v: u32) -> SysClockSource {
    if v == 0 {
        SysClockSource::MSI
    } else if v == 1 {
        SysClockSource::HSI16
    } else if v == 2 {
        SysClockSource::HSE32
    } else {
        SysClockSource::PLLRCLK
    }
}

impl PllSource {
    /// Encoding of this selection in the PLL configuration register.
    pub open spec fn spec_register_value(self) -> u32 {
        match self {
            PllSource::MSI => 1,
            PllSource::HSI16 => 2,
            PllSource::HSE32 => 3,
        }
    }

    /// Encoding of this selection in the PLL configuration register.
    #[verifier::when_used_as_spec(spec_register_value)]
    pub fn register_value(self) -> (r: u32)
        ensures
            r == self.spec_register_value(),
    {
        match self {
            PllSource::MSI => 1,
            PllSource::HSI16 => 2,
            PllSource::HSE32 => 3,
        }
    }
}

/// The PLL source a register value of one to three denotes; zero means no
/// source is selected and is kept out by the well-formedness condition.
pub open spec fn spec_pll_source_of(v: u32) -> PllSource {
    if v == 1 {
        PllSource::MSI
    } else if v == 2 {
        PllSource::HSI16
    } else {
        PllSource::HSE32
    }
}

impl AHBPrescaler {
    /// Encoding of this prescaler in the clock configuration register.
    pub open spec fn spec_register_value(self) -> u32 {
        match self {
            AHBPrescaler::Div1 => 0b0000,
            AHBPrescaler::Div3 => 0b0001,
            AHBPrescaler::Div5 => 0b0010,
            AHBPrescaler::Div6 => 0b0101,
            AHBPrescaler::Div10 => 0b0110,
            AHBPrescaler::Div32 => 0b0111,
            AHBPrescaler::Div2 => 0b1000,
            AHBPrescaler::Div4 => 0b1001,
            AHBPrescaler::Div8 => 0b1010,
            AHBPrescaler::Div16 => 0b1011,
            AHBPrescaler::Div64 => 0b1100,
            AHBPrescaler::Div128 => 0b1101,
            AHBPrescaler::Div256 => 0b1110,
            AHBPrescaler::Div512 => 0b1111,
        }
    }

    /// Encoding of this prescaler in the clock configuration register.
    #[verifier::when_used_as_spec(spec_register_value)]
    pub fn register_value(self) -> (r: u32)
        ensures
            r == self.spec_register_value(),
    {
        match self {
            AHBPrescaler::Div1 => 0b0000,
            AHBPrescaler::Div3 => 0b0001,
            AHBPrescaler::Div5 => 0b0010,
            AHBPrescaler::Div6 => 0b0101,
            AHBPrescaler::Div10 => 0b0110,
            AHBPrescaler::Div32 => 0b0111,
            AHBPrescaler::Div2 => 0b1000,
            AHBPrescaler::Div4 => 0b1001,
            AHBPrescaler::Div8 => 0b1010,
            AHBPrescaler::Div16 => 0b1011,
            AHBPrescaler::Div64 => 0b1100,
            AHBPrescaler::Div128 => 0b1101,
            AHBPrescaler::Div256 => 0b1110,
            AHBPrescaler::Div512 => 0b1111,
        }
    }

    /// The divisor this prescaler applies to the system clock.
    pub open spec fn spec_divisor(self) -> usize {
        match self {
            AHBPrescaler::Div1 => 1,
            AHBPrescaler::Div3 => 3,
            AHBPrescaler::Div5 => 5,
            AHBPrescaler::Div6 => 6,
            AHBPrescaler::Div10 => 10,
            AHBPrescaler::Div32 => 32,
            AHBPrescaler::Div2 => 2,
            AHBPrescaler::Div4 => 4,
            AHBPrescaler::Div8 => 8,
            AHBPrescaler::Div16 => 16,
            AHBPrescaler::Div64 => 64,
            AHBPrescaler::Div128 => 128,
            AHBPrescaler::Div256 => 256,
            AHBPrescaler::Div512 => 512,
        }
    }

    /// The divisor this prescaler applies to the system clock.
    #[verifier::when_used_as_spec(spec_divisor)]
    pub fn divisor(self) -> (r: usize)
        ensures
            r == self.spec_divisor(),
            1 <= r <= 512,
    {
        match self {
            AHBPrescaler::Div1 => 1,
            AHBPrescaler::Div3 => 3,
            AHBPrescaler::Div5 => 5,
            AHBPrescaler::Div6 => 6,
            AHBPrescaler::Div10 => 10,
            AHBPrescaler::Div32 => 32,
            AHBPrescaler::Div2 => 2,
            AHBPrescaler::Div4 => 4,
            AHBPrescaler::Div8 => 8,
            AHBPrescaler::Div16 => 16,
            AHBPrescaler::Div64 => 64,
            AHBPrescaler::Div128 => 128,
            AHBPrescaler::Div256 => 256,
            AHBPrescaler::Div512 => 512,
        }
    }
}

/// The AHB prescaler a register value denotes; the two reserved codes and
/// any value outside the four-bit field fall back to no division.
pub open spec fn spec_ahb_prescaler_of(v: u32) -> AHBPrescaler {
    if v == 0b0001 {
        AHBPrescaler::Div3
    } else if v == 0b0010 {
        AHBPrescaler::Div5
    } else if v == 0b0101 {
        AHBPrescaler::Div6
    } else if v == 0b0110 {
        AHBPrescaler::Div10
    } else if v == 0b0111 {
        AHBPrescaler::Div32
    } else if v == 0b1000 {
        AHBPrescaler::Div2
    } else if v == 0b1001 {
        AHBPrescaler::Div4
    } else if v == 0b1010 {
        AHBPrescaler::Div8
    } else if v == 0b1011 {
        AHBPrescaler::Div16
    } else if v == 0b1100 {
        AHBPrescaler::Div64
    } else if v == 0b1101 {
        AHBPrescaler::Div128
    } else if v == 0b1110 {
        AHBPrescaler::Div256
    } else if v == 0b1111 {
        AHBPrescaler::Div512
    } else {
        AHBPrescaler::Div1
    }
}

impl APBPrescaler {
    /// Encoding of this prescaler in the clock configuration register.
    pub open spec fn spec_register_value(self) -> u32 {
        match self {
            APBPrescaler::Div1 => 0b000,
            APBPrescaler::Div2 => 0b100,
            APBPrescaler::Div4 => 0b101,
            APBPrescaler::Div8 => 0b110,
            APBPrescaler::Div16 => 0b111,
        }
    }

    /// Encoding of this prescaler in the clock configuration register.
    #[verifier::when_used_as_spec(spec_register_value)]
    pub fn register_value(self) -> (r: u32)
        ensures
            r == self.spec_register_value(),
    {
        match self {
            APBPrescaler::Div1 => 0b000,
            APBPrescaler::Div2 => 0b100,
            APBPrescaler::Div4 => 0b101,
            APBPrescaler::Div8 => 0b110,
            APBPrescaler::Div16 => 0b111,
        }
    }

    /// The divisor this prescaler applies to the AHB clock.
    pub open spec fn spec_divisor(self) -> usize {
        match self {
            APBPrescaler::Div1 => 1,
            APBPrescaler::Div2 => 2,
            APBPrescaler::Div4 => 4,
            APBPrescaler::Div8 => 8,
            APBPrescaler::Div16 => 16,
        }
    }

    /// The divisor this prescaler applies to the AHB clock.
    #[verifier::when_used_as_spec(spec_divisor)]
    pub fn divisor(self) -> (r: usize)
        ensures
            r == self.spec_divisor(),
            1 <= r <= 16,
    {
        match self {
            APBPrescaler::Div1 => 1,
            APBPrescaler::Div2 => 2,
            APBPrescaler::Div4 => 4,
            APBPrescaler::Div8 => 8,
            APBPrescaler::Div16 => 16,
        }
    }
}

/// The APB prescaler a register value denotes; every code whose top bit is
/// clear means no division.
pub open spec fn spec_apb_prescaler_of(v: u32) -> APBPrescaler {
    if v == 0b100 {
        APBPrescaler::Div2
    } else if v == 0b101 {
        APBPrescaler::Div4
    } else if v == 0b110 {
        APBPrescaler::Div8
    } else if v == 0b111 {
        APBPrescaler::Div16
    } else {
        APBPrescaler::Div1
    }
}

impl MsiRange {
    /// Encoding of this range in the control register.
    pub open spec fn spec_register_value(self) -> u32 {
        match self {
            MsiRange::Range100kHz => 0b0000,
            MsiRange::Range200kHz => 0b0001,
            MsiRange::Range400kHz => 0b0010,
            MsiRange::Range800kHz => 0b0011,
            MsiRange::Range1MHz => 0b0100,
            MsiRange::Range2MHz => 0b0101,
            MsiRange::Range4MHz => 0b0110,
            MsiRange::Range8MHz => 0b0111,
            MsiRange::Range16MHz => 0b1000,
            MsiRange::Range24MHz => 0b1001,
            MsiRange::Range32MHz => 0b1010,
            MsiRange::Range48MHz => 0b1011,
        }
    }

    /// Encoding of this range in the control register.
    #[verifier::when_used_as_spec(spec_register_value)]
    pub fn register_value(self) -> (r: u32)
        ensures
            r == self.spec_register_value(),
            r <= 11,
    {
        match self {
            MsiRange::Range100kHz => 0b0000,
            MsiRange::Range200kHz => 0b0001,
            MsiRange::Range400kHz => 0b0010,
            MsiRange::Range800kHz => 0b0011,
            MsiRange::Range1MHz => 0b0100,
            MsiRange::Range2MHz => 0b0101,
            MsiRange::Range4MHz => 0b0110,
            MsiRange::Range8MHz => 0b0111,
            MsiRange::Range16MHz => 0b1000,
            MsiRange::Range24MHz => 0b1001,
            MsiRange::Range32MHz => 0b1010,
            MsiRange::Range48MHz => 0b1011,
        }
    }

    /// Nominal frequency of this range in Hz.
    pub open spec fn spec_frequency_hz(self) -> u32 {
        match self {
            MsiRange::Range100kHz => 100_000,
            MsiRange::Range200kHz => 200_000,
            MsiRange::Range400kHz => 400_000,
            MsiRange::Range800kHz => 800_000,
            MsiRange::Range1MHz => 1_000_000,
            MsiRange::Range2MHz => 2_000_000,
            MsiRange::Range4MHz => 4_000_000,
            MsiRange::Range8MHz => 8_000_000,
            MsiRange::Range16MHz => 16_000_000,
            MsiRange::Range24MHz => 24_000_000,
            MsiRange::Range32MHz => 32_000_000,
            MsiRange::Range48MHz => 48_000_000,
        }
    }

    /// Nominal frequency of this range in Hz.
    pub fn frequency_hz(&self) -> (r: u32)
        ensures
            r == self.spec_frequency_hz(),
    {
        match self {
            MsiRange::Range100kHz => 100_000,
            MsiRange::Range200kHz => 200_000,
            MsiRange::Range400kHz => 400_000,
            MsiRange::Range800kHz => 800_000,
            MsiRange::Range1MHz => 1_000_000,
            MsiRange::Range2MHz => 2_000_000,
            MsiRange::Range4MHz => 4_000_000,
            MsiRange::Range8MHz => 8_000_000,
            MsiRange::Range16MHz => 16_000_000,
            MsiRange::Range24MHz => 24_000_000,
            MsiRange::Range32MHz => 32_000_000,
            MsiRange::Range48MHz => 48_000_000,
        }
    }

    /// Nominal frequency of this range in whole MHz, rounded toward zero:
    /// zero for the sub-MHz ranges, up to 48 for the fastest.
    pub fn frequency_mhz(&self) -> (r: u32)
        ensures
            r == self.spec_frequency_hz() / 1_000_000,
            r <= 48,
    {
        self.frequency_hz() / 1_000_000
    }
}

/// The multi-speed oscillator range a register value of at most eleven
/// denotes.
pub open spec fn spec_msi_range_of(v: u32) -> MsiRange {
    if v == 0 {
        MsiRange::Range100kHz
    } else if v == 1 {
        MsiRange::Range200kHz
    } else if v == 2 {
        MsiRange::Range400kHz
    } else if v == 3 {
        MsiRange::Range800kHz
    } else if v == 4 {
        MsiRange::Range1MHz
    } else if v == 5 {
        MsiRange::Range2MHz
    } else if v == 6 {
        MsiRange::Range4MHz
    } else if v == 7 {
        MsiRange::Range8MHz
    } else if v == 8 {
        MsiRange::Range16MHz
    } else if v == 9 {
        MsiRange::Range24MHz
    } else if v == 10 {
        MsiRange::Range32MHz
    } else {
        MsiRange::Range48MHz
    }
}

/// In-memory value store for the RCC register fields the clock controller
/// reads and writes, one plain value per logical field.
#[derive(Clone, Copy, Debug, PartialEq, Eq, Structural)]
pub struct RccRegisters {
    /// Multi-speed internal oscillator enable.
    pub msion: bool,
    /// Multi-speed internal oscillator ready flag.
    pub msirdy: bool,
    /// Multi-speed oscillator PLL-mode enable (locks MSI to LSE).
    pub msipllen: bool,
    /// Multi-speed oscillator range selection by register rather than flash
    /// option bytes.
    pub msirgsel: bool,
    /// Multi-speed oscillator range, encoded; at most eleven.
    pub msirange: u32,
    /// High-speed internal oscillator enable.
    pub hsion: bool,
    /// High-speed internal oscillator kernel-clock enable.
    pub hsikeron: bool,
    /// High-speed internal oscillator ready flag.
    pub hsirdy: bool,
    /// High-speed internal oscillator automatic start from stop mode.
    pub hsiasfs: bool,
    /// High-speed internal oscillator kernel-clock ready flag.
    pub hsikerdy: bool,
    /// High-speed external oscillator enable.
    pub hseon: bool,
    /// High-speed external oscillator ready flag.
    pub hserdy: bool,
    /// Clock security system enable.
    pub csson: bool,
    /// Divide-by-two prescaler on the high-speed external oscillator when it
    /// drives the system clock.
    pub hsepre: bool,
    /// TCXO supply output enable for the high-speed external oscillator.
    pub hsebyppwr: bool,
    /// PLL enable.
    pub pllon: bool,
    /// PLL lock-ready flag.
    pub pllrdy: bool,
    /// System clock switch request, encoded.
    pub sw: u32,
    /// System clock switch status, hardware-mirrored, encoded.
    pub sws: u32,
    /// AHB prescaler, encoded.
    pub hpre: u32,
    /// APB1 prescaler, encoded.
    pub ppre1: u32,
    /// APB2 prescaler, encoded.
    pub ppre2: u32,
    /// PLL input source, encoded; one to three once configured.
    pub pllsrc: u32,
    /// PLL pre-divider `M`; one to eight.
    pub pllm: u32,
    /// PLL multiplier `N`; six to 127.
    pub plln: u32,
    /// PLL `P` output enable.
    pub pllpen: bool,
    /// PLL `P` output divider; two to 32.
    pub pllp: u32,
    /// PLL `Q` output enable.
    pub pllqen: bool,
    /// PLL `Q` output divider; two to eight.
    pub pllq: u32,
    /// PLL `R` output enable.
    pub pllren: bool,
    /// PLL `R` output divider; two to eight.
    pub pllr: u32,
    /// Low-speed internal oscillator enable.
    pub lsion: bool,
    /// Low-speed internal oscillator ready flag.
    pub lsirdy: bool,
    /// Low-speed external crystal enable.
    pub lseon: bool,
    /// Low-speed external crystal ready flag.
    pub lserdy: bool,
    /// Real-time clock source selection, encoded.
    pub rtcsel: u32,
    /// Real-time clock enable.
    pub rtcen: bool,
}

/// Owner of the RCC register state.  All sequencing rules of the clock tree
/// are stated as contracts on its methods.
#[derive(Clone, Copy, Debug, PartialEq, Eq, Structural)]
pub struct Rcc {
    /// The register value store.
    pub registers: RccRegisters,
}

/// Iterations a readiness poll makes before giving up with a timeout.
pub const MAX_READY_POLLS: u32 = 1_000;

impl Rcc {
    /// Every encoded field holds a value its register field can represent:
    /// the multi-speed range fits its table and the PLL dividers sit in the
    /// chip's hardware ranges.
    pub open spec fn wf(self) -> bool {
        &&& self.registers.msirange <= 11
        &&& 1 <= self.registers.pllsrc <= 3
        &&& 1 <= self.registers.pllm <= 8
        &&& 6 <= self.registers.plln <= 127
        &&& 2 <= self.registers.pllp <= 32
        &&& 2 <= self.registers.pllq <= 8
        &&& 2 <= self.registers.pllr <= 8
        &&& self.registers.sw <= 3
        &&& self.registers.sws == self.registers.sw
    }

    /// The requested system-clock source is enabled and its ready flag set.
    pub open spec fn source_ready(self, source: SysClockSource) -> bool {
        match source {
            SysClockSource::MSI => self.registers.msion && self.registers.msirdy,
            SysClockSource::HSI16 => self.registers.hsion && self.registers.hsirdy,
            SysClockSource::HSE32 => self.registers.hseon && self.registers.hserdy,
            SysClockSource::PLLRCLK => self.registers.pllon && self.registers.pllrdy,
        }
    }

    /// The currently selected system-clock source, from the status field.
    pub open spec fn sys_clock_source_spec(self) -> SysClockSource {
        spec_sys_clock_source_of(self.registers.sws)
    }

    /// The given oscillator drives the system clock, directly or as the
    /// input of the running PLL: it must not be disabled.
    pub open spec fn osc_in_use(self, osc: PllSource) -> bool {
        ||| self.sys_clock_source_spec() == (match osc {
            PllSource::MSI => SysClockSource::MSI,
            PllSource::HSI16 => SysClockSource::HSI16,
            PllSource::HSE32 => SysClockSource::HSE32,
        })
        ||| (self.registers.pllon && spec_pll_source_of(self.registers.pllsrc) == osc)
    }

    /// Register state after reset followed by the default PLL programming:
    /// the multi-speed oscillator runs at 4 MHz and drives the system clock,
    /// and the PLL is disabled with its source set to the high-speed
    /// internal oscillator and every divider at a valid default.
    pub open spec fn spec_reset_state() -> RccRegisters {
        RccRegisters {
            msion: true,
            msirdy: true,
            msipllen: false,
            msirgsel: false,
            msirange: 6,
            hsion: false,
            hsikeron: false,
            hsirdy: false,
            hsiasfs: false,
            hsikerdy: false,
            hseon: false,
            hserdy: false,
            csson: false,
            hsepre: false,
            hsebyppwr: false,
            pllon: false,
            pllrdy: false,
            sw: 0,
            sws: 0,
            hpre: 0,
            ppre1: 0,
            ppre2: 0,
            pllsrc: 2,
            pllm: 1,
            plln: 8,
            pllpen: false,
            pllp: 2,
            pllqen: false,
            pllq: 2,
            pllren: false,
            pllr: 2,
            lsion: false,
            lsirdy: false,
            lseon: false,
            lserdy: false,
            rtcsel: 0,
            rtcen: false,
        }
    }

    /// A fresh controller in the documented reset state.
    pub fn new() -> (r: Self)
        ensures
            r.wf(),
            r.registers == Self::spec_reset_state(),
    {
        Rcc {
            registers: RccRegisters {
                msion: true,
                msirdy: true,
                msipllen: false,
                msirgsel: false,
                msirange: 6,
                hsion: false,
                hsikeron: false,
                hsirdy: false,
                hsiasfs: false,
                hsikerdy: false,
                hseon: false,
                hserdy: false,
                csson: false,
                hsepre: false,
                hsebyppwr: false,
                pllon: false,
                pllrdy: false,
                sw: 0,
                sws: 0,
                hpre: 0,
                ppre1: 0,
                ppre2: 0,
                pllsrc: 2,
                pllm: 1,
                plln: 8,
                pllpen: false,
                pllp: 2,
                pllqen: false,
                pllq: 2,
                pllren: false,
                pllr: 2,
                lsion: false,
                lsirdy: false,
                lseon: false,
                lserdy: false,
                rtcsel: 0,
                rtcen: false,
            },
        }
    }

    /// Enables or disables the high-speed external oscillator; the ready
    /// flag latches with the enable bit.  It must not be disabled while it
    /// drives the system clock.
    pub fn set_hse_enable(&mut self, enable: bool)
        requires
            !enable ==> !old(self).osc_in_use(PllSource::HSE32),
        ensures
            final(self).registers == (RccRegisters {
                hseon: enable,
                hserdy: enable,
                ..old(self).registers
            }),
            old(self).wf() ==> final(self).wf(),
    {
        self.registers = RccRegisters { hseon: enable, hserdy: enable, ..self.registers };
    }

    /// Whether the high-speed external oscillator is enabled.
    pub fn is_hse_enabled(&self) -> (r: bool)
        ensures
            r == self.registers.hseon,
    {
        self.registers.hseon
    }

    /// Whether the high-speed external oscillator is stable.
    pub fn is_hse_is_ready(&self) -> (r: bool)
        ensures
            r == self.registers.hserdy,
    {
        self.registers.hserdy
    }

    /// Enables or disables the clock security system on the high-speed
    /// external oscillator.
    pub fn set_hse_security_system_enable(&mut self, enable: bool)
        ensures
            final(self).registers == (RccRegisters { csson: enable, ..old(self).registers }),
            old(self).wf() ==> final(self).wf(),
    {
        self.registers.csson = enable;
    }

    /// Selects whether the system clock is pre-divided by two when driven by
    /// the high-speed external oscillator.
    pub fn set_hse_sysclock_prescaler_enable(&mut self, enable: bool)
        ensures
            final(self).registers == (RccRegisters { hsepre: enable, ..old(self).registers }),
            old(self).wf() ==> final(self).wf(),
    {
        self.registers.hsepre = enable;
    }

    /// Routes the TCXO supply to its dedicated output; only allowed while
    /// the high-speed external oscillator is disabled.
    pub fn set_hse_vddtcxo_output_enable(&mut self, enable: bool)
        requires
            !old(self).registers.hseon,
        ensures
            final(self).registers == (RccRegisters { hsebyppwr: enable, ..old(self).registers }),
            old(self).wf() ==> final(self).wf(),
    {
        self.registers.hsebyppwr = enable;
    }

    /// Enables or disables the high-speed internal oscillator; the ready
    /// flag latches with the enable bit.  It must not be disabled while it
    /// drives the system clock.
    pub fn set_hsi_enable(&mut self, enable: bool)
        requires
            !enable ==> !old(self).osc_in_use(PllSource::HSI16),
        ensures
            final(self).registers == (RccRegisters {
                hsion: enable,
                hsirdy: enable,
                ..old(self).registers
            }),
            old(self).wf() ==> final(self).wf(),
    {
        self.registers = RccRegisters { hsion: enable, hsirdy: enable, ..self.registers };
    }

    /// Whether the high-speed internal oscillator is enabled.
    pub fn is_hsi_enabled(&self) -> (r: bool)
        ensures
            r == self.registers.hsion,
    {
        self.registers.hsion
    }

    /// Whether the high-speed internal oscillator is stable.
    pub fn is_hsi_is_ready(&self) -> (r: bool)
        ensures
            r == self.registers.hsirdy,
    {
        self.registers.hsirdy
    }

    /// Forces the high-speed internal oscillator on in stop modes for
    /// peripherals that use it as their kernel clock; the kernel ready flag
    /// latches with it.
    pub fn set_hsi_kernel_clock_enable(&mut self, enable: bool)
        ensures
            final(self).registers == (RccRegisters {
                hsikeron: enable,
                hsikerdy: enable,
                ..old(self).registers
            }),
            old(self).wf() ==> final(self).wf(),
    {
        self.registers = RccRegisters { hsikeron: enable, hsikerdy: enable, ..self.registers };
    }

    /// Whether the high-speed internal oscillator kernel clock is enabled.
    pub fn is_hsi_kernel_clock_enabled(&self) -> (r: bool)
        ensures
            r == self.registers.hsikeron,
    {
        self.registers.hsikeron
    }

    /// Whether the high-speed internal oscillator kernel clock is stable.
    pub fn is_hsi_kernel_ready(&self) -> (r: bool)
        ensures
            r == self.registers.hsikerdy,
    {
        self.registers.hsikerdy
    }

    /// Selects automatic start of the high-speed internal oscillator when
    /// leaving stop mode.
    pub fn set_hsi_auto_start_from_stop_mode(&mut self, enable: bool)
        ensures
            final(self).registers == (RccRegisters { hsiasfs: enable, ..old(self).registers }),
            old(self).wf() ==> final(self).wf(),
    {
        self.registers.hsiasfs = enable;
    }

    /// Enables or disables the multi-speed internal oscillator; the ready
    /// flag latches with the enable bit.  It must not be disabled while it
    /// drives the system clock.
    pub fn set_msi_enable(&mut self, enable: bool)
        requires
            !enable ==> !old(self).osc_in_use(PllSource::MSI),
        ensures
            final(self).registers == (RccRegisters {
                msion: enable,
                msirdy: enable,
                ..old(self).registers
            }),
            old(self).wf() ==> final(self).wf(),
    {
        self.registers = RccRegisters { msion: enable, msirdy: enable, ..self.registers };
    }

    /// Whether the multi-speed internal oscillator is enabled.
    pub fn is_msi_enabled(&self) -> (r: bool)
        ensures
            r == self.registers.msion,
    {
        self.registers.msion
    }

    /// Whether the multi-speed internal oscillator is stable.
    pub fn is_msi_is_ready(&self) -> (r: bool)
        ensures
            r == self.registers.msirdy,
    {
        self.registers.msirdy
    }

    /// Selects the multi-speed oscillator range.  The field may only be
    /// changed while the oscillator is off or ready.
    pub fn set_msi_frequency(&mut self, msir_range: MsiRange)
        requires
            !old(self).registers.msion || old(self).registers.msirdy,
        ensures
            final(self).registers == (RccRegisters {
                msirange: msir_range.spec_register_value(),
                ..old(self).registers
            }),
            old(self).wf() ==> final(self).wf(),
    {
        self.registers.msirange = msir_range.register_value();
    }

    /// The currently selected multi-speed oscillator range.
    pub fn get_msi_frequency(&self) -> (r: MsiRange)
        requires
            self.wf(),
        ensures
            r == spec_msi_range_of(self.registers.msirange),
    {
        let v = self.registers.msirange;
        if v == 0 {
            MsiRange::Range100kHz
        } else if v == 1 {
            MsiRange::Range200kHz
        } else if v == 2 {
            MsiRange::Range400kHz
        } else if v == 3 {
            MsiRange::Range800kHz
        } else if v == 4 {
            MsiRange::Range1MHz
        } else if v == 5 {
            MsiRange::Range2MHz
        } else if v == 6 {
            MsiRange::Range4MHz
        } else if v == 7 {
            MsiRange::Range8MHz
        } else if v == 8 {
            MsiRange::Range16MHz
        } else if v == 9 {
            MsiRange::Range24MHz
        } else if v == 10 {
            MsiRange::Range32MHz
        } else {
            MsiRange::Range48MHz
        }
    }

    /// Locks the multi-speed oscillator to the low-speed external crystal;
    /// hardware accepts this only once that crystal is ready.
    pub fn set_msi_pll_enable(&mut self, enable: bool)
        requires
            enable ==> old(self).registers.lseon && old(self).registers.lserdy,
        ensures
            final(self).registers == (RccRegisters { msipllen: enable, ..old(self).registers }),
            old(self).wf() ==> final(self).wf(),
    {
        self.registers.msipllen = enable;
    }

    /// Whether the multi-speed oscillator is locked to the low-speed
    /// external crystal.
    pub fn is_msi_pll_enabled(&self) -> (r: bool)
        ensures
            r == self.registers.msipllen,
    {
        self.registers.msipllen
    }

    /// Takes the multi-speed oscillator range from the range register rather
    /// than the standby range field.
    pub fn set_msi_range_control_selection(&mut self)
        ensures
            final(self).registers == (RccRegisters { msirgsel: true, ..old(self).registers }),
            old(self).wf() ==> final(self).wf(),
    {
        self.registers.msirgsel = true;
    }

    /// Selects the multi-speed oscillator range; same field and rule as
    /// `set_msi_frequency`.
    pub fn set_msi_clock_range(&mut self, range: MsiRange)
        requires
            !old(self).registers.msion || old(self).registers.msirdy,
        ensures
            final(self).registers == (RccRegisters {
                msirange: range.spec_register_value(),
                ..old(self).registers
            }),
            old(self).wf() ==> final(self).wf(),
    {
        self.registers.msirange = range.register_value();
    }

    /// Enables or disables the low-speed internal oscillator; the ready flag
    /// latches with the enable bit.
    pub fn set_lsi_enable(&mut self, enable: bool)
        ensures
            final(self).registers == (RccRegisters {
                lsion: enable,
                lsirdy: enable,
                ..old(self).registers
            }),
            old(self).wf() ==> final(self).wf(),
    {
        self.registers = RccRegisters { lsion: enable, lsirdy: enable, ..self.registers };
    }

    /// Enables the low-speed internal oscillator.
    pub fn enable_lsi_clock(&mut self)
        ensures
            final(self).registers == (RccRegisters {
                lsion: true,
                lsirdy: true,
                ..old(self).registers
            }),
            old(self).wf() ==> final(self).wf(),
    {
        self.set_lsi_enable(true);
    }

    /// Whether the low-speed internal oscillator is enabled.
    pub fn is_lsi_clock_enabled(&self) -> (r: bool)
        ensures
            r == self.registers.lsion,
    {
        self.registers.lsion
    }

    /// Whether the low-speed internal oscillator is stable.
    pub fn is_lsi_clock_ready(&self) -> (r: bool)
        ensures
            r == self.registers.lsirdy,
    {
        self.registers.lsirdy
    }

    /// Enables or disables the low-speed external crystal; the ready flag
    /// latches with the enable bit.
    pub fn set_lse_enable(&mut self, enable: bool)
        ensures
            final(self).registers == (RccRegisters {
                lseon: enable,
                lserdy: enable,
                ..old(self).registers
            }),
            old(self).wf() ==> final(self).wf(),
    {
        self.registers = RccRegisters { lseon: enable, lserdy: enable, ..self.registers };
    }

    /// Whether the low-speed external crystal is enabled.
    pub fn is_lse_clock_enabled(&self) -> (r: bool)
        ensures
            r == self.registers.lseon,
    {
        self.registers.lseon
    }

    /// Whether the low-speed external crystal is stable.
    pub fn is_lse_clock_ready(&self) -> (r: bool)
        ensures
            r == self.registers.lserdy,
    {
        self.registers.lserdy
    }
}

impl Rcc {
    /// The currently selected PLL input source.
    pub fn get_pll_clocks_source(&self) -> (r: PllSource)
        requires
            self.wf(),
        ensures
            r == spec_pll_source_of(self.registers.pllsrc),
    {
        let v = self.registers.pllsrc;
        if v == 1 {
            PllSource::MSI
        } else if v == 2 {
            PllSource::HSI16
        } else {
            PllSource::HSE32
        }
    }

    /// Selects the PLL input source.  The PLL must be disabled.
    pub fn set_pll_clocks_source(&mut self, pll_source: PllSource)
        requires
            !old(self).registers.pllon,
        ensures
            final(self).registers == (RccRegisters {
                pllsrc: pll_source.spec_register_value(),
                ..old(self).registers
            }),
            old(self).wf() ==> final(self).wf(),
    {
        self.registers.pllsrc = pll_source.register_value();
    }

    /// Programs the pre-divider `M`; rejected outside the chip's range of
    /// one to eight.  The PLL must be disabled.
    pub fn set_pll_clocks_m_divider(&mut self, m: u8) -> (r: Result<(), PllError>)
        requires
            !old(self).registers.pllon,
        ensures
            1 <= m <= 8 ==> r is Ok && final(self).registers == (RccRegisters {
                pllm: m as u32,
                ..old(self).registers
            }),
            !(1 <= m <= 8) ==> r == Result::<(), PllError>::Err(PllError::OutOfRangeDivider)
                && *final(self) == *old(self),
            old(self).wf() ==> final(self).wf(),
    {
        if 1 <= m && m <= 8 {
            self.registers = RccRegisters { pllm: m as u32, ..self.registers };
            Result::Ok(())
        } else {
            Result::Err(PllError::OutOfRangeDivider)
        }
    }

    /// The programmed pre-divider `M`.
    pub fn get_pll_clocks_m_divider(&self) -> (r: u32)
        requires
            self.wf(),
        ensures
            r == self.registers.pllm,
            1 <= r <= 8,
    {
        self.registers.pllm
    }

    /// Programs the multiplier `N`; rejected outside the chip's range of six
    /// to 127.  The PLL must be disabled.
    pub fn set_pll_clock_n_multiplier(&mut self, n: u16) -> (r: Result<(), PllError>)
        requires
            !old(self).registers.pllon,
        ensures
            6 <= n <= 127 ==> r is Ok && final(self).registers == (RccRegisters {
                plln: n as u32,
                ..old(self).registers
            }),
            !(6 <= n <= 127) ==> r == Result::<(), PllError>::Err(PllError::OutOfRangeDivider)
                && *final(self) == *old(self),
            old(self).wf() ==> final(self).wf(),
    {
        if 6 <= n && n <= 127 {
            self.registers = RccRegisters { plln: n as u32, ..self.registers };
            Result::Ok(())
        } else {
            Result::Err(PllError::OutOfRangeDivider)
        }
    }

    /// The programmed multiplier `N`.
    pub fn get_pll_clock_n_multiplier(&self) -> (r: u32)
        requires
            self.wf(),
        ensures
            r == self.registers.plln,
            6 <= r <= 127,
    {
        self.registers.plln
    }

    /// Programs the `P` output divider; rejected outside the hardware range
    /// of two to 32.  The PLL must be disabled.
    pub fn set_pll_clock_p_divider(&mut self, p: u8) -> (r: Result<(), PllError>)
        requires
            !old(self).registers.pllon,
        ensures
            2 <= p <= 32 ==> r is Ok && final(self).registers == (RccRegisters {
                pllp: p as u32,
                ..old(self).registers
            }),
            !(2 <= p <= 32) ==> r == Result::<(), PllError>::Err(PllError::OutOfRangeDivider)
                && *final(self) == *old(self),
            old(self).wf() ==> final(self).wf(),
    {
        if 2 <= p && p <= 32 {
            self.registers = RccRegisters { pllp: p as u32, ..self.registers };
            Result::Ok(())
        } else {
            Result::Err(PllError::OutOfRangeDivider)
        }
    }

    /// The programmed `P` output divider.
    pub fn get_pll_clock_p_divider(&self) -> (r: u32)
        requires
            self.wf(),
        ensures
            r == self.registers.pllp,
            2 <= r <= 32,
    {
        self.registers.pllp
    }

    /// Programs the `Q` output divider; rejected outside the hardware range
    /// of two to eight.  The PLL must be disabled.
    pub fn set_pll_clock_q_divider(&mut self, q: u8) -> (r: Result<(), PllError>)
        requires
            !old(self).registers.pllon,
        ensures
            2 <= q <= 8 ==> r is Ok && final(self).registers == (RccRegisters {
                pllq: q as u32,
                ..old(self).registers
            }),
            !(2 <= q <= 8) ==> r == Result::<(), PllError>::Err(PllError::OutOfRangeDivider)
                && *final(self) == *old(self),
            old(self).wf() ==> final(self).wf(),
    {
        if 2 <= q && q <= 8 {
            self.registers = RccRegisters { pllq: q as u32, ..self.registers };
            Result::Ok(())
        } else {
            Result::Err(PllError::OutOfRangeDivider)
        }
    }

    /// The programmed `Q` output divider.
    pub fn _get_pll_clock_q_divider(&self) -> (r: u32)
        requires
            self.wf(),
        ensures
            r == self.registers.pllq,
            2 <= r <= 8,
    {
        self.registers.pllq
    }

    /// Programs the `R` output divider; rejected outside the hardware range
    /// of two to eight.  The PLL must be disabled.
    pub fn set_pll_clock_r_divider(&mut self, r_div: u8) -> (r: Result<(), PllError>)
        requires
            !old(self).registers.pllon,
        ensures
            2 <= r_div <= 8 ==> r is Ok && final(self).registers == (RccRegisters {
                pllr: r_div as u32,
                ..old(self).registers
            }),
            !(2 <= r_div <= 8) ==> r == Result::<(), PllError>::Err(PllError::OutOfRangeDivider)
                && *final(self) == *old(self),
            old(self).wf() ==> final(self).wf(),
    {
        if 2 <= r_div && r_div <= 8 {
            self.registers = RccRegisters { pllr: r_div as u32, ..self.registers };
            Result::Ok(())
        } else {
            Result::Err(PllError::OutOfRangeDivider)
        }
    }

    /// The programmed `R` output divider.
    pub fn get_pll_clock_r_divider(&self) -> (r: u32)
        requires
            self.wf(),
        ensures
            r == self.registers.pllr,
            2 <= r <= 8,
    {
        self.registers.pllr
    }

    /// Programs source, `M`, `N` and the three output dividers in one step.
    /// All values must be in range and the PLL disabled; nothing else of the
    /// register state changes.
    pub fn configure_pll(&mut self, pll_source: PllSource, m: u8, n: u16, p: u8, q: u8, r: u8)
        requires
            !old(self).registers.pllon,
            1 <= m <= 8,
            6 <= n <= 127,
            2 <= p <= 32,
            2 <= q <= 8,
            2 <= r <= 8,
        ensures
            final(self).registers == (RccRegisters {
                pllsrc: pll_source.spec_register_value(),
                pllm: m as u32,
                plln: n as u32,
                pllp: p as u32,
                pllq: q as u32,
                pllr: r as u32,
                ..old(self).registers
            }),
            final(self).wf() == (old(self).wf() || (old(self).registers.msirange <= 11
                && old(self).registers.sw <= 3 && old(self).registers.sws == old(
                self,
            ).registers.sw)),
    {
        self.set_pll_clocks_source(pll_source);
        let r1 = self.set_pll_clocks_m_divider(m);
        let r2 = self.set_pll_clock_n_multiplier(n);
        let r3 = self.set_pll_clock_p_divider(p);
        let r4 = self.set_pll_clock_q_divider(q);
        let r5 = self.set_pll_clock_r_divider(r);
    }

    /// Sets or clears the PLL enable bit; the lock-ready flag latches with
    /// it.  The PLL must not be disabled while its `R` output drives the
    /// system clock.
    pub fn set_pll_enable(&mut self, enable: bool)
        requires
            !enable ==> old(self).sys_clock_source_spec() != SysClockSource::PLLRCLK,
        ensures
            final(self).registers == (RccRegisters {
                pllon: enable,
                pllrdy: enable,
                ..old(self).registers
            }),
            old(self).wf() ==> final(self).wf(),
    {
        self.registers = RccRegisters { pllon: enable, pllrdy: enable, ..self.registers };
    }

    /// Whether the PLL is enabled.
    pub fn is_pll_clock_enabled(&self) -> (r: bool)
        ensures
            r == self.registers.pllon,
    {
        self.registers.pllon
    }

    /// Whether the PLL is locked.
    pub fn is_pll_ready(&self) -> (r: bool)
        ensures
            r == self.registers.pllrdy,
    {
        self.registers.pllrdy
    }

    /// Disables the PLL and polls, boundedly, until the lock flag clears.
    pub fn disable_pll_and_wait(&mut self) -> (r: Result<(), PllError>)
        requires
            old(self).sys_clock_source_spec() != SysClockSource::PLLRCLK,
        ensures
            r is Ok,
            final(self).registers == (RccRegisters {
                pllon: false,
                pllrdy: false,
                ..old(self).registers
            }),
            old(self).wf() ==> final(self).wf(),
    {
        self.set_pll_enable(false);
        let ghost settled = *self;
        let mut polls: u32 = 0;
        while self.registers.pllrdy && polls < MAX_READY_POLLS
            invariant
                *self == settled,
                polls <= MAX_READY_POLLS,
            decreases MAX_READY_POLLS - polls,
        {
            polls = polls + 1;
        }
        if self.registers.pllrdy {
            Result::Err(PllError::Timeout)
        } else {
            Result::Ok(())
        }
    }

    /// Polls, boundedly, until the PLL lock flag asserts; in this settled
    /// model the flag never changes during the poll, so the wait succeeds
    /// exactly when the PLL is already locked and otherwise reports a
    /// timeout.
    pub fn wait_pll_ready(&self) -> (r: Result<(), PllError>)
        ensures
            r is Ok <==> self.registers.pllrdy,
            r is Err ==> r == Result::<(), PllError>::Err(PllError::Timeout),
    {
        let mut polls: u32 = 0;
        while !self.registers.pllrdy && polls < MAX_READY_POLLS
            invariant
                polls <= MAX_READY_POLLS,
            decreases MAX_READY_POLLS - polls,
        {
            polls = polls + 1;
        }
        if self.registers.pllrdy {
            Result::Ok(())
        } else {
            Result::Err(PllError::Timeout)
        }
    }

    /// Sets the output-enable bit for each flagged output; an output once
    /// enabled stays enabled.  The PLL must be running and locked.
    pub fn enable_pll_outputs(&mut self, enable_p: bool, enable_q: bool, enable_r: bool)
        requires
            old(self).registers.pllon,
            old(self).registers.pllrdy,
        ensures
            final(self).registers == (RccRegisters {
                pllpen: old(self).registers.pllpen || enable_p,
                pllqen: old(self).registers.pllqen || enable_q,
                pllren: old(self).registers.pllren || enable_r,
                ..old(self).registers
            }),
            old(self).wf() ==> final(self).wf(),
    {
        self.registers = RccRegisters {
            pllpen: self.registers.pllpen || enable_p,
            pllqen: self.registers.pllqen || enable_q,
            pllren: self.registers.pllren || enable_r,
            ..self.registers
        };
    }

    /// Writes the system-clock selector; the status field settles at once in
    /// this model.  The chosen source must already be enabled and ready, and
    /// the flash wait states must have been widened beforehand when the
    /// switch raises the frequency.
    pub fn set_sys_clock_source(&mut self, source: SysClockSource)
        requires
            old(self).source_ready(source),
        ensures
            final(self).registers == (RccRegisters {
                sw: source.spec_register_value(),
                sws: source.spec_register_value(),
                ..old(self).registers
            }),
            final(self).sys_clock_source_spec() == source,
            old(self).wf() ==> final(self).wf(),
    {
        let v = source.register_value();
        self.registers = RccRegisters { sw: v, sws: v, ..self.registers };
    }

    /// The system-clock source currently reported by the status field.
    pub fn get_sys_clock_source(&self) -> (r: SysClockSource)
        ensures
            r == self.sys_clock_source_spec(),
    {
        let v = self.registers.sws;
        if v == 0 {
            SysClockSource::MSI
        } else if v == 1 {
            SysClockSource::HSI16
        } else if v == 2 {
            SysClockSource::HSE32
        } else {
            SysClockSource::PLLRCLK
        }
    }

    /// Whether the multi-speed oscillator drives the system clock, directly
    /// or as the input of the selected PLL.
    pub fn is_msi_clock_system_clock(&self) -> (r: bool)
        requires
            self.wf(),
        ensures
            r == (self.sys_clock_source_spec() == SysClockSource::MSI || (
            self.sys_clock_source_spec() == SysClockSource::PLLRCLK && spec_pll_source_of(
                self.registers.pllsrc,
            ) == PllSource::MSI)),
    {
        let source = self.get_sys_clock_source();
        source == SysClockSource::MSI || (source == SysClockSource::PLLRCLK
            && self.get_pll_clocks_source() == PllSource::MSI)
    }

    /// Whether the high-speed internal oscillator drives the system clock,
    /// directly or as the input of the selected PLL.
    pub fn is_hsi_clock_system_clock(&self) -> (r: bool)
        requires
            self.wf(),
        ensures
            r == (self.sys_clock_source_spec() == SysClockSource::HSI16 || (
            self.sys_clock_source_spec() == SysClockSource::PLLRCLK && spec_pll_source_of(
                self.registers.pllsrc,
            ) == PllSource::HSI16)),
    {
        let source = self.get_sys_clock_source();
        source == SysClockSource::HSI16 || (source == SysClockSource::PLLRCLK
            && self.get_pll_clocks_source() == PllSource::HSI16)
    }

    /// Whether the high-speed external oscillator drives the system clock,
    /// directly or as the input of the selected PLL.
    pub fn is_hse_clock_system_clock(&self) -> (r: bool)
        requires
            self.wf(),
        ensures
            r == (self.sys_clock_source_spec() == SysClockSource::HSE32 || (
            self.sys_clock_source_spec() == SysClockSource::PLLRCLK && spec_pll_source_of(
                self.registers.pllsrc,
            ) == PllSource::HSE32)),
    {
        let source = self.get_sys_clock_source();
        source == SysClockSource::HSE32 || (source == SysClockSource::PLLRCLK
            && self.get_pll_clocks_source() == PllSource::HSE32)
    }

    /// Selects the AHB prescaler.
    pub fn set_ahb_prescaler(&mut self, ahb_prescaler: AHBPrescaler)
        ensures
            final(self).registers == (RccRegisters {
                hpre: ahb_prescaler.spec_register_value(),
                ..old(self).registers
            }),
            old(self).wf() ==> final(self).wf(),
    {
        self.registers.hpre = ahb_prescaler.register_value();
    }

    /// The currently selected AHB prescaler; reserved codes read as no
    /// division.
    pub fn get_ahb_prescaler(&self) -> (r: AHBPrescaler)
        ensures
            r == spec_ahb_prescaler_of(self.registers.hpre),
    {
        let v = self.registers.hpre;
        if v == 0b0001 {
            AHBPrescaler::Div3
        } else if v == 0b0010 {
            AHBPrescaler::Div5
        } else if v == 0b0101 {
            AHBPrescaler::Div6
        } else if v == 0b0110 {
            AHBPrescaler::Div10
        } else if v == 0b0111 {
            AHBPrescaler::Div32
        } else if v == 0b1000 {
            AHBPrescaler::Div2
        } else if v == 0b1001 {
            AHBPrescaler::Div4
        } else if v == 0b1010 {
            AHBPrescaler::Div8
        } else if v == 0b1011 {
            AHBPrescaler::Div16
        } else if v == 0b1100 {
            AHBPrescaler::Div64
        } else if v == 0b1101 {
            AHBPrescaler::Div128
        } else if v == 0b1110 {
            AHBPrescaler::Div256
        } else if v == 0b1111 {
            AHBPrescaler::Div512
        } else {
            AHBPrescaler::Div1
        }
    }

    /// Selects the APB1 prescaler.
    pub fn set_apb1_prescaler(&mut self, apb1_prescaler: APBPrescaler)
        ensures
            final(self).registers == (RccRegisters {
                ppre1: apb1_prescaler.spec_register_value(),
                ..old(self).registers
            }),
            old(self).wf() ==> final(self).wf(),
    {
        self.registers.ppre1 = apb1_prescaler.register_value();
    }

    /// The currently selected APB1 prescaler; codes with a clear top bit
    /// read as no division.
    pub fn get_apb1_prescaler(&self) -> (r: APBPrescaler)
        ensures
            r == spec_apb_prescaler_of(self.registers.ppre1),
    {
        let v = self.registers.ppre1;
        if v == 0b100 {
            APBPrescaler::Div2
        } else if v == 0b101 {
            APBPrescaler::Div4
        } else if v == 0b110 {
            APBPrescaler::Div8
        } else if v == 0b111 {
            APBPrescaler::Div16
        } else {
            APBPrescaler::Div1
        }
    }

    /// Selects the APB2 prescaler.
    pub fn set_apb2_prescaler(&mut self, apb2_prescaler: APBPrescaler)
        ensures
            final(self).registers == (RccRegisters {
                ppre2: apb2_prescaler.spec_register_value(),
                ..old(self).registers
            }),
            old(self).wf() ==> final(self).wf(),
    {
        self.registers.ppre2 = apb2_prescaler.register_value();
    }

    /// The currently selected APB2 prescaler; codes with a clear top bit
    /// read as no division.
    pub fn get_apb2_prescaler(&self) -> (r: APBPrescaler)
        ensures
            r == spec_apb_prescaler_of(self.registers.ppre2),
    {
        let v = self.registers.ppre2;
        if v == 0b100 {
            APBPrescaler::Div2
        } else if v == 0b101 {
            APBPrescaler::Div4
        } else if v == 0b110 {
            APBPrescaler::Div8
        } else if v == 0b111 {
            APBPrescaler::Div16
        } else {
            APBPrescaler::Div1
        }
    }

    /// Encoding of a real-time clock source selection.
    pub open spec fn spec_rtc_source_value(source: RtcClockSource) -> u32 {
        match source {
            RtcClockSource::LSE => 1,
            RtcClockSource::LSI => 2,
            RtcClockSource::HSE32 => 3,
        }
    }

    /// Encoding of a real-time clock source selection.
    #[verifier::when_used_as_spec(spec_rtc_source_value)]
    pub fn source_into_u32(source: RtcClockSource) -> (r: u32)
        ensures
            r == Self::spec_rtc_source_value(source),
    {
        match source {
            RtcClockSource::LSE => 1,
            RtcClockSource::LSI => 2,
            RtcClockSource::HSE32 => 3,
        }
    }

    /// Enables the low-speed internal oscillator, polls its enable bit
    /// boundedly, then selects the clock source and enables the real-time
    /// clock.
    pub fn enable_rtc_clock(&mut self, source: RtcClockSource) -> (r: Result<(), PllError>)
        ensures
            r is Ok,
            final(self).registers == (RccRegisters {
                lsion: true,
                lsirdy: true,
                rtcsel: Self::spec_rtc_source_value(source),
                rtcen: true,
                ..old(self).registers
            }),
            old(self).wf() ==> final(self).wf(),
    {
        self.enable_lsi_clock();
        let ghost settled = *self;
        let mut polls: u32 = 0;
        while !self.registers.lsion && polls < MAX_READY_POLLS
            invariant
                *self == settled,
                polls <= MAX_READY_POLLS,
            decreases MAX_READY_POLLS - polls,
        {
            polls = polls + 1;
        }
        if !self.registers.lsion {
            return Result::Err(PllError::Timeout);
        }
        let source_num = Rcc::source_into_u32(source);
        self.registers = RccRegisters { rtcsel: source_num, rtcen: true, ..self.registers };
        Result::Ok(())
    }

    /// Disables the real-time clock and clears its source selection.
    pub fn disable_rtc_clock(&mut self)
        ensures
            final(self).registers == (RccRegisters {
                rtcen: false,
                rtcsel: 0,
                ..old(self).registers
            }),
            old(self).wf() ==> final(self).wf(),
    {
        self.registers = RccRegisters { rtcen: false, rtcsel: 0, ..self.registers };
    }
}

} // verus!
