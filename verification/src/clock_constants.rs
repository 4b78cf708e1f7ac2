//! Per-chip-variant numeric clock bounds, supplied as explicit configuration
//! values and never mutated at runtime.

use vstd::prelude::*;

verus! {

/// PLL capability bounds for one chip variant: the VCO input window, the
/// allowed divider/multiplier ranges (inclusive on both ends) and the
/// per-output frequency ceilings.
#[derive(Clone, Copy, Debug, PartialEq, Eq, Structural)]
pub struct PllConstants {
    /// Lowest frequency, in kHz, the VCO accepts at its input.
    pub vco_in_min_khz: u32,
    /// The VCO input must stay strictly below this frequency, in kHz.
    pub vco_in_max_khz: u32,
    /// Smallest allowed pre-divider `M`.
    pub m_min: u8,
    /// Largest allowed pre-divider `M`.
    pub m_max: u8,
    /// Smallest allowed multiplier `N`.
    pub n_min: u16,
    /// Largest allowed multiplier `N`.
    pub n_max: u16,
    /// Smallest allowed `P` output divider.
    pub p_min: u8,
    /// Largest allowed `P` output divider.
    pub p_max: u8,
    /// Smallest allowed `Q` output divider.
    pub q_min: u8,
    /// Largest allowed `Q` output divider.
    pub q_max: u8,
    /// Smallest allowed `R` output divider.
    pub r_min: u8,
    /// Largest allowed `R` output divider.
    pub r_max: u8,
    /// Ceiling, in MHz, for the `P` output.
    pub p_max_mhz: u32,
    /// Ceiling, in MHz, for the `Q` and `R` outputs.
    pub qr_max_mhz: u32,
}

impl PllConstants {
    /// The bounds are coherent: every range is non-empty, every range fits the
    /// chip's register fields, and the magnitudes are small enough that the
    /// solver's intermediate products fit in 64 bits.
    pub open spec fn wf(self) -> bool {
        &&& 1 <= self.m_min <= self.m_max <= 8
        &&& 6 <= self.n_min <= self.n_max <= 127
        &&& 2 <= self.p_min <= self.p_max <= 32
        &&& 2 <= self.q_min <= self.q_max <= 8
        &&& 2 <= self.r_min <= self.r_max <= 8
        &&& 0 < self.vco_in_min_khz <= self.vco_in_max_khz <= 1_000_000
        &&& 0 < self.p_max_mhz <= 4_000
        &&& 0 < self.qr_max_mhz <= 4_000
    }

    /// The PLL bounds of the STM32WL55 as a specification-level value.
    pub open spec fn spec_stm32wl55() -> Self {
        PllConstants {
            vco_in_min_khz: 2_660,
            vco_in_max_khz: 16_000,
            m_min: 1,
            m_max: 8,
            n_min: 6,
            n_max: 127,
            p_min: 2,
            p_max: 8,
            q_min: 2,
            q_max: 8,
            r_min: 2,
            r_max: 8,
            p_max_mhz: 62,
            qr_max_mhz: 48,
        }
    }

    /// PLL bounds of the STM32WL55: VCO input window 2.66..16 MHz, `M` in
    /// 1..=8, `N` in 6..=127, output dividers in 2..=8 (`P` also 2..=8 here,
    /// the hardware field would accept up to 32), `P` output capped at 62 MHz
    /// and `Q`/`R` outputs capped at 48 MHz.
    #[verifier::when_used_as_spec(spec_stm32wl55)]
    pub fn stm32wl55() -> (r: Self)
        ensures
            r == Self::spec_stm32wl55(),
            r.wf(),
    {
        PllConstants {
            vco_in_min_khz: 2_660,
            vco_in_max_khz: 16_000,
            m_min: 1,
            m_max: 8,
            n_min: 6,
            n_max: 127,
            p_min: 2,
            p_max: 8,
            q_min: 2,
            q_max: 8,
            r_min: 2,
            r_max: 8,
            p_max_mhz: 62,
            qr_max_mhz: 48,
        }
    }
}

/// System-clock and bus-frequency ceilings for one chip variant.
#[derive(Clone, Copy, Debug, PartialEq, Eq, Structural)]
pub struct SystemClockConstants {
    /// Maximum allowed APB1 frequency in MHz.
    pub apb1_frequency_limit_mhz: usize,
    /// Maximum allowed APB2 frequency in MHz.
    pub apb2_frequency_limit_mhz: usize,
    /// Maximum allowed APB3 (radio sub-GHz bus) frequency in MHz.
    pub apb3_frequency_limit_mhz: usize,
    /// Maximum allowed system clock frequency in MHz.
    pub sys_clock_frequency_limit_mhz: usize,
}

impl SystemClockConstants {
    /// Every ceiling is positive and small enough that a conversion of a
    /// frequency below it from MHz to Hz fits in 32 bits.
    pub open spec fn wf(self) -> bool {
        &&& 0 < self.apb1_frequency_limit_mhz <= 4_000
        &&& 0 < self.apb2_frequency_limit_mhz <= 4_000
        &&& 0 < self.apb3_frequency_limit_mhz <= 4_000
        &&& 0 < self.sys_clock_frequency_limit_mhz <= 4_000
    }

    /// The bus ceilings of the STM32WL55 as a specification-level value.
    pub open spec fn spec_stm32wl55() -> Self {
        SystemClockConstants {
            apb1_frequency_limit_mhz: 48,
            apb2_frequency_limit_mhz: 48,
            apb3_frequency_limit_mhz: 48,
            sys_clock_frequency_limit_mhz: 48,
        }
    }

    /// Bus ceilings of the STM32WL55: every bus domain is capped at 48 MHz.
    #[verifier::when_used_as_spec(spec_stm32wl55)]
    pub fn stm32wl55() -> (r: Self)
        ensures
            r == Self::spec_stm32wl55(),
            r.wf(),
    {
        SystemClockConstants {
            apb1_frequency_limit_mhz: 48,
            apb2_frequency_limit_mhz: 48,
            apb3_frequency_limit_mhz: 48,
            sys_clock_frequency_limit_mhz: 48,
        }
    }
}

/// All clock bounds of one chip variant.
#[derive(Clone, Copy, Debug, PartialEq, Eq, Structural)]
pub struct ClockConstants {
    /// PLL capability bounds.
    pub pll: PllConstants,
    /// System-clock and bus ceilings.
    pub sys: SystemClockConstants,
}

impl ClockConstants {
    /// Both halves are coherent.
    pub open spec fn wf(self) -> bool {
        self.pll.wf() && self.sys.wf()
    }

    /// The full clock bounds of the STM32WL55 as a specification-level value.
    pub open spec fn spec_stm32wl55() -> Self {
        ClockConstants {
            pll: PllConstants::spec_stm32wl55(),
            sys: SystemClockConstants::spec_stm32wl55(),
        }
    }

    /// The full clock bounds of the STM32WL55.
    #[verifier::when_used_as_spec(spec_stm32wl55)]
    pub fn stm32wl55() -> (r: Self)
        ensures
            r == Self::spec_stm32wl55(),
            r.wf(),
    {
        ClockConstants { pll: PllConstants::stm32wl55(), sys: SystemClockConstants::stm32wl55() }
    }
}

} // verus!
