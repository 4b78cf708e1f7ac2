//! High-level clock controller: owns the register state and the PLL
//! controller, switches the system clock safely, and derives bus
//! frequencies.

use vstd::prelude::*;

verus! {

use crate::chip_specs::ChipSpecs;
use crate::clock_constants::SystemClockConstants;
use crate::pll::HSE_FREQUENCY_MHZ;
use crate::pll::HSI_FREQUENCY_MHZ;
use crate::pll::Pll;
use crate::pll::PllError;
use crate::rcc::AHBPrescaler;
use crate::rcc::Rcc;
use crate::rcc::RccRegisters;
use crate::rcc::SysClockSource;
use crate::rcc::spec_ahb_prescaler_of;
use crate::rcc::spec_apb_prescaler_of;
use crate::rcc::spec_msi_range_of;

/// Main structure for configuring the on-board clocks: the register state,
/// the PLL controller, and the chip's bus-frequency ceilings.
#[derive(Clone, Copy, Debug, PartialEq, Eq, Structural)]
pub struct Clocks {
    /// The reset-and-clock-control register state.
    pub rcc: Rcc,
    /// The PLL controller with its cached output frequencies.
    pub pll: Pll,
    /// The chip's system and bus frequency ceilings.
    pub sys_constants: SystemClockConstants,
}

impl Clocks {
    /// Register state, PLL state and ceilings are all coherent.
    pub open spec fn wf(self) -> bool {
        self.rcc.wf() && self.pll.wf() && self.sys_constants.wf()
    }

    /// Builds the controller around a register state and the chip-variant
    /// configuration, with nothing committed on the PLL yet.
    pub fn new(rcc: Rcc, specs: ChipSpecs) -> (r: Self)
        requires
            rcc.wf(),
            specs.wf(),
        ensures
            r.wf(),
            r.rcc == rcc,
            r.pll == Pll::new_spec(specs.clocks.pll),
            r.sys_constants == specs.clocks.sys,
    {
        Clocks { rcc, pll: Pll::new(specs.clocks.pll), sys_constants: specs.clocks.sys }
    }

    /// The currently configured AHB prescaler.
    pub fn get_ahb_prescaler(&self) -> (r: AHBPrescaler)
        ensures
            r == spec_ahb_prescaler_of(self.rcc.registers.hpre),
    {
        self.rcc.get_ahb_prescaler()
    }

    /// The current system clock source.
    pub fn get_sys_clock_source(&self) -> (r: SysClockSource)
        ensures
            r == self.rcc.sys_clock_source_spec(),
    {
        self.rcc.get_sys_clock_source()
    }

    /// The frequency, in MHz, the given source would supply as system
    /// clock: the oscillators' nominal or selected frequency, or the PLL's
    /// cached `R` output.
    pub open spec fn spec_source_frequency_mhz(self, source: SysClockSource) -> usize {
        match source {
            SysClockSource::HSI16 => HSI_FREQUENCY_MHZ,
            SysClockSource::HSE32 => HSE_FREQUENCY_MHZ,
            SysClockSource::MSI => (spec_msi_range_of(
                self.rcc.registers.msirange,
            ).spec_frequency_hz() / 1_000_000) as usize,
            SysClockSource::PLLRCLK => self.pll.pllr_frequency_mhz,
        }
    }

    /// The frequency of the currently selected system clock source.
    pub open spec fn spec_sys_clock_frequency_mhz(self) -> usize {
        self.spec_source_frequency_mhz(self.rcc.sys_clock_source_spec())
    }

    /// The frequency, in MHz, the given source would supply as system
    /// clock.
    pub fn source_frequency_mhz(&self, source: SysClockSource) -> (r: usize)
        requires
            self.wf(),
        ensures
            r == self.spec_source_frequency_mhz(source),
            r <= 4_000,
    {
        match source {
            SysClockSource::HSI16 => HSI_FREQUENCY_MHZ,
            SysClockSource::HSE32 => HSE_FREQUENCY_MHZ,
            SysClockSource::MSI => self.rcc.get_msi_frequency().frequency_mhz() as usize,
            SysClockSource::PLLRCLK => self.pll.pllr_frequency_mhz,
        }
    }

    /// The current system clock frequency in MHz, derived from the selected
    /// source: an oscillator's configured frequency, or the PLL's cached
    /// `R`-output frequency when the PLL drives the system clock.
    pub fn get_sys_clock_frequency_mhz(&self) -> (r: usize)
        requires
            self.wf(),
        ensures
            r == self.spec_sys_clock_frequency_mhz(),
            r <= 4_000,
    {
        let source = self.get_sys_clock_source();
        self.source_frequency_mhz(source)
    }

    /// The current AHB frequency in MHz: the system clock divided by the
    /// AHB prescaler.
    pub fn get_ahb_frequency_mhz(&self) -> (r: usize)
        requires
            self.wf(),
        ensures
            r == self.spec_sys_clock_frequency_mhz() / spec_ahb_prescaler_of(
                self.rcc.registers.hpre,
            ).spec_divisor(),
            r <= 4_000,
    {
        let sys = self.get_sys_clock_frequency_mhz();
        let ahb_divider: usize = self.get_ahb_prescaler().divisor();
        proof {
            vstd::arithmetic::div_mod::lemma_div_nonincreasing(sys as int, ahb_divider as int);
        }
        sys / ahb_divider
    }

    /// The current APB1 frequency in MHz: the AHB clock divided by the APB1
    /// prescaler.
    pub fn get_apb1_frequency_mhz(&self) -> (r: usize)
        requires
            self.wf(),
        ensures
            r == self.spec_sys_clock_frequency_mhz() / spec_ahb_prescaler_of(
                self.rcc.registers.hpre,
            ).spec_divisor() / spec_apb_prescaler_of(self.rcc.registers.ppre1).spec_divisor(),
            r <= 4_000,
    {
        let ahb = self.get_ahb_frequency_mhz();
        let apb_divider: usize = self.rcc.get_apb1_prescaler().divisor();
        proof {
            vstd::arithmetic::div_mod::lemma_div_nonincreasing(ahb as int, apb_divider as int);
        }
        ahb / apb_divider
    }

    /// The current APB2 frequency in MHz: the AHB clock divided by the APB2
    /// prescaler.
    pub fn get_apb2_frequency_mhz(&self) -> (r: usize)
        requires
            self.wf(),
        ensures
            r == self.spec_sys_clock_frequency_mhz() / spec_ahb_prescaler_of(
                self.rcc.registers.hpre,
            ).spec_divisor() / spec_apb_prescaler_of(self.rcc.registers.ppre2).spec_divisor(),
            r <= 4_000,
    {
        let ahb = self.get_ahb_frequency_mhz();
        let apb_divider: usize = self.rcc.get_apb2_prescaler().divisor();
        proof {
            vstd::arithmetic::div_mod::lemma_div_nonincreasing(ahb as int, apb_divider as int);
        }
        ahb / apb_divider
    }

    /// Solves for the requested PLL targets and commits the solution on
    /// this controller's register state; afterwards the frequency queries
    /// answer from the cached achieved frequencies.  Succeeds exactly when
    /// some divider combination satisfies every requested output within the
    /// tolerance; otherwise nothing changes.
    pub fn configure_pll_from_targets_mhz(
        &mut self,
        source: crate::rcc::PllSource,
        target_p_mhz: Option<usize>,
        target_q_mhz: Option<usize>,
        target_r_mhz: Option<usize>,
        max_ppm_error: u32,
    ) -> (r: Result<(), PllError>)
        requires
            old(self).wf(),
            old(self).rcc.sys_clock_source_spec() != SysClockSource::PLLRCLK,
            target_p_mhz matches Some(t) ==> 1 <= t <= crate::pll::MAX_INPUT_MHZ,
            target_q_mhz matches Some(t) ==> 1 <= t <= crate::pll::MAX_INPUT_MHZ,
            target_r_mhz matches Some(t) ==> 1 <= t <= crate::pll::MAX_INPUT_MHZ,
        ensures
            final(self).wf(),
            final(self).sys_constants == old(self).sys_constants,
            r is Ok <==> exists|k: crate::pll::PllCandidate|
                crate::pll::cand_valid(
                    old(self).pll.constants,
                    crate::pll::spec_source_freq_mhz(old(self).rcc, source),
                    target_p_mhz,
                    target_q_mhz,
                    target_r_mhz,
                    max_ppm_error,
                    k,
                ),
            r is Err ==> r == Result::<(), PllError>::Err(PllError::NoSolution) && *final(self)
                == *old(self),
            r is Ok ==> exists|sol: crate::pll::PllSolution|
                #[trigger] crate::pll::solver_post(
                    old(self).pll.constants,
                    crate::pll::spec_source_freq_mhz(old(self).rcc, source),
                    target_p_mhz,
                    target_q_mhz,
                    target_r_mhz,
                    max_ppm_error,
                    Option::Some(sol),
                ) && crate::pll::committed(
                    old(self).pll,
                    old(self).rcc,
                    final(self).pll,
                    final(self).rcc,
                    source,
                    sol,
                ),
    {
        self.pll.configure_from_targets_mhz(
            &mut self.rcc,
            source,
            target_p_mhz,
            target_q_mhz,
            target_r_mhz,
            max_ppm_error,
        )
    }

    /// Switches the system clock to the given source.  Rejected, before any
    /// register write, unless the source is enabled and ready and its
    /// frequency respects the chip's system-clock ceiling.  The flash wait
    /// states must be widened before a frequency-raising switch and may be
    /// narrowed after a frequency-lowering one; that ordering is the
    /// caller's contract with the flash collaborator.
    pub fn set_sys_clock_source(&mut self, source: SysClockSource) -> (r: Result<(), PllError>)
        requires
            old(self).wf(),
        ensures
            final(self).wf(),
            ({
                let accepted = old(self).rcc.source_ready(source) && old(
                    self,
                ).spec_source_frequency_mhz(source) <= old(
                    self,
                ).sys_constants.sys_clock_frequency_limit_mhz;
                &&& (r is Ok <==> accepted)
                &&& (!accepted ==> r == Result::<(), PllError>::Err(PllError::InvalidSource)
                    && *final(self) == *old(self))
            }),
            r is Ok ==> final(self).rcc.registers == (RccRegisters {
                sw: source.spec_register_value(),
                sws: source.spec_register_value(),
                ..old(self).rcc.registers
            }) && final(self).pll == old(self).pll && final(self).sys_constants == old(
                self,
            ).sys_constants,
    {
        let ready = match source {
            SysClockSource::MSI => self.rcc.is_msi_enabled() && self.rcc.is_msi_is_ready(),
            SysClockSource::HSI16 => self.rcc.is_hsi_enabled() && self.rcc.is_hsi_is_ready(),
            SysClockSource::HSE32 => self.rcc.is_hse_enabled() && self.rcc.is_hse_is_ready(),
            SysClockSource::PLLRCLK => self.rcc.is_pll_clock_enabled() && self.rcc.is_pll_ready(),
        };
        if !ready {
            return Result::Err(PllError::InvalidSource);
        }
        let freq = self.source_frequency_mhz(source);
        if freq > self.sys_constants.sys_clock_frequency_limit_mhz {
            return Result::Err(PllError::InvalidSource);
        }
        self.rcc.set_sys_clock_source(source);
        Result::Ok(())
    }
}

/// Read-only clock queries other subsystems consume.
pub trait Stm32wl5xClocks {
    /// The implementor's clock state is coherent.
    spec fn wf_clocks(&self) -> bool;

    /// The AHB frequency, in Hz, the implementor reports.
    spec fn spec_ahb_frequency_hz(&self) -> usize;

    /// Borrows the RCC register state.
    fn get_rcc(&self) -> &Rcc;

    /// The current AHB clock frequency in Hz.
    fn get_ahb_frequency(&self) -> (r: usize)
        requires
            self.wf_clocks(),
        ensures
            r == self.spec_ahb_frequency_hz(),
    ;
}

impl Stm32wl5xClocks for Clocks {
    open spec fn wf_clocks(&self) -> bool {
        self.wf()
    }

    open spec fn spec_ahb_frequency_hz(&self) -> usize {
        ((self.spec_sys_clock_frequency_mhz() / spec_ahb_prescaler_of(
            self.rcc.registers.hpre,
        ).spec_divisor()) * 1_000_000) as usize
    }

    fn get_rcc(&self) -> &Rcc {
        &self.rcc
    }

    fn get_ahb_frequency(&self) -> (r: usize) {
        let mhz = self.get_ahb_frequency_mhz();
        mhz * 1_000_000
    }
}

} // verus!
