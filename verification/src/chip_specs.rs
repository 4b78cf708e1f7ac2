//! Bundle of all chip-specific configuration the clock controller consumes.

use vstd::prelude::*;

verus! {

use crate::clock_constants::ClockConstants;

/// The chip-variant configuration value handed to the clock controller:
/// clock bounds here, flash timing through the `FlashChipSpecific` trait.
#[derive(Clone, Copy, Debug, PartialEq, Eq, Structural)]
pub struct ChipSpecs {
    /// Clock and PLL capability bounds.
    pub clocks: ClockConstants,
}

impl ChipSpecs {
    /// The clock bounds are coherent.
    pub open spec fn wf(self) -> bool {
        self.clocks.wf()
    }

    /// The configuration of the STM32WL55 as a specification-level value.
    pub open spec fn spec_stm32wl55() -> Self {
        ChipSpecs { clocks: ClockConstants::spec_stm32wl55() }
    }

    /// The configuration of the STM32WL55.
    #[verifier::when_used_as_spec(spec_stm32wl55)]
    pub fn stm32wl55() -> (r: Self)
        ensures
            r == Self::spec_stm32wl55(),
            r.wf(),
    {
        ChipSpecs { clocks: ClockConstants::stm32wl55() }
    }
}

} // verus!
