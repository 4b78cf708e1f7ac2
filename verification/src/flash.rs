//! Flash wait-state interface.
//!
//! The clock controller consumes this as `frequency -> wait-state count`:
//! before a frequency-raising system-clock switch the wait states must be
//! widened, after a frequency-lowering one they may be narrowed.  The table
//! itself is chip-specific data supplied by the flash collaborator.

use vstd::prelude::*;

verus! {

/// Chip-specific flash timing: the latency type and the wait-cycle table.
/// The supply voltage is assumed to be in the default 2.7 V to 3.6 V band.
pub trait FlashChipSpecific {
    /// The chip's flash latency encoding.
    type FlashLatency: RegisterToFlashLatency;

    /// The number of wait cycles the flash needs at the given clock
    /// frequency.
    fn get_number_wait_cycles_based_on_frequency(frequency_mhz: usize) -> Self::FlashLatency;
}

/// Decoding of a flash latency register value into the latency type.
pub trait RegisterToFlashLatency {
    /// The latency the given register value denotes.
    fn convert_register_to_enum(flash_latency_register: u32) -> Self where Self: core::marker::Sized;
}

/// Flash wait-state counts of a part with three latency settings; refer to
/// the reference manual's table of wait states by flash clock frequency.
#[derive(Copy, Clone, PartialEq, Eq, Structural, Debug)]
pub enum FlashLatency3 {
    /// No wait state.
    Latency0,
    /// One wait state.
    Latency1,
    /// Two wait states.
    Latency2,
}

impl FlashLatency3 {
    /// The number of wait states this latency setting stands for.
    pub open spec fn spec_wait_cycles(self) -> u32 {
        match self {
            FlashLatency3::Latency0 => 0,
            FlashLatency3::Latency1 => 1,
            FlashLatency3::Latency2 => 2,
        }
    }

    /// The latency a register value denotes: zero and one map to their
    /// settings, every larger value to the widest.
    pub open spec fn spec_of_register(flash_latency_register: u32) -> FlashLatency3 {
        if flash_latency_register == 0 {
            FlashLatency3::Latency0
        } else if flash_latency_register == 1 {
            FlashLatency3::Latency1
        } else {
            FlashLatency3::Latency2
        }
    }
}

impl RegisterToFlashLatency for FlashLatency3 {
    /// The latency the given register value denotes.
    fn convert_register_to_enum(flash_latency_register: u32) -> Self {
        match flash_latency_register {
            0 => Self::Latency0,
            1 => Self::Latency1,
            _ => Self::Latency2,
        }
    }
}

impl From<FlashLatency3> for u32 {
    /// The wait-state count of the latency setting.
    fn from(val: FlashLatency3) -> (r: u32) {
        match val {
            FlashLatency3::Latency0 => 0,
            FlashLatency3::Latency1 => 1,
            FlashLatency3::Latency2 => 2,
        }
    }
}

impl vstd::std_specs::convert::FromSpecImpl<FlashLatency3> for u32 {
    open spec fn obeys_from_spec() -> bool {
        true
    }

    open spec fn from_spec(val: FlashLatency3) -> u32 {
        val.spec_wait_cycles()
    }
}

} // verus!
