//! Clock-tree controller for the STM32WL5x reset-and-clock-control (RCC) unit.
//!
//! The crate models the RCC register state as an explicit in-memory value
//! store, solves for integer PLL divider/multiplier sets that hit requested
//! output frequencies within a parts-per-million tolerance, sequences the
//! reconfiguration protocol around the solver's result, and derives bus
//! frequencies from the selected system clock.

pub mod chip_specs;
pub mod clock_constants;
pub mod flash;
pub mod pll;
pub mod rcc;

pub mod clocks;
