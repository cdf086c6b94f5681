//! Register-level hardware abstraction for the i.MX RT processor family.
//!
//! The crate models each peripheral's register block as a value: an image of
//! the registers together with the ordered list of bus writes that the
//! drivers have issued. Everything a driver does is a function of that image,
//! so the drivers' behaviour is stated and proved on it. A thin binding layer
//! refreshes the image from the bus and replays the recorded writes.
//!
//! - [`ral`] holds the register blocks, their instances and the singleton
//!   bookkeeping that hands each instance out at most once.
//! - [`ccm`] holds the clock roots and the per-peripheral clock gates.
//! - [`GPT`], [`UART`] and [`GPIO`] are the drivers.
//! - [`delay`] is a blocking delay on a timer channel, in two steps.
//!
//! A driver never waits. Where the hardware has to act first, a function
//! does one step and says whether the wait is over; the caller refreshes
//! the image and calls again.

pub mod ccm;
pub mod delay;
pub mod gpio;
pub mod gpt;
pub mod ral;
pub mod uart;

pub use gpio::{Input, Output, GPIO};
pub use gpt::{Mode, OutputCompareRegister, OutputCompareStatus, GPT};
pub use ral::{Chip, Write};
pub use uart::UART;

