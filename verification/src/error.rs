use vstd::prelude::*;

verus! {

/// Why configuring or driving a GPIO line failed. Each variant carries the
/// underlying GPIO layer error for the caller to report.
#[derive(Debug)]
pub enum ResetError {
    /// The named GPIO chip device is missing or could not be opened.
    ChipAccess(gpio_cdev::Error),
    /// The requested line could not be looked up on its chip or could not be
    /// claimed as an output (offset invalid, or line already owned).
    LineClaim(gpio_cdev::Error),
    /// Driving an already-claimed output line failed at the driver level.
    LineIo(gpio_cdev::Error),
}

} // verus!
