use vstd::prelude::*;

use gpio_cdev::{Chip, Line, LineHandle, LineRequestFlags};

verus! {

#[verifier::external_type_specification]
#[verifier::external_body]
pub struct ExChip(Chip);

#[verifier::external_type_specification]
#[verifier::external_body]
pub struct ExLine(Line);

#[verifier::external_type_specification]
#[verifier::external_body]
pub struct ExLineHandle(LineHandle);

#[verifier::external_type_specification]
#[verifier::external_body]
pub struct ExGpioError(gpio_cdev::Error);

/// Relies on gpio_cdev::Chip::new: opens the GPIO character device at the
/// given path. Whether it succeeds depends on the machine, so nothing is
/// promised of the result.
#[verifier::external_body]
pub(crate) fn open_chip(chip_device: &str) -> Result<Chip, gpio_cdev::Error> {
    Chip::new(chip_device)
}

/// Relies on gpio_cdev::Chip::get_line: looks up the line at the given
/// offset on an open chip; fails if the offset is not a line of that chip.
#[verifier::external_body]
pub(crate) fn get_line(chip: &mut Chip, line_offset: u32) -> Result<Line, gpio_cdev::Error> {
    chip.get_line(line_offset)
}

/// Relies on gpio_cdev::Line::request with OUTPUT flags: claims the line as
/// a digital output under the given consumer label, drives it to the given
/// initial value, and returns the handle that owns the claim. Fails if the
/// line is unavailable or already claimed.
#[verifier::external_body]
pub(crate) fn request_output(
    line: &Line,
    initial: u8,
    consumer: &str,
) -> Result<LineHandle, gpio_cdev::Error> {
    line.request(LineRequestFlags::OUTPUT, initial, consumer)
}

/// Relies on gpio_cdev::LineHandle::set_value: asks the driver to drive the
/// claimed output line to 0 or 1. Success depends on the hardware, so
/// nothing is promised of the result.
#[verifier::external_body]
pub(crate) fn set_line_value(handle: &LineHandle, value: u8) -> Result<(), gpio_cdev::Error> {
    handle.set_value(value)
}

} // verus!
