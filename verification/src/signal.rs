use vstd::prelude::*;

verus! {

/// A digital output level on a GPIO line.
#[derive(Clone, Copy, Debug, PartialEq, Eq, Structural)]
pub enum Level {
    Low,
    High,
}

/// The four logical reset signals of the concentrator board. Each one may be
/// bound to a physical GPIO line; a signal that is never bound is skipped by
/// the reset sequence.
#[derive(Clone, Copy, Debug, PartialEq, Eq, Structural)]
pub enum Signal {
    ChipReset,
    ChipPowerEnable,
    CompanionRadioReset,
    DacReset,
}

/// The numeric value the GPIO layer is handed for a level: 1 drives a line
/// to logic high, 0 to logic low.
pub open spec fn level_value(l: Level) -> u8 {
    if l is High {
        1u8
    } else {
        0u8
    }
}

/// Encode a level as the value handed to the GPIO layer.
pub fn encode_level(l: Level) -> (v: u8)
    ensures
        v == level_value(l),
{
    match l {
        Level::High => 1,
        Level::Low => 0,
    }
}

/// Identifies one physical GPIO line: the chip device to open and the line
/// offset on that chip.
pub struct PinBinding {
    pub chip_device: String,
    pub line_offset: u32,
}

/// An external program, with its arguments, invoked as one step of the reset
/// sequence. The order of the arguments is significant and preserved.
pub struct ResetCommand {
    pub program: String,
    pub args: Vec<String>,
}

/// The mathematical value of a `ResetCommand`: the program name and the
/// arguments as sequences of characters.
pub struct CommandView {
    pub program: Seq<char>,
    pub args: Seq<Seq<char>>,
}

impl View for ResetCommand {
    type V = CommandView;

    open spec fn view(&self) -> CommandView {
        CommandView { program: self.program@, args: self.args.deep_view() }
    }
}

impl DeepView for ResetCommand {
    type V = CommandView;

    open spec fn deep_view(&self) -> CommandView {
        self.view()
    }
}

} // verus!
