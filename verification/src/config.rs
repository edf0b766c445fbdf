use vstd::prelude::*;

use crate::signal::{CommandView, PinBinding, ResetCommand, Signal};

verus! {

/// What a caller asks `setup_pins` to configure: each of the four reset
/// signals may be bound to a physical line, and an ordered list of external
/// reset commands may be supplied. Every field is optional; the default
/// configuration asks for nothing.
pub struct Configuration {
    pub chip_reset: Option<PinBinding>,
    pub chip_power_enable: Option<PinBinding>,
    pub companion_radio_reset: Option<PinBinding>,
    pub dac_reset: Option<PinBinding>,
    pub reset_commands: Option<Vec<ResetCommand>>,
}

impl Configuration {
    /// Whether the configuration names a physical line for the given signal.
    pub open spec fn wants(self, sig: Signal) -> bool {
        match sig {
            Signal::ChipReset => self.chip_reset is Some,
            Signal::ChipPowerEnable => self.chip_power_enable is Some,
            Signal::CompanionRadioReset => self.companion_radio_reset is Some,
            Signal::DacReset => self.dac_reset is Some,
        }
    }

    /// The command list the configuration carries, as mathematical values.
    pub open spec fn commands_view(self) -> Option<Seq<CommandView>> {
        self.reset_commands.deep_view()
    }
}

impl Default for Configuration {
    /// The empty configuration: no signal bound, no reset commands.
    fn default() -> (c: Configuration)
        ensures
            forall|sig: Signal| !c.wants(sig),
            c.reset_commands is None,
    {
        Configuration {
            chip_reset: None,
            chip_power_enable: None,
            companion_radio_reset: None,
            dac_reset: None,
            reset_commands: None,
        }
    }
}

} // verus!
