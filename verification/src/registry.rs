use vstd::prelude::*;

use gpio_cdev::LineHandle;

use crate::config::Configuration;
use crate::error::ResetError;
use crate::gpio;
use crate::sequence::{command_actions, power_on_actions, pulse_actions, reset_actions, Action};
use crate::signal::{encode_level, level_value, CommandView, Level, PinBinding, ResetCommand, Signal};

verus! {

/// The abstract state of a [`PinRegistry`]: whether each of the four slots
/// holds a claimed line, and the stored command list as mathematical values.
pub struct RegistryView {
    pub chip_reset: bool,
    pub chip_power_enable: bool,
    pub companion_radio_reset: bool,
    pub dac_reset: bool,
    pub reset_commands: Option<Seq<CommandView>>,
}

impl RegistryView {
    /// Whether the slot of the given signal holds a claimed line.
    pub open spec fn configured(self, sig: Signal) -> bool {
        match sig {
            Signal::ChipReset => self.chip_reset,
            Signal::ChipPowerEnable => self.chip_power_enable,
            Signal::CompanionRadioReset => self.companion_radio_reset,
            Signal::DacReset => self.dac_reset,
        }
    }
}

/// The position of a signal in the fixed order in which `setup_pins`
/// processes the configuration.
pub open spec fn setup_order(sig: Signal) -> int {
    match sig {
        Signal::ChipReset => 0,
        Signal::ChipPowerEnable => 1,
        Signal::CompanionRadioReset => 2,
        Signal::DacReset => 3,
    }
}

/// Owns the claimed GPIO line handles and the stored reset commands for the
/// life of the process. Each slot is set at most once per configuration
/// step, is never cleared, and is read on every reset.
pub struct PinRegistry {
    chip_reset: Option<LineHandle>,
    chip_power_enable: Option<LineHandle>,
    companion_radio_reset: Option<LineHandle>,
    dac_reset: Option<LineHandle>,
    reset_commands: Option<Vec<ResetCommand>>,
}

impl View for PinRegistry {
    type V = RegistryView;

    closed spec fn view(&self) -> RegistryView {
        RegistryView {
            chip_reset: self.chip_reset is Some,
            chip_power_enable: self.chip_power_enable is Some,
            companion_radio_reset: self.companion_radio_reset is Some,
            dac_reset: self.dac_reset is Some,
            reset_commands: self.reset_commands.deep_view(),
        }
    }
}

/// Open the chip of a binding and claim its line as a digital output,
/// driven to the low level value on the request itself, under the given
/// consumer label.
fn acquire_output_low(binding: &PinBinding, consumer: &str) -> (r: Result<LineHandle, ResetError>)
    ensures
        r matches Err(e) ==> e is ChipAccess || e is LineClaim,
{
    let mut chip = match gpio::open_chip(binding.chip_device.as_str()) {
        Ok(c) => c,
        Err(e) => {
            return Err(ResetError::ChipAccess(e));
        },
    };
    let line = match gpio::get_line(&mut chip, binding.line_offset) {
        Ok(l) => l,
        Err(e) => {
            return Err(ResetError::LineClaim(e));
        },
    };
    match gpio::request_output(&line, encode_level(Level::Low), consumer) {
        Ok(h) => Ok(h),
        Err(e) => Err(ResetError::LineClaim(e)),
    }
}

impl PinRegistry {
    /// A registry with no slot configured and no reset commands.
    pub fn new() -> (r: PinRegistry)
        ensures
            forall|sig: Signal| !r@.configured(sig),
            r@.reset_commands is None,
    {
        PinRegistry {
            chip_reset: None,
            chip_power_enable: None,
            companion_radio_reset: None,
            dac_reset: None,
            reset_commands: None,
        }
    }

    /// Claim every line the configuration names, in the fixed order chip
    /// reset, chip power-enable, companion radio reset, DAC reset, driving
    /// each claimed line low, and store the command list verbatim. The first
    /// failure aborts the step; slots already configured, by this call or an
    /// earlier one, keep their lines.
    pub fn setup_pins(&mut self, config: Configuration) -> (r: Result<(), ResetError>)
        ensures
            // a slot, once configured, stays configured
            forall|sig: Signal|
                old(self)@.configured(sig) ==> #[trigger] final(self)@.configured(sig),
            // a signal the configuration does not name is untouched
            forall|sig: Signal|
                !config.wants(sig) ==> #[trigger] final(self)@.configured(sig) == old(self)@.configured(sig),
            // on success, every requested signal is configured and a present
            // command list replaces the stored one
            r is Ok ==> forall|sig: Signal| #[trigger]
                final(self)@.configured(sig) == (old(self)@.configured(sig) || config.wants(sig)),
            r is Ok ==> final(self)@.reset_commands == (if config.reset_commands is Some {
                config.commands_view()
            } else {
                old(self)@.reset_commands
            }),
            // on failure, the signals before the failing one (in the fixed
            // setup order) were processed, the rest and the command list are
            // untouched
            r is Err ==> exists|f: Signal|
                {
                    &&& #[trigger] config.wants(f)
                    &&& forall|sig: Signal|
                        setup_order(sig) < setup_order(f) ==> #[trigger] final(self)@.configured(sig) == (
                        old(self)@.configured(sig) || config.wants(sig))
                    &&& forall|sig: Signal|
                        setup_order(sig) >= setup_order(f) ==> #[trigger] final(self)@.configured(sig)
                            == old(self)@.configured(sig)
                },
            r is Err ==> final(self)@.reset_commands == old(self)@.reset_commands,
            r matches Err(e) ==> e is ChipAccess || e is LineClaim,
            // a configuration that names no line cannot fail
            (forall|sig: Signal| !config.wants(sig)) ==> r is Ok,
    {
        let Configuration {
            chip_reset,
            chip_power_enable,
            companion_radio_reset,
            dac_reset,
            reset_commands,
        } = config;
        if let Some(binding) = chip_reset {
            match acquire_output_low(&binding, "chip_reset") {
                Ok(h) => {
                    self.chip_reset = Some(h);
                },
                Err(e) => {
                    assert(config.wants(Signal::ChipReset));
                    return Err(e);
                },
            }
        }
        if let Some(binding) = chip_power_enable {
            match acquire_output_low(&binding, "chip_power_enable") {
                Ok(h) => {
                    self.chip_power_enable = Some(h);
                },
                Err(e) => {
                    assert(config.wants(Signal::ChipPowerEnable));
                    return Err(e);
                },
            }
        }
        if let Some(binding) = companion_radio_reset {
            match acquire_output_low(&binding, "companion_radio_reset") {
                Ok(h) => {
                    self.companion_radio_reset = Some(h);
                },
                Err(e) => {
                    assert(config.wants(Signal::CompanionRadioReset));
                    return Err(e);
                },
            }
        }
        if let Some(binding) = dac_reset {
            match acquire_output_low(&binding, "dac_reset") {
                Ok(h) => {
                    self.dac_reset = Some(h);
                },
                Err(e) => {
                    assert(config.wants(Signal::DacReset));
                    return Err(e);
                },
            }
        }
        if let Some(cs) = reset_commands {
            self.reset_commands = Some(cs);
        }
        Ok(())
    }

    /// Whether the given signal was configured with a line.
    pub fn is_configured(&self, sig: Signal) -> (r: bool)
        ensures
            r == self@.configured(sig),
    {
        match sig {
            Signal::ChipReset => self.chip_reset.is_some(),
            Signal::ChipPowerEnable => self.chip_power_enable.is_some(),
            Signal::CompanionRadioReset => self.companion_radio_reset.is_some(),
            Signal::DacReset => self.dac_reset.is_some(),
        }
    }

    /// Drive the line of a configured signal to the given level. On
    /// success, the returned value is the one that was handed to the GPIO
    /// layer for that level.
    pub fn set_signal(&self, sig: Signal, level: Level) -> (r: Result<u8, ResetError>)
        requires
            self@.configured(sig),
        ensures
            r matches Ok(v) ==> v == level_value(level),
            r matches Err(e) ==> e is LineIo,
    {
        let handle: &LineHandle = match sig {
            Signal::ChipReset => self.chip_reset.as_ref().unwrap(),
            Signal::ChipPowerEnable => self.chip_power_enable.as_ref().unwrap(),
            Signal::CompanionRadioReset => self.companion_radio_reset.as_ref().unwrap(),
            Signal::DacReset => self.dac_reset.as_ref().unwrap(),
        };
        let value: u8 = encode_level(level);
        match gpio::set_line_value(handle, value) {
            Ok(_) => Ok(value),
            Err(e) => Err(ResetError::LineIo(e)),
        }
    }

    /// How many reset commands are stored (zero when none were configured).
    pub fn command_count(&self) -> (n: usize)
        ensures
            match self@.reset_commands {
                Some(cs) => n == cs.len(),
                None => n == 0,
            },
    {
        match &self.reset_commands {
            Some(cs) => cs.len(),
            None => 0,
        }
    }

    /// The stored reset command at the given position, if there is one.
    pub fn command_at(&self, i: usize) -> (r: Option<&ResetCommand>)
        ensures
            match r {
                Some(c) => self@.reset_commands matches Some(cs) && i < cs.len() && c@ == cs[i as int],
                None => !(self@.reset_commands matches Some(cs) && i < cs.len()),
            },
    {
        match &self.reset_commands {
            Some(cs) => {
                if i < cs.len() {
                    Some(&cs[i])
                } else {
                    None
                }
            },
            None => None,
        }
    }

    /// Lay out the reset protocol for the current registry state: the exact
    /// ordered list of actions a driver loop must perform.
    pub fn reset_plan(&self) -> (plan: Vec<Action>)
        ensures
            plan@ == reset_actions(self@),
    {
        let mut plan: Vec<Action> = Vec::new();
        if self.chip_power_enable.is_some() {
            plan.push(Action::SetLevel(Signal::ChipPowerEnable, Level::High));
            plan.push(Action::Delay);
        }
        let ghost p1 = plan@;
        proof {
            assert(p1 =~= (if self@.chip_power_enable {
                power_on_actions()
            } else {
                Seq::empty()
            }));
        }
        if self.chip_reset.is_some() {
            plan.push(Action::SetLevel(Signal::ChipReset, Level::High));
            plan.push(Action::Delay);
            plan.push(Action::SetLevel(Signal::ChipReset, Level::Low));
            plan.push(Action::Delay);
        }
        let ghost p2 = plan@;
        proof {
            assert(p2 =~= p1 + (if self@.chip_reset {
                pulse_actions(Signal::ChipReset, Level::High, Level::Low)
            } else {
                Seq::empty()
            }));
        }
        if self.companion_radio_reset.is_some() {
            plan.push(Action::SetLevel(Signal::CompanionRadioReset, Level::Low));
            plan.push(Action::Delay);
            plan.push(Action::SetLevel(Signal::CompanionRadioReset, Level::High));
            plan.push(Action::Delay);
        }
        let ghost p3 = plan@;
        proof {
            assert(p3 =~= p2 + (if self@.companion_radio_reset {
                pulse_actions(Signal::CompanionRadioReset, Level::Low, Level::High)
            } else {
                Seq::empty()
            }));
        }
        if self.dac_reset.is_some() {
            plan.push(Action::SetLevel(Signal::DacReset, Level::Low));
            plan.push(Action::Delay);
            plan.push(Action::SetLevel(Signal::DacReset, Level::High));
            plan.push(Action::Delay);
        }
        let ghost p4 = plan@;
        proof {
            assert(p4 =~= p3 + (if self@.dac_reset {
                pulse_actions(Signal::DacReset, Level::Low, Level::High)
            } else {
                Seq::empty()
            }));
        }
        if let Some(cs) = &self.reset_commands {
            let n = cs.len();
            proof {
                assert(p4 + command_actions(0) =~= p4);
            }
            for i in 0..n
                invariant
                    n == cs@.len(),
                    plan@ == p4 + command_actions(i as int),
            {
                plan.push(Action::RunCommand(i));
                plan.push(Action::Delay);
                proof {
                    assert(p4 + command_actions(i + 1) =~= (p4 + command_actions(i as int))
                        + seq![Action::RunCommand(i), Action::Delay]);
                }
            }
        }
        proof {
            assert(plan@ =~= reset_actions(self@));
        }
        plan
    }
}

} // verus!
