use vstd::prelude::*;

use crate::registry::RegistryView;
use crate::signal::{Level, Signal};

verus! {

/// The fixed dwell time, in milliseconds, that a driver loop must wait for
/// each `Action::Delay` step of a reset plan.
pub const STEP_DELAY_MS: u64 = 100;

/// One step of the reset protocol, in the order a driver loop must perform
/// them: drive a configured signal's line to a level, pause for
/// [`STEP_DELAY_MS`] milliseconds, or run the external reset command at the
/// given position of the configured command list and wait for it to finish.
#[derive(Clone, Copy, Debug, PartialEq, Eq, Structural)]
pub enum Action {
    SetLevel(Signal, Level),
    Delay,
    RunCommand(usize),
}

/// The opening of the reset protocol when the power-enable signal is
/// configured: power the board, then let it stabilize.
pub open spec fn power_on_actions() -> Seq<Action> {
    seq![Action::SetLevel(Signal::ChipPowerEnable, Level::High), Action::Delay]
}

/// A reset pulse on one signal: drive it to `first`, dwell, drive it to
/// `second`, dwell.
pub open spec fn pulse_actions(sig: Signal, first: Level, second: Level) -> Seq<Action> {
    seq![
        Action::SetLevel(sig, first),
        Action::Delay,
        Action::SetLevel(sig, second),
        Action::Delay,
    ]
}

/// The command steps for a configured list of `n` reset commands: each
/// command in stored order, a dwell after each.
pub open spec fn command_actions(n: int) -> Seq<Action>
    decreases n,
{
    if n <= 0 {
        Seq::empty()
    } else {
        command_actions(n - 1) + seq![Action::RunCommand((n - 1) as usize), Action::Delay]
    }
}

/// The whole reset protocol for a registry state: power the board on, pulse
/// the chip reset active-high, pulse the companion radio and DAC resets
/// active-low, then run the reset commands in order, skipping every signal
/// and the command phase where nothing was configured.
pub open spec fn reset_actions(v: RegistryView) -> Seq<Action> {
    (if v.chip_power_enable {
        power_on_actions()
    } else {
        Seq::empty()
    }) + (if v.chip_reset {
        pulse_actions(Signal::ChipReset, Level::High, Level::Low)
    } else {
        Seq::empty()
    }) + (if v.companion_radio_reset {
        pulse_actions(Signal::CompanionRadioReset, Level::Low, Level::High)
    } else {
        Seq::empty()
    }) + (if v.dac_reset {
        pulse_actions(Signal::DacReset, Level::Low, Level::High)
    } else {
        Seq::empty()
    }) + (match v.reset_commands {
        Some(cs) => command_actions(cs.len() as int),
        None => Seq::empty(),
    })
}

} // verus!
