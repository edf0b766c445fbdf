use concentrator_reset::config::Configuration;
use concentrator_reset::error::ResetError;
use concentrator_reset::registry::PinRegistry;
use concentrator_reset::sequence::{Action, STEP_DELAY_MS};
use concentrator_reset::signal::{encode_level, Level, PinBinding, ResetCommand, Signal};

fn command(program: &str, args: &[&str]) -> ResetCommand {
    ResetCommand {
        program: program.to_string(),
        args: args.iter().map(|a| a.to_string()).collect(),
    }
}

fn commands_config(cmds: Vec<ResetCommand>) -> Configuration {
    Configuration {
        chip_reset: None,
        chip_power_enable: None,
        companion_radio_reset: None,
        dac_reset: None,
        reset_commands: Some(cmds),
    }
}

#[test]
fn default_configuration_is_empty() {
    let config = Configuration::default();
    assert!(config.chip_reset.is_none());
    assert!(config.chip_power_enable.is_none());
    assert!(config.companion_radio_reset.is_none());
    assert!(config.dac_reset.is_none());
    assert!(config.reset_commands.is_none());
}

#[test]
fn empty_setup_succeeds_and_plans_nothing() {
    let mut reg = PinRegistry::new();
    assert!(reg.setup_pins(Configuration::default()).is_ok());
    assert!(!reg.is_configured(Signal::ChipReset));
    assert!(!reg.is_configured(Signal::ChipPowerEnable));
    assert!(!reg.is_configured(Signal::CompanionRadioReset));
    assert!(!reg.is_configured(Signal::DacReset));
    assert_eq!(reg.command_count(), 0);
    assert!(reg.command_at(0).is_none());
    let plan = reg.reset_plan();
    assert!(plan.is_empty());
}

#[test]
fn fresh_registry_plans_nothing() {
    let reg = PinRegistry::new();
    assert!(reg.reset_plan().is_empty());
}

#[test]
fn reset_commands_run_in_configured_order() {
    let mut reg = PinRegistry::new();
    let config = commands_config(vec![command("cmd_a", &["1"]), command("cmd_b", &[])]);
    assert!(reg.setup_pins(config).is_ok());
    assert_eq!(reg.command_count(), 2);
    let plan = reg.reset_plan();
    assert_eq!(
        plan,
        vec![
            Action::RunCommand(0),
            Action::Delay,
            Action::RunCommand(1),
            Action::Delay,
        ]
    );
    let first = reg.command_at(0).expect("first command");
    assert_eq!(first.program, "cmd_a");
    assert_eq!(first.args, vec!["1".to_string()]);
    let second = reg.command_at(1).expect("second command");
    assert_eq!(second.program, "cmd_b");
    assert!(second.args.is_empty());
    assert!(reg.command_at(2).is_none());
}

#[test]
fn step_delay_is_one_hundred_milliseconds() {
    assert_eq!(STEP_DELAY_MS, 100);
}

#[test]
fn missing_chip_fails_setup_with_chip_access_error() {
    let mut reg = PinRegistry::new();
    let config = Configuration {
        chip_reset: Some(PinBinding {
            chip_device: "/dev/gpiochip-that-does-not-exist".to_string(),
            line_offset: 17,
        }),
        chip_power_enable: None,
        companion_radio_reset: None,
        dac_reset: None,
        reset_commands: None,
    };
    let r = reg.setup_pins(config);
    assert!(matches!(r, Err(ResetError::ChipAccess(_))));
    assert!(!reg.is_configured(Signal::ChipReset));
    assert!(reg.reset_plan().is_empty());
}

#[test]
fn failed_setup_keeps_earlier_configuration() {
    let mut reg = PinRegistry::new();
    let first = commands_config(vec![command("cmd_a", &["1"]), command("cmd_b", &[])]);
    assert!(reg.setup_pins(first).is_ok());

    // A later configuration step fails on the DAC reset line; what was
    // configured before stays usable and the stored commands are untouched.
    let second = Configuration {
        chip_reset: None,
        chip_power_enable: None,
        companion_radio_reset: None,
        dac_reset: Some(PinBinding {
            chip_device: "/dev/gpiochip-that-does-not-exist".to_string(),
            line_offset: 3,
        }),
        reset_commands: Some(vec![command("cmd_c", &[])]),
    };
    assert!(reg.setup_pins(second).is_err());
    assert!(!reg.is_configured(Signal::DacReset));
    assert_eq!(reg.command_count(), 2);
    assert_eq!(reg.command_at(0).expect("first command").program, "cmd_a");
    let plan = reg.reset_plan();
    assert_eq!(
        plan,
        vec![
            Action::RunCommand(0),
            Action::Delay,
            Action::RunCommand(1),
            Action::Delay,
        ]
    );
}

#[test]
fn later_command_list_replaces_earlier_one() {
    let mut reg = PinRegistry::new();
    assert!(reg.setup_pins(commands_config(vec![command("old_cmd", &[])])).is_ok());
    assert!(
        reg.setup_pins(commands_config(vec![command("new_a", &["x", "y"]), command("new_b", &[])]))
            .is_ok()
    );
    assert_eq!(reg.command_count(), 2);
    let first = reg.command_at(0).expect("first command");
    assert_eq!(first.program, "new_a");
    assert_eq!(first.args, vec!["x".to_string(), "y".to_string()]);
}

#[test]
fn setup_without_commands_keeps_stored_list() {
    let mut reg = PinRegistry::new();
    assert!(reg.setup_pins(commands_config(vec![command("cmd_a", &[])])).is_ok());
    assert!(reg.setup_pins(Configuration::default()).is_ok());
    assert_eq!(reg.command_count(), 1);
    assert_eq!(reg.command_at(0).expect("stored command").program, "cmd_a");
}

#[test]
fn levels_encode_to_driver_values() {
    assert_eq!(encode_level(Level::High), 1);
    assert_eq!(encode_level(Level::Low), 0);
}

#[test]
fn levels_and_signals_compare_by_value() {
    assert_eq!(Level::High, Level::High);
    assert_ne!(Level::High, Level::Low);
    assert_ne!(
        Action::SetLevel(Signal::ChipReset, Level::High),
        Action::SetLevel(Signal::CompanionRadioReset, Level::High)
    );
}
