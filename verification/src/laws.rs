use vstd::prelude::*;

use crate::registry::RegistryView;
use crate::sequence::{command_actions, power_on_actions, pulse_actions, reset_actions, Action};
use crate::signal::{Level, Signal};

verus! {

broadcast use vstd::seq_lib::group_filter_ensures, Seq::filter_distributes_over_add;

/// Whether an action drives the given signal's line (to any level).
pub open spec fn is_level_action_of(a: Action, sig: Signal) -> bool {
    a matches Action::SetLevel(s, _) && s == sig
}

/// The predicate selecting the level actions of one signal.
pub open spec fn level_pred(sig: Signal) -> spec_fn(Action) -> bool {
    |a: Action| is_level_action_of(a, sig)
}

/// The level actions the reset sequence performs on one signal, in order.
pub open spec fn level_actions(v: RegistryView, sig: Signal) -> Seq<Action> {
    reset_actions(v).filter(level_pred(sig))
}

/// The predicate selecting the command actions.
pub open spec fn run_pred() -> spec_fn(Action) -> bool {
    |a: Action| a is RunCommand
}

/// The command actions the reset sequence performs, in order.
pub open spec fn run_actions(v: RegistryView) -> Seq<Action> {
    reset_actions(v).filter(run_pred())
}

/// The command phase of the protocol holds, alternating, the commands in
/// order at the even positions and a dwell at the odd ones.
proof fn lemma_command_actions_elems(n: int)
    ensures
        command_actions(n).len() == (if n <= 0 {
            0int
        } else {
            2 * n
        }),
        forall|k: int|
            0 <= k < command_actions(n).len() ==> #[trigger] command_actions(n)[k] == (if k % 2
                == 0 {
                Action::RunCommand((k / 2) as usize)
            } else {
                Action::Delay
            }),
    decreases
            (if n >= 0 {
                n
            } else {
                0
            }),
{
    if n > 0 {
        lemma_command_actions_elems(n - 1);
        let tail = seq![Action::RunCommand((n - 1) as usize), Action::Delay];
        assert(command_actions(n) == command_actions(n - 1) + tail);
        assert forall|k: int| 0 <= k < command_actions(n).len() implies #[trigger] command_actions(
            n,
        )[k] == (if k % 2 == 0 {
            Action::RunCommand((k / 2) as usize)
        } else {
            Action::Delay
        }) by {
            if k < 2 * (n - 1) {
            } else if k == 2 * (n - 1) {
                assert(command_actions(n)[k] == tail[0]);
                assert(k % 2 == 0 && k / 2 == n - 1);
            } else {
                assert(command_actions(n)[k] == tail[1]);
                assert(k % 2 == 1);
            }
        }
    }
}

/// The command phase drives no line.
proof fn lemma_command_actions_level_filter(n: int, sig: Signal)
    ensures
        command_actions(n).filter(level_pred(sig)) == Seq::<Action>::empty(),
    decreases
            (if n >= 0 {
                n
            } else {
                0
            }),
{
    reveal_with_fuel(Seq::filter, 3);
    if n <= 0 {
        assert(command_actions(n).filter(level_pred(sig)) =~= Seq::<Action>::empty());
    } else {
        lemma_command_actions_level_filter(n - 1, sig);
        let tail = seq![Action::RunCommand((n - 1) as usize), Action::Delay];
        assert(command_actions(n) == command_actions(n - 1) + tail);
        assert(tail.drop_last() =~= seq![Action::RunCommand((n - 1) as usize)]);
        assert(tail.filter(level_pred(sig)) =~= Seq::<Action>::empty());
    }
}

/// The command phase's command actions are the commands in stored order.
proof fn lemma_command_actions_run_filter(n: int)
    requires
        n >= 0,
    ensures
        command_actions(n).filter(run_pred()) == Seq::new(
            n as nat,
            |i: int| Action::RunCommand(i as usize),
        ),
    decreases n,
{
    reveal_with_fuel(Seq::filter, 3);
    if n == 0 {
        assert(command_actions(0).filter(run_pred()) =~= Seq::new(
            0nat,
            |i: int| Action::RunCommand(i as usize),
        ));
    } else {
        lemma_command_actions_run_filter(n - 1);
        let tail = seq![Action::RunCommand((n - 1) as usize), Action::Delay];
        assert(command_actions(n) == command_actions(n - 1) + tail);
        assert(tail.drop_last() =~= seq![Action::RunCommand((n - 1) as usize)]);
        assert(tail.filter(run_pred()) =~= seq![Action::RunCommand((n - 1) as usize)]);
        assert(command_actions(n).filter(run_pred()) =~= Seq::new(
            n as nat,
            |i: int| Action::RunCommand(i as usize),
        ));
    }
}

/// What the power-on phase does to one signal's line: it drives the
/// power-enable signal high once and no other signal at all.
proof fn lemma_power_level_filter(sig: Signal)
    ensures
        power_on_actions().filter(level_pred(sig)) == (if sig == Signal::ChipPowerEnable {
            seq![Action::SetLevel(Signal::ChipPowerEnable, Level::High)]
        } else {
            Seq::<Action>::empty()
        }),
{
    reveal_with_fuel(Seq::filter, 3);
    assert(power_on_actions().drop_last() =~= seq![
        Action::SetLevel(Signal::ChipPowerEnable, Level::High),
    ]);
    if sig == Signal::ChipPowerEnable {
        assert(power_on_actions().filter(level_pred(sig)) =~= seq![
            Action::SetLevel(Signal::ChipPowerEnable, Level::High),
        ]);
    } else {
        assert(power_on_actions().filter(level_pred(sig)) =~= Seq::<Action>::empty());
    }
}

/// What a pulse on signal `s` does to signal `sig`'s line: both level
/// changes of the pulse when `sig` is `s`, nothing otherwise.
proof fn lemma_pulse_level_filter(s: Signal, first: Level, second: Level, sig: Signal)
    ensures
        pulse_actions(s, first, second).filter(level_pred(sig)) == (if s == sig {
            seq![Action::SetLevel(s, first), Action::SetLevel(s, second)]
        } else {
            Seq::<Action>::empty()
        }),
{
    reveal_with_fuel(Seq::filter, 5);
    let p = pulse_actions(s, first, second);
    assert(p.drop_last() =~= seq![
        Action::SetLevel(s, first),
        Action::Delay,
        Action::SetLevel(s, second),
    ]);
    assert(p.drop_last().drop_last() =~= seq![Action::SetLevel(s, first), Action::Delay]);
    assert(p.drop_last().drop_last().drop_last() =~= seq![Action::SetLevel(s, first)]);
    if s == sig {
        assert(p.filter(level_pred(sig)) =~= seq![
            Action::SetLevel(s, first),
            Action::SetLevel(s, second),
        ]);
    } else {
        assert(p.filter(level_pred(sig)) =~= Seq::<Action>::empty());
    }
}

/// A pulse or power-on phase runs no command.
proof fn lemma_levels_run_filter(s: Seq<Action>)
    requires
        forall|k: int| 0 <= k < s.len() ==> !(#[trigger] s[k] is RunCommand),
    ensures
        s.filter(run_pred()) == Seq::<Action>::empty(),
    decreases s.len(),
{
    reveal_with_fuel(Seq::filter, 2);
    if s.len() == 0 {
        assert(s.filter(run_pred()) =~= Seq::<Action>::empty());
    } else {
        lemma_levels_run_filter(s.drop_last());
        assert(s.filter(run_pred()) =~= Seq::<Action>::empty());
    }
}

/// The filter of the empty action sequence is empty.
proof fn lemma_empty_filter(pred: spec_fn(Action) -> bool)
    ensures
        Seq::<Action>::empty().filter(pred) == Seq::<Action>::empty(),
{
    reveal_with_fuel(Seq::filter, 1);
    assert(Seq::<Action>::empty().filter(pred) =~= Seq::<Action>::empty());
}

/// The five phases of the reset protocol, as the plan lays them out.
spec fn phase_power(v: RegistryView) -> Seq<Action> {
    if v.chip_power_enable {
        power_on_actions()
    } else {
        Seq::empty()
    }
}

spec fn phase_chip(v: RegistryView) -> Seq<Action> {
    if v.chip_reset {
        pulse_actions(Signal::ChipReset, Level::High, Level::Low)
    } else {
        Seq::empty()
    }
}

spec fn phase_companion(v: RegistryView) -> Seq<Action> {
    if v.companion_radio_reset {
        pulse_actions(Signal::CompanionRadioReset, Level::Low, Level::High)
    } else {
        Seq::empty()
    }
}

spec fn phase_dac(v: RegistryView) -> Seq<Action> {
    if v.dac_reset {
        pulse_actions(Signal::DacReset, Level::Low, Level::High)
    } else {
        Seq::empty()
    }
}

spec fn phase_commands(v: RegistryView) -> Seq<Action> {
    match v.reset_commands {
        Some(cs) => command_actions(cs.len() as int),
        None => Seq::empty(),
    }
}

/// What the whole sequence does to one signal's line, phase by phase.
proof fn lemma_level_actions_split(v: RegistryView, sig: Signal)
    ensures
        level_actions(v, sig) == phase_power(v).filter(level_pred(sig)) + phase_chip(v).filter(
            level_pred(sig),
        ) + phase_companion(v).filter(level_pred(sig)) + phase_dac(v).filter(level_pred(sig))
            + phase_commands(v).filter(level_pred(sig)),
{
    assert(reset_actions(v) == phase_power(v) + phase_chip(v) + phase_companion(v) + phase_dac(v)
        + phase_commands(v));
}

/// Law: a signal left unconfigured is never driven. The reset sequence holds
/// no level action for it, so skipping it cannot fail either: nothing is
/// ever asked of its line.
pub proof fn lemma_unconfigured_signal_untouched(v: RegistryView, sig: Signal)
    requires
        !v.configured(sig),
    ensures
        level_actions(v, sig) == Seq::<Action>::empty(),
        forall|k: int|
            0 <= k < reset_actions(v).len() ==> !is_level_action_of(
                #[trigger] reset_actions(v)[k],
                sig,
            ),
{
    let pred = level_pred(sig);
    lemma_level_actions_split(v, sig);
    lemma_empty_filter(pred);
    lemma_power_level_filter(sig);
    lemma_pulse_level_filter(Signal::ChipReset, Level::High, Level::Low, sig);
    lemma_pulse_level_filter(Signal::CompanionRadioReset, Level::Low, Level::High, sig);
    lemma_pulse_level_filter(Signal::DacReset, Level::Low, Level::High, sig);
    if v.reset_commands is Some {
        lemma_command_actions_level_filter(v.reset_commands->0.len() as int, sig);
    }
    assert(level_actions(v, sig) =~= Seq::<Action>::empty());
    if v.reset_commands is Some {
        lemma_command_actions_elems(v.reset_commands->0.len() as int);
    }
    assert forall|k: int| 0 <= k < reset_actions(v).len() implies !is_level_action_of(
        #[trigger] reset_actions(v)[k],
        sig,
    ) by {
        assert(reset_actions(v) == phase_power(v) + phase_chip(v) + phase_companion(v) + phase_dac(
            v,
        ) + phase_commands(v));
    }
}

/// Law: with nothing configured at all, the reset sequence is empty: it
/// performs no pin operation and runs no command.
pub proof fn lemma_nothing_configured_nothing_done(v: RegistryView)
    requires
        forall|sig: Signal| !v.configured(sig),
        v.reset_commands is None,
    ensures
        reset_actions(v) == Seq::<Action>::empty(),
{
    assert(!v.configured(Signal::ChipReset));
    assert(!v.configured(Signal::ChipPowerEnable));
    assert(!v.configured(Signal::CompanionRadioReset));
    assert(!v.configured(Signal::DacReset));
    assert(reset_actions(v) =~= Seq::<Action>::empty());
}

/// Law: when the chip reset signal is configured, the reset sequence drives
/// it HIGH and then LOW — an active-high pulse — and touches it in no other
/// way; the two level changes stand with one dwell between them and one
/// after.
pub proof fn lemma_chip_reset_pulse(v: RegistryView)
    requires
        v.configured(Signal::ChipReset),
    ensures
        level_actions(v, Signal::ChipReset) == seq![
            Action::SetLevel(Signal::ChipReset, Level::High),
            Action::SetLevel(Signal::ChipReset, Level::Low),
        ],
        exists|i: int|
            {
                &&& 0 <= i
                &&& i + 4 <= reset_actions(v).len()
                &&& #[trigger] reset_actions(v).subrange(i, i + 4) == pulse_actions(
                    Signal::ChipReset,
                    Level::High,
                    Level::Low,
                )
            },
{
    let sig = Signal::ChipReset;
    let pred = level_pred(sig);
    lemma_level_actions_split(v, sig);
    lemma_empty_filter(pred);
    lemma_power_level_filter(sig);
    lemma_pulse_level_filter(Signal::ChipReset, Level::High, Level::Low, sig);
    lemma_pulse_level_filter(Signal::CompanionRadioReset, Level::Low, Level::High, sig);
    lemma_pulse_level_filter(Signal::DacReset, Level::Low, Level::High, sig);
    if v.reset_commands is Some {
        lemma_command_actions_level_filter(v.reset_commands->0.len() as int, sig);
    }
    assert(level_actions(v, sig) =~= seq![
        Action::SetLevel(sig, Level::High),
        Action::SetLevel(sig, Level::Low),
    ]);
    let i = phase_power(v).len() as int;
    assert(reset_actions(v) == phase_power(v) + phase_chip(v) + phase_companion(v) + phase_dac(v)
        + phase_commands(v));
    assert(reset_actions(v).subrange(i, i + 4) =~= pulse_actions(
        Signal::ChipReset,
        Level::High,
        Level::Low,
    ));
}

/// Law: when the companion radio or DAC reset signal is configured, the
/// reset sequence drives it LOW and then HIGH — the active-low pulse,
/// inverted relative to the chip reset's — and touches it in no other way.
pub proof fn lemma_active_low_pulse(v: RegistryView, sig: Signal)
    requires
        sig == Signal::CompanionRadioReset || sig == Signal::DacReset,
        v.configured(sig),
    ensures
        level_actions(v, sig) == seq![
            Action::SetLevel(sig, Level::Low),
            Action::SetLevel(sig, Level::High),
        ],
        exists|i: int|
            {
                &&& 0 <= i
                &&& i + 4 <= reset_actions(v).len()
                &&& #[trigger] reset_actions(v).subrange(i, i + 4) == pulse_actions(
                    sig,
                    Level::Low,
                    Level::High,
                )
            },
{
    let pred = level_pred(sig);
    lemma_level_actions_split(v, sig);
    lemma_empty_filter(pred);
    lemma_power_level_filter(sig);
    lemma_pulse_level_filter(Signal::ChipReset, Level::High, Level::Low, sig);
    lemma_pulse_level_filter(Signal::CompanionRadioReset, Level::Low, Level::High, sig);
    lemma_pulse_level_filter(Signal::DacReset, Level::Low, Level::High, sig);
    if v.reset_commands is Some {
        lemma_command_actions_level_filter(v.reset_commands->0.len() as int, sig);
    }
    assert(level_actions(v, sig) =~= seq![
        Action::SetLevel(sig, Level::Low),
        Action::SetLevel(sig, Level::High),
    ]);
    let i = (phase_power(v) + phase_chip(v)).len() as int + (if sig == Signal::DacReset {
        phase_companion(v).len() as int
    } else {
        0int
    });
    assert(reset_actions(v) == phase_power(v) + phase_chip(v) + phase_companion(v) + phase_dac(v)
        + phase_commands(v));
    assert(reset_actions(v).subrange(i, i + 4) =~= pulse_actions(sig, Level::Low, Level::High));
}

/// Law: when the power-enable signal is configured, it is driven HIGH as the
/// very first action of the sequence, strictly before any other signal's
/// line changes.
pub proof fn lemma_power_enable_first(v: RegistryView)
    requires
        v.configured(Signal::ChipPowerEnable),
    ensures
        reset_actions(v).len() > 0,
        reset_actions(v)[0] == Action::SetLevel(Signal::ChipPowerEnable, Level::High),
        forall|j: int|
            (0 <= j < reset_actions(v).len() && ((#[trigger] reset_actions(v)[j]) matches
                Action::SetLevel(s, _) && s != Signal::ChipPowerEnable)) ==> exists|i: int|
                0 <= i < j && reset_actions(v)[i] == Action::SetLevel(
                    Signal::ChipPowerEnable,
                    Level::High,
                ),
{
    assert(reset_actions(v) == phase_power(v) + phase_chip(v) + phase_companion(v) + phase_dac(v)
        + phase_commands(v));
    assert(reset_actions(v)[0] == power_on_actions()[0]);
    assert forall|j: int|
        (0 <= j < reset_actions(v).len() && ((#[trigger] reset_actions(v)[j]) matches
            Action::SetLevel(s, _) && s != Signal::ChipPowerEnable)) implies exists|i: int|
        0 <= i < j && reset_actions(v)[i] == Action::SetLevel(
            Signal::ChipPowerEnable,
            Level::High,
        ) by {
        assert(j != 0);
        assert(0 <= 0 < j && reset_actions(v)[0] == Action::SetLevel(
            Signal::ChipPowerEnable,
            Level::High,
        ));
    }
}

/// Law: the reset commands are run in their stored order, one command
/// action for each stored command, and after every command the sequence
/// dwells before anything further happens.
#[verifier::rlimit(60)]
pub proof fn lemma_commands_in_order(v: RegistryView)
    requires
        v.reset_commands is Some,
    ensures
        run_actions(v).len() == v.reset_commands->0.len(),
        forall|i: int|
            0 <= i < run_actions(v).len() ==> #[trigger] run_actions(v)[i] == Action::RunCommand(
                i as usize,
            ),
        forall|j: int|
            0 <= j < reset_actions(v).len() && (#[trigger] reset_actions(v)[j]) is RunCommand ==> j
                + 1 < reset_actions(v).len() && reset_actions(v)[j + 1] == Action::Delay,
{
    let n = v.reset_commands->0.len() as int;
    assert(reset_actions(v) == phase_power(v) + phase_chip(v) + phase_companion(v) + phase_dac(v)
        + phase_commands(v));
    lemma_empty_filter(run_pred());
    lemma_levels_run_filter(phase_power(v));
    lemma_levels_run_filter(phase_chip(v));
    lemma_levels_run_filter(phase_companion(v));
    lemma_levels_run_filter(phase_dac(v));
    lemma_command_actions_run_filter(n);
    assert(run_actions(v) =~= Seq::new(n as nat, |i: int| Action::RunCommand(i as usize)));
    lemma_command_actions_elems(n);
    let pre = phase_power(v) + phase_chip(v) + phase_companion(v) + phase_dac(v);
    assert forall|j: int|
        0 <= j < reset_actions(v).len() && (#[trigger] reset_actions(v)[j]) is RunCommand implies j
        + 1 < reset_actions(v).len() && reset_actions(v)[j + 1] == Action::Delay by {
        assert(j >= pre.len());
        let k = j - pre.len();
        assert(command_actions(n)[k] is RunCommand);
        assert(k % 2 == 0);
        assert(k + 1 < 2 * n);
        assert(reset_actions(v)[j + 1] == command_actions(n)[k + 1]);
    }
}

/// Law: the reset sequence asks only for what was configured. Every level
/// action is on a configured signal, and every command action names a
/// position inside the stored command list, so a driver loop never has to
/// touch an absent line or a missing command.
pub proof fn lemma_plan_well_formed(v: RegistryView)
    ensures
        forall|k: int|
            0 <= k < reset_actions(v).len() ==> ((#[trigger] reset_actions(v)[k]) matches
                Action::SetLevel(s, _) ==> v.configured(s)),
        forall|k: int|
            0 <= k < reset_actions(v).len() ==> ((#[trigger] reset_actions(v)[k]) matches
                Action::RunCommand(i) ==> v.reset_commands matches Some(cs) && (i as int)
                < cs.len()),
{
    assert(reset_actions(v) == phase_power(v) + phase_chip(v) + phase_companion(v) + phase_dac(v)
        + phase_commands(v));
    if v.reset_commands is Some {
        lemma_command_actions_elems(v.reset_commands->0.len() as int);
    }
}

} // verus!
