use crate::command::Command;
use crate::config::{lemma_byte_round_trip, write_config_register, write_ops, ConfigState};
use crate::panel::{lemma_after_concat, lemma_after_one, lemma_write_commits, PanelState};
use vstd::prelude::*;

verus! {

/// Time for the primary power rail to settle, in milliseconds.
pub const POWER_SETTLE_MS: u32 = 10;

/// Time for the drive voltages to settle, in milliseconds.
pub const VOLTAGE_SETTLE_MS: u32 = 20;

/// Time for the output drivers to settle, in milliseconds.
pub const OUTPUT_SETTLE_MS: u32 = 5;

/// The power state of the panel, as the register's outputs show it.
#[derive(Clone, Copy, Debug, PartialEq, Eq, Structural)]
pub enum PowerState {
    /// Every rail and the outputs are disabled.
    Off,
    /// Some are enabled and some are not: a power sequence was begun and
    /// not finished.
    Sequencing,
    /// Power, both drive voltages and the outputs are enabled.
    On,
}

/// One step of a power sequence: the state to write to the register, and
/// how long to wait afterwards.
#[derive(Clone, Copy, Debug, PartialEq, Eq, Structural)]
pub struct PowerStep {
    pub intent: ConfigState,
    pub settle_ms: u32,
}

/// The power state that goes with what the register enables.
pub open spec fn spec_power_state(rails: ConfigState) -> PowerState {
    if rails.spec_is_on() {
        PowerState::On
    } else if rails.spec_is_off() {
        PowerState::Off
    } else {
        PowerState::Sequencing
    }
}

/// The steps that power the panel up from `from`: the power rail first,
/// then both drive voltages, then the outputs.
pub open spec fn power_up_steps(from: ConfigState) -> Seq<PowerStep> {
    let powered = from.spec_with_power(true);
    let driven = powered.spec_with_voltages(true, true);
    let enabled = driven.spec_with_output_enable(true);
    seq![
        PowerStep { intent: powered, settle_ms: POWER_SETTLE_MS },
        PowerStep { intent: driven, settle_ms: VOLTAGE_SETTLE_MS },
        PowerStep { intent: enabled, settle_ms: OUTPUT_SETTLE_MS },
    ]
}

/// The steps that power the panel down from `from`: the outputs first,
/// then both drive voltages, then the power rail.
pub open spec fn power_down_steps(from: ConfigState) -> Seq<PowerStep> {
    let silenced = from.spec_with_output_enable(false);
    let undriven = silenced.spec_with_voltages(false, false);
    let unpowered = undriven.spec_with_power(false);
    seq![
        PowerStep { intent: silenced, settle_ms: OUTPUT_SETTLE_MS },
        PowerStep { intent: undriven, settle_ms: VOLTAGE_SETTLE_MS },
        PowerStep { intent: unpowered, settle_ms: POWER_SETTLE_MS },
    ]
}

/// The commands of one step: one register write of the full byte, then the
/// wait.
pub open spec fn step_ops(step: PowerStep) -> Seq<Command> {
    write_ops(step.intent.spec_byte()) + seq![Command::Settle { millis: step.settle_ms }]
}

/// The commands of a sequence of steps, in order.
pub open spec fn sequence_ops(steps: Seq<PowerStep>) -> Seq<Command>
    decreases steps.len(),
{
    if steps.len() == 0 {
        Seq::empty()
    } else {
        sequence_ops(steps.drop_last()) + step_ops(steps.last())
    }
}

/// The commands that power the panel on: none if it is on already.
pub open spec fn power_on_ops(rails: ConfigState) -> Seq<Command> {
    if rails.spec_is_on() {
        Seq::empty()
    } else {
        sequence_ops(power_up_steps(rails))
    }
}

/// The commands that power the panel off: none if it is off already.
pub open spec fn power_off_ops(rails: ConfigState) -> Seq<Command> {
    if rails.spec_is_off() {
        Seq::empty()
    } else {
        sequence_ops(power_down_steps(rails))
    }
}

/// The power state that goes with what the register enables.
#[verifier::when_used_as_spec(spec_power_state)]
pub fn power_state(rails: ConfigState) -> (state: PowerState)
    ensures
        state == spec_power_state(rails),
{
    if rails.is_on() {
        PowerState::On
    } else if rails.is_off() {
        PowerState::Off
    } else {
        PowerState::Sequencing
    }
}

/// The steps that power the panel up from `from`.
pub fn power_up_sequence(from: ConfigState) -> (steps: Vec<PowerStep>)
    ensures
        steps@ == power_up_steps(from),
{
    let powered: ConfigState = from.with_power(true);
    let driven: ConfigState = powered.with_voltages(true, true);
    let enabled: ConfigState = driven.with_output_enable(true);
    let mut steps: Vec<PowerStep> = Vec::new();
    steps.push(PowerStep { intent: powered, settle_ms: POWER_SETTLE_MS });
    steps.push(PowerStep { intent: driven, settle_ms: VOLTAGE_SETTLE_MS });
    steps.push(PowerStep { intent: enabled, settle_ms: OUTPUT_SETTLE_MS });
    proof {
        assert(steps@ =~= power_up_steps(from));
    }
    steps
}

/// The steps that power the panel down from `from`.
pub fn power_down_sequence(from: ConfigState) -> (steps: Vec<PowerStep>)
    ensures
        steps@ == power_down_steps(from),
{
    let silenced: ConfigState = from.with_output_enable(false);
    let undriven: ConfigState = silenced.with_voltages(false, false);
    let unpowered: ConfigState = undriven.with_power(false);
    let mut steps: Vec<PowerStep> = Vec::new();
    steps.push(PowerStep { intent: silenced, settle_ms: OUTPUT_SETTLE_MS });
    steps.push(PowerStep { intent: undriven, settle_ms: VOLTAGE_SETTLE_MS });
    steps.push(PowerStep { intent: unpowered, settle_ms: POWER_SETTLE_MS });
    proof {
        assert(steps@ =~= power_down_steps(from));
    }
    steps
}

/// Turns a sequence of steps into the commands that carry it out.
pub fn sequence_commands(steps: &Vec<PowerStep>) -> (plan: Vec<Command>)
    ensures
        plan@ == sequence_ops(steps@),
{
    let mut plan: Vec<Command> = Vec::new();
    let mut i: usize = 0;
    while i < steps.len()
        invariant
            i <= steps@.len(),
            plan@ == sequence_ops(steps@.take(i as int)),
        decreases steps@.len() - i,
    {
        let step: PowerStep = steps[i];
        let mut write: Vec<Command> = write_config_register(step.intent.byte());
        plan.append(&mut write);
        plan.push(Command::Settle { millis: step.settle_ms });
        proof {
            let done = steps@.take(i as int + 1);
            assert(done.drop_last() =~= steps@.take(i as int));
            assert(done.last() == step);
            assert(plan@ =~= sequence_ops(steps@.take(i as int)) + step_ops(step));
        }
        i = i + 1;
    }
    proof {
        assert(steps@.take(steps@.len() as int) =~= steps@);
    }
    plan
}

/// Plans powering the panel on from what the register enables now.
pub fn power_on_commands(rails: ConfigState) -> (plan: Vec<Command>)
    ensures
        plan@ == power_on_ops(rails),
{
    if rails.is_on() {
        Vec::new()
    } else {
        let steps: Vec<PowerStep> = power_up_sequence(rails);
        sequence_commands(&steps)
    }
}

/// Plans powering the panel off from what the register enables now.
pub fn power_off_commands(rails: ConfigState) -> (plan: Vec<Command>)
    ensures
        plan@ == power_off_ops(rails),
{
    if rails.is_off() {
        Vec::new()
    } else {
        let steps: Vec<PowerStep> = power_down_sequence(rails);
        sequence_commands(&steps)
    }
}

/// One step leaves the register's outputs at the step's state.
pub proof fn lemma_step_commits(panel: PanelState, step: PowerStep)
    ensures
        panel.accepts(step_ops(step)),
        panel.after(step_ops(step)).channel == panel.channel,
        panel.after(step_ops(step)).rails() == step.intent,
{
    let write = write_ops(step.intent.spec_byte());
    let settle = Command::Settle { millis: step.settle_ms };
    lemma_write_commits(panel, step.intent.spec_byte());
    lemma_after_concat(panel, write, seq![settle]);
    lemma_after_one(panel.after(write), settle);
    lemma_byte_round_trip(step.intent);
}

/// A sequence of steps leaves the register's outputs at the state of its
/// last step, does not touch the channel, and is accepted throughout.
pub proof fn lemma_sequence_commits(panel: PanelState, steps: Seq<PowerStep>)
    requires
        steps.len() > 0,
    ensures
        panel.accepts(sequence_ops(steps)),
        panel.after(sequence_ops(steps)).channel == panel.channel,
        panel.after(sequence_ops(steps)).rails() == steps.last().intent,
    decreases steps.len(),
{
    let before = sequence_ops(steps.drop_last());
    if steps.len() > 1 {
        lemma_sequence_commits(panel, steps.drop_last());
    }
    lemma_after_concat(panel, before, step_ops(steps.last()));
    lemma_step_commits(panel.after(before), steps.last());
}

/// Powering on ends with the panel on, whatever the register enabled
/// before, and a second power-on right after asks for no command at all.
pub proof fn lemma_power_on_settles(panel: PanelState)
    ensures
        panel.accepts(power_on_ops(panel.rails())),
        panel.after(power_on_ops(panel.rails())).channel == panel.channel,
        spec_power_state(panel.after(power_on_ops(panel.rails())).rails()) == PowerState::On,
        power_on_ops(panel.after(power_on_ops(panel.rails())).rails()) == Seq::<Command>::empty(),
{
    if !panel.rails().spec_is_on() {
        lemma_sequence_commits(panel, power_up_steps(panel.rails()));
    }
}

/// Powering off ends with the panel off, whatever the register enabled
/// before, and a second power-off right after asks for no command at all.
pub proof fn lemma_power_off_settles(panel: PanelState)
    ensures
        panel.accepts(power_off_ops(panel.rails())),
        panel.after(power_off_ops(panel.rails())).channel == panel.channel,
        spec_power_state(panel.after(power_off_ops(panel.rails())).rails()) == PowerState::Off,
        power_off_ops(panel.after(power_off_ops(panel.rails())).rails()) == Seq::<Command>::empty(),
{
    if !panel.rails().spec_is_off() {
        lemma_sequence_commits(panel, power_down_steps(panel.rails()));
    }
}

/// The state the register is in before step `index` of powering up from
/// off.
pub open spec fn state_before_up_step(index: int) -> ConfigState {
    if index <= 0 {
        ConfigState::spec_off()
    } else {
        power_up_steps(ConfigState::spec_off())[index - 1].intent
    }
}

/// Powering down is powering up in reverse: step `i` of the way down waits
/// as long as the step it undoes on the way up, and leaves the register in
/// the state that step found it in.
pub proof fn lemma_power_down_mirrors_up(i: int)
    requires
        0 <= i < 3,
    ensures
        power_up_steps(ConfigState::spec_off()).len() == 3,
        power_down_steps(ConfigState::spec_on()).len() == 3,
        power_up_steps(ConfigState::spec_off()).last().intent == ConfigState::spec_on(),
        power_down_steps(ConfigState::spec_on())[i].settle_ms == power_up_steps(
            ConfigState::spec_off(),
        )[2 - i].settle_ms,
        power_down_steps(ConfigState::spec_on())[i].intent == state_before_up_step(2 - i),
{
}

} // verus!
