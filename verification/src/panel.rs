use crate::command::{Command, ConfigLine, Outcome};
use crate::config::{
    bit_at, bit_ops, lemma_eight_bits_shift_value_in, shift_after, shift_ops, shifted, write_ops,
    ConfigRegister, ConfigState,
};
use crate::error::Epd47Error;
use crate::pulse::{end_marker, pulse_code, ChannelSlot, PulseChannel};
use vstd::prelude::*;

verus! {

/// What the engine knows of the board: the configuration register and the
/// pulse channel, as the acknowledged commands left them.
#[derive(Clone, Copy, Debug, PartialEq, Eq, Structural)]
pub struct PanelState {
    pub register: ConfigRegister,
    pub channel: PulseChannel,
}

impl PanelState {
    /// The board before the first command.
    pub open spec fn spec_new(pulse_pin: u8) -> PanelState {
        PanelState { register: ConfigRegister::spec_new(), channel: PulseChannel::spec_new(pulse_pin) }
    }

    /// The answer to the board's report on `command`.
    pub open spec fn response(self, command: Command, outcome: Outcome) -> Result<(), Epd47Error> {
        self.channel.response(command, outcome)
    }

    /// The board after the report on `command`. A line that was driven
    /// moves the register; a channel command moves the channel; a failed
    /// line change, a wait and a transfer of pixels change nothing here.
    pub open spec fn next(self, command: Command, outcome: Outcome) -> PanelState {
        PanelState {
            register: match command {
                Command::SetLine { line, high } => match outcome {
                    Outcome::Done => self.register.spec_drive(line, high),
                    Outcome::Failed { .. } => self.register,
                },
                _ => self.register,
            },
            channel: self.channel.next(command, outcome),
        }
    }

    /// The board after every command of `plan` was carried out.
    pub open spec fn after(self, plan: Seq<Command>) -> PanelState
        decreases plan.len(),
    {
        if plan.len() == 0 {
            self
        } else {
            self.after(plan.drop_last()).next(plan.last(), Outcome::Done)
        }
    }

    /// Whether the board, carrying out `plan` without a failure, gets `Ok`
    /// for every report.
    pub open spec fn accepts(self, plan: Seq<Command>) -> bool
        decreases plan.len(),
    {
        if plan.len() == 0 {
            true
        } else {
            self.accepts(plan.drop_last()) && self.after(plan.drop_last()).response(
                plan.last(),
                Outcome::Done,
            ) is Ok
        }
    }

    /// What the register's outputs enable.
    pub open spec fn rails(self) -> ConfigState {
        self.register.spec_rails()
    }

    /// The board before the first command, with the pulse transmitter on
    /// `pulse_pin`.
    #[verifier::when_used_as_spec(spec_new)]
    pub fn new(pulse_pin: u8) -> (panel: PanelState)
        ensures
            panel == PanelState::spec_new(pulse_pin),
    {
        PanelState { register: ConfigRegister::new(), channel: PulseChannel::new(pulse_pin) }
    }

    /// Takes the board's report on a command it was asked to perform, and
    /// moves to the state that the report implies.
    pub fn acknowledge(&mut self, command: Command, outcome: Outcome) -> (r: Result<(), Epd47Error>)
        ensures
            r == old(self).response(command, outcome),
            *final(self) == old(self).next(command, outcome),
    {
        match command {
            Command::SetLine { line, high } => {
                match outcome {
                    Outcome::Done => {
                        self.register.drive(line, high);
                        Ok(())
                    },
                    Outcome::Failed { code } => Err(Epd47Error::PeripheralFailure { code }),
                }
            },
            _ => self.channel.acknowledge(command, outcome),
        }
    }
}

/// Carrying out two plans in a row is carrying out their concatenation.
pub proof fn lemma_after_concat(panel: PanelState, first: Seq<Command>, second: Seq<Command>)
    ensures
        panel.after(first + second) == panel.after(first).after(second),
        panel.accepts(first + second) == (panel.accepts(first) && panel.after(first).accepts(
            second,
        )),
    decreases second.len(),
{
    if second.len() == 0 {
        assert(first + second =~= first);
    } else {
        assert((first + second).drop_last() =~= first + second.drop_last());
        assert((first + second).last() == second.last());
        lemma_after_concat(panel, first, second.drop_last());
    }
}

/// Carrying out a plan of one command is one step.
pub proof fn lemma_after_one(panel: PanelState, command: Command)
    ensures
        panel.after(seq![command]) == panel.next(command, Outcome::Done),
        panel.accepts(seq![command]) == (panel.response(command, Outcome::Done) is Ok),
{
    let plan = seq![command];
    assert(plan.drop_last() =~= Seq::<Command>::empty());
    assert(plan.last() == command);
    assert(panel.after(plan.drop_last()) == panel);
    assert(panel.accepts(plan.drop_last()));
}

/// Shifting one bit in takes the three line changes, and every report on
/// them is accepted.
pub proof fn lemma_bit_ops(panel: PanelState, bit: bool)
    ensures
        panel.accepts(bit_ops(bit)),
        panel.after(bit_ops(bit)).channel == panel.channel,
        panel.after(bit_ops(bit)).register == (ConfigRegister {
            data: bit,
            clock: true,
            strobe: panel.register.strobe,
            shift: shifted(panel.register.shift, bit),
            latched: panel.register.latched,
        }),
{
    let low = Command::SetLine { line: ConfigLine::Clock, high: false };
    let data = Command::SetLine { line: ConfigLine::Data, high: bit };
    let high = Command::SetLine { line: ConfigLine::Clock, high: true };
    assert(bit_ops(bit) =~= seq![low] + seq![data] + seq![high]);
    lemma_after_one(panel, low);
    lemma_after_concat(panel, seq![low], seq![data]);
    let second = panel.after(seq![low]);
    lemma_after_one(second, data);
    lemma_after_concat(panel, seq![low] + seq![data], seq![high]);
    let third = second.after(seq![data]);
    lemma_after_one(third, high);
}

/// Shifting the first `count` bits of a byte in.
pub proof fn lemma_shift_ops(panel: PanelState, value: u8, count: nat)
    ensures
        panel.accepts(shift_ops(value, count)),
        panel.after(shift_ops(value, count)).channel == panel.channel,
        panel.after(shift_ops(value, count)).register.strobe == panel.register.strobe,
        panel.after(shift_ops(value, count)).register.latched == panel.register.latched,
        panel.after(shift_ops(value, count)).register.shift == shift_after(
            panel.register.shift,
            value,
            count,
        ),
        count > 0 ==> panel.after(shift_ops(value, count)).register.clock && panel.after(
            shift_ops(value, count),
        ).register.data == bit_at(value, count - 1),
    decreases count,
{
    if count > 0 {
        let before = shift_ops(value, (count - 1) as nat);
        lemma_shift_ops(panel, value, (count - 1) as nat);
        lemma_after_concat(panel, before, bit_ops(bit_at(value, count - 1)));
        lemma_bit_ops(panel.after(before), bit_at(value, count - 1));
    }
}

/// A register write commits its byte: after the commands of
/// `write_ops(value)` the outputs carry `value`, whatever the lines and the
/// register held before. The clock and the strobe are left high, the data
/// line at the last bit. The channel is not touched, and every report is
/// accepted.
pub proof fn lemma_write_commits(panel: PanelState, value: u8)
    ensures
        panel.accepts(write_ops(value)),
        panel.after(write_ops(value)).channel == panel.channel,
        panel.after(write_ops(value)).register == (ConfigRegister {
            data: bit_at(value, 7),
            clock: true,
            strobe: true,
            shift: value,
            latched: value,
        }),
{
    let open = Command::SetLine { line: ConfigLine::Strobe, high: false };
    let commit = Command::SetLine { line: ConfigLine::Strobe, high: true };
    let bits = shift_ops(value, 8);
    lemma_after_one(panel, open);
    let opened = panel.after(seq![open]);
    lemma_after_concat(panel, seq![open], bits);
    lemma_shift_ops(opened, value, 8);
    lemma_eight_bits_shift_value_in(opened.register.shift, value);
    let shifted_in = opened.after(bits);
    lemma_after_concat(panel, seq![open] + bits, seq![commit]);
    lemma_after_one(shifted_in, commit);
}

/// A pulse goes through from any channel state: every report on its
/// commands is accepted. A pulse that waits leaves the channel with the
/// driver; one that does not leaves it out with the transmission. The
/// register is not touched.
pub proof fn lemma_pulse_completes(panel: PanelState, high: u16, low: u16, wait: bool)
    ensures
        panel.accepts(panel.channel.pulse_ops(high, low, wait)),
        panel.after(panel.channel.pulse_ops(high, low, wait)).register == panel.register,
        panel.after(panel.channel.pulse_ops(high, low, wait)).channel == (PulseChannel {
            pin: panel.channel.pin,
            slot: if wait {
                ChannelSlot::Present
            } else {
                ChannelSlot::InFlight
            },
        }),
{
    let acquire = panel.channel.ensure_ops();
    let transmit = Command::Transmit { pulse: pulse_code(high, low), end: end_marker() };
    let tail = if wait {
        seq![Command::AwaitTransmit]
    } else {
        Seq::<Command>::empty()
    };
    if panel.channel.slot != ChannelSlot::Present {
        lemma_after_one(panel, acquire[0]);
        assert(acquire =~= seq![acquire[0]]);
    }
    let held = panel.after(acquire);
    lemma_after_concat(panel, acquire, seq![transmit]);
    lemma_after_one(held, transmit);
    let sent = held.after(seq![transmit]);
    lemma_after_concat(panel, acquire + seq![transmit], tail);
    if wait {
        lemma_after_one(sent, Command::AwaitTransmit);
    }
}

/// A failure never goes unreported: whatever the command, a report of
/// failure is answered with an error, which carries the board's code unless
/// the channel did not admit the command. The register stays as it was.
pub proof fn lemma_failure_is_reported(panel: PanelState, command: Command, code: i32)
    ensures
        panel.response(command, Outcome::Failed { code }) == Err::<(), Epd47Error>(
            Epd47Error::PeripheralFailure { code },
        ) || panel.response(command, Outcome::Failed { code }) == Err::<(), Epd47Error>(
            Epd47Error::ChannelOwnership,
        ),
        panel.channel.admits(command) ==> panel.response(command, Outcome::Failed { code })
            == Err::<(), Epd47Error>(Epd47Error::PeripheralFailure { code }),
        panel.next(command, Outcome::Failed { code }).register == panel.register,
{
}

} // verus!
