use crate::command::{ChannelConfig, Command, Outcome, PulseCode};
use crate::error::Epd47Error;
use vstd::prelude::*;

verus! {

/// Source clock of the pulse transmitter, in MHz.
pub const PULSE_CLOCK_MHZ: u32 = 80;

/// Divider applied to the source clock: one tick lasts a tenth of a
/// microsecond.
pub const PULSE_CLOCK_DIVIDER: u8 = 8;

/// Where the transmitter's channel is.
#[derive(Clone, Copy, Debug, PartialEq, Eq, Structural)]
pub enum ChannelSlot {
    /// Nobody holds the channel: it was never acquired, or it was lost.
    Absent,
    /// The driver holds the channel and can start a transmission.
    Present,
    /// The channel went out with a transmission that was not waited for.
    InFlight,
}

/// The pulse transmitter of the panel: the pin it drives and the
/// whereabouts of its one channel.
#[derive(Clone, Copy, Debug, PartialEq, Eq, Structural)]
pub struct PulseChannel {
    pub pin: u8,
    pub slot: ChannelSlot,
}

/// The end-of-train marker.
pub open spec fn end_marker() -> PulseCode {
    PulseCode { level1: false, length1: 0, level2: false, length2: 0 }
}

/// The pulse entry for the given durations. With a high time, the line is
/// high for `high` ticks and then low for `low` ticks. Without one, the
/// high level is left out: the entry is a single low pulse of `low` ticks
/// with no second half.
pub open spec fn pulse_code(high: u16, low: u16) -> PulseCode {
    if high > 0 {
        PulseCode { level1: true, length1: high, level2: false, length2: low }
    } else {
        PulseCode { level1: false, length1: low, level2: false, length2: 0 }
    }
}

/// The transmitter setup for a pulse pin.
pub open spec fn channel_config(pin: u8) -> ChannelConfig {
    ChannelConfig {
        pin,
        clock_mhz: PULSE_CLOCK_MHZ,
        clk_divider: PULSE_CLOCK_DIVIDER,
        idle_output_level: false,
        idle_output: true,
        carrier_modulation: false,
        carrier_level: false,
    }
}

impl PulseChannel {
    /// The channel before its first use.
    pub open spec fn spec_new(pin: u8) -> PulseChannel {
        PulseChannel { pin, slot: ChannelSlot::Absent }
    }

    /// The commands that acquire the channel if the driver does not hold it;
    /// none if it does.
    pub open spec fn ensure_ops(self) -> Seq<Command> {
        if self.slot == ChannelSlot::Present {
            Seq::empty()
        } else {
            seq![Command::AcquireChannel { config: channel_config(self.pin) }]
        }
    }

    /// The commands of one pulse: acquire the channel if need be, transmit
    /// the pulse and the end marker, and wait if asked to.
    pub open spec fn pulse_ops(self, high: u16, low: u16, wait: bool) -> Seq<Command> {
        self.ensure_ops() + seq![
            Command::Transmit { pulse: pulse_code(high, low), end: end_marker() },
        ] + if wait {
            seq![Command::AwaitTransmit]
        } else {
            Seq::empty()
        }
    }

    /// Whether the channel is where `command` needs it: acquiring needs a
    /// channel that the driver does not hold, transmitting one that it holds,
    /// and waiting one that is out with a transmission.
    pub open spec fn admits(self, command: Command) -> bool {
        match command {
            Command::AcquireChannel { .. } => self.slot != ChannelSlot::Present,
            Command::Transmit { .. } => self.slot == ChannelSlot::Present,
            Command::AwaitTransmit => self.slot == ChannelSlot::InFlight,
            _ => true,
        }
    }

    /// The answer to a report on a channel command.
    pub open spec fn response(self, command: Command, outcome: Outcome) -> Result<
        (),
        Epd47Error,
    > {
        if !self.admits(command) {
            Err(Epd47Error::ChannelOwnership)
        } else {
            match outcome {
                Outcome::Done => Ok(()),
                Outcome::Failed { code } => Err(Epd47Error::PeripheralFailure { code }),
            }
        }
    }

    /// Where the channel is after a report on a channel command. A report
    /// that the channel does not admit changes nothing. A failed transmission
    /// or wait loses the channel.
    pub open spec fn next_slot(self, command: Command, outcome: Outcome) -> ChannelSlot {
        if !self.admits(command) {
            self.slot
        } else {
            match command {
                Command::AcquireChannel { .. } => match outcome {
                    Outcome::Done => ChannelSlot::Present,
                    Outcome::Failed { .. } => self.slot,
                },
                Command::Transmit { .. } => match outcome {
                    Outcome::Done => ChannelSlot::InFlight,
                    Outcome::Failed { .. } => ChannelSlot::Absent,
                },
                Command::AwaitTransmit => match outcome {
                    Outcome::Done => ChannelSlot::Present,
                    Outcome::Failed { .. } => ChannelSlot::Absent,
                },
                _ => self.slot,
            }
        }
    }

    /// The channel after a report on a channel command.
    pub open spec fn next(self, command: Command, outcome: Outcome) -> PulseChannel {
        PulseChannel { pin: self.pin, slot: self.next_slot(command, outcome) }
    }

    /// The channel of the transmitter on `pin`, before its first use.
    #[verifier::when_used_as_spec(spec_new)]
    pub fn new(pin: u8) -> (channel: PulseChannel)
        ensures
            channel == PulseChannel::spec_new(pin),
    {
        PulseChannel { pin, slot: ChannelSlot::Absent }
    }

    /// Plans what it takes to hold the channel: nothing if the driver holds
    /// it, else acquiring it with the fixed transmitter setup.
    pub fn ensure_channel(&self) -> (plan: Vec<Command>)
        ensures
            plan@ == self.ensure_ops(),
    {
        let mut plan: Vec<Command> = Vec::new();
        match self.slot {
            ChannelSlot::Present => {},
            _ => {
                plan.push(
                    Command::AcquireChannel {
                        config: ChannelConfig {
                            pin: self.pin,
                            clock_mhz: PULSE_CLOCK_MHZ,
                            clk_divider: PULSE_CLOCK_DIVIDER,
                            idle_output_level: false,
                            idle_output: true,
                            carrier_modulation: false,
                            carrier_level: false,
                        },
                    },
                );
            },
        }
        plan
    }

    /// Plans one pulse of `high` ticks high and `low` ticks low; with no
    /// high time, a pulse that stays low for `low` ticks.
    ///
    /// With `wait`, the plan ends by waiting for the transmission, which
    /// brings the channel back. Without it the channel stays out, and the
    /// next pulse has to acquire it again.
    pub fn pulse(&self, high: u16, low: u16, wait: bool) -> (plan: Vec<Command>)
        ensures
            plan@ == self.pulse_ops(high, low, wait),
    {
        let mut plan: Vec<Command> = self.ensure_channel();
        let pulse: PulseCode = if high > 0 {
            PulseCode { level1: true, length1: high, level2: false, length2: low }
        } else {
            PulseCode { level1: false, length1: low, level2: false, length2: 0 }
        };
        let end: PulseCode = PulseCode { level1: false, length1: 0, level2: false, length2: 0 };
        plan.push(Command::Transmit { pulse, end });
        if wait {
            plan.push(Command::AwaitTransmit);
        }
        proof {
            assert(plan@ =~= self.pulse_ops(high, low, wait));
        }
        plan
    }

    /// Takes the board's report on a command.
    ///
    /// A channel command that the channel does not admit is answered with
    /// `ChannelOwnership` and changes nothing, whatever the board reported. A
    /// failure of an admitted command is answered with `PeripheralFailure`.
    pub fn acknowledge(&mut self, command: Command, outcome: Outcome) -> (r: Result<
        (),
        Epd47Error,
    >)
        ensures
            r == old(self).response(command, outcome),
            *final(self) == old(self).next(command, outcome),
    {
        let admitted: bool = match command {
            Command::AcquireChannel { .. } => match self.slot {
                ChannelSlot::Present => false,
                _ => true,
            },
            Command::Transmit { .. } => match self.slot {
                ChannelSlot::Present => true,
                _ => false,
            },
            Command::AwaitTransmit => match self.slot {
                ChannelSlot::InFlight => true,
                _ => false,
            },
            _ => true,
        };
        if !admitted {
            return Err(Epd47Error::ChannelOwnership);
        }
        match outcome {
            Outcome::Done => {
                match command {
                    Command::AcquireChannel { .. } => {
                        self.slot = ChannelSlot::Present;
                    },
                    Command::Transmit { .. } => {
                        self.slot = ChannelSlot::InFlight;
                    },
                    Command::AwaitTransmit => {
                        self.slot = ChannelSlot::Present;
                    },
                    _ => {},
                }
                Ok(())
            },
            Outcome::Failed { code } => {
                match command {
                    Command::Transmit { .. } => {
                        self.slot = ChannelSlot::Absent;
                    },
                    Command::AwaitTransmit => {
                        self.slot = ChannelSlot::Absent;
                    },
                    _ => {},
                }
                Err(Epd47Error::PeripheralFailure { code })
            },
        }
    }
}

} // verus!
