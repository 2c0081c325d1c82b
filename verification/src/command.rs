use vstd::prelude::*;

verus! {

/// One of the three lines of the serial configuration register.
#[derive(Clone, Copy, Debug, PartialEq, Eq, Structural)]
pub enum ConfigLine {
    /// Serial data into the shift register.
    Data,
    /// Shift clock: a rising edge shifts the data line in.
    Clock,
    /// Strobe: a rising edge copies the shifted byte to the outputs.
    Strobe,
}

/// One entry of a pulse program: a level held for a number of ticks, then a
/// second level held for a number of ticks. An entry whose lengths are both
/// zero ends the train.
#[derive(Clone, Copy, Debug, PartialEq, Eq, Structural)]
pub struct PulseCode {
    pub level1: bool,
    pub length1: u16,
    pub level2: bool,
    pub length2: u16,
}

/// How the pulse transmitter is set up when the channel is acquired.
#[derive(Clone, Copy, Debug, PartialEq, Eq, Structural)]
pub struct ChannelConfig {
    /// The pin that carries the pulses.
    pub pin: u8,
    /// Source clock of the transmitter, in MHz.
    pub clock_mhz: u32,
    pub clk_divider: u8,
    pub idle_output_level: bool,
    pub idle_output: bool,
    pub carrier_modulation: bool,
    pub carrier_level: bool,
}

/// Something the engine asks the board to do.
#[derive(Clone, Copy, Debug, PartialEq, Eq, Structural)]
pub enum Command {
    /// Drive a configuration line high or low.
    SetLine { line: ConfigLine, high: bool },
    /// Wait so that the rails or the panel can settle.
    Settle { millis: u32 },
    /// Set up the pulse transmitter and take hold of its channel.
    AcquireChannel { config: ChannelConfig },
    /// Start sending a two-entry pulse program; the channel goes with it.
    Transmit { pulse: PulseCode, end: PulseCode },
    /// Block until the transmission is over and take the channel back.
    AwaitTransmit,
    /// Clock `rows` rows of the frame buffer, from `first_row` on, out on the
    /// parallel data lines.
    SendRows { first_row: u32, rows: u32 },
    /// Clock one gray level out for every pixel of the panel.
    SendSolid { level: u8 },
}

/// What the board reports after it tried a command.
#[derive(Clone, Copy, Debug, PartialEq, Eq, Structural)]
pub enum Outcome {
    /// The command was carried out.
    Done,
    /// The peripheral refused or failed, with its error code.
    Failed { code: i32 },
}

} // verus!
