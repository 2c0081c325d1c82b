use crate::command::{Command, ConfigLine};
use vstd::prelude::*;

verus! {

/// Register bit that enables the panel's output drivers.
pub const OUTPUT_ENABLE_BIT: u8 = 0x01;

/// Register bit that enables the primary power rail.
pub const POWER_ENABLE_BIT: u8 = 0x04;

/// Register bit that enables the positive drive voltage.
pub const POSITIVE_VOLTAGE_BIT: u8 = 0x08;

/// Register bit that enables the negative drive voltage.
pub const NEGATIVE_VOLTAGE_BIT: u8 = 0x10;

/// The value of one flag inside the register byte.
pub open spec fn flag(enabled: bool, bit: u8) -> u8 {
    if enabled {
        bit
    } else {
        0
    }
}

/// What the configuration register is meant to enable.
#[derive(Clone, Copy, Debug, PartialEq, Eq, Structural)]
pub struct ConfigState {
    pub output_enable: bool,
    pub power: bool,
    pub positive_voltage: bool,
    pub negative_voltage: bool,
}

impl ConfigState {
    /// The register byte for this state: each enabled flag contributes its
    /// bit, every other bit is zero.
    pub open spec fn spec_byte(self) -> u8 {
        (flag(self.output_enable, OUTPUT_ENABLE_BIT) + flag(self.power, POWER_ENABLE_BIT) + flag(
            self.positive_voltage,
            POSITIVE_VOLTAGE_BIT,
        ) + flag(self.negative_voltage, NEGATIVE_VOLTAGE_BIT)) as u8
    }

    /// The state that a register byte enables; bits without a meaning are
    /// ignored.
    pub open spec fn spec_from_byte(byte: u8) -> ConfigState {
        ConfigState {
            output_enable: byte & OUTPUT_ENABLE_BIT != 0,
            power: byte & POWER_ENABLE_BIT != 0,
            positive_voltage: byte & POSITIVE_VOLTAGE_BIT != 0,
            negative_voltage: byte & NEGATIVE_VOLTAGE_BIT != 0,
        }
    }

    /// Everything disabled.
    pub open spec fn spec_off() -> ConfigState {
        ConfigState {
            output_enable: false,
            power: false,
            positive_voltage: false,
            negative_voltage: false,
        }
    }

    /// Everything enabled.
    pub open spec fn spec_on() -> ConfigState {
        ConfigState {
            output_enable: true,
            power: true,
            positive_voltage: true,
            negative_voltage: true,
        }
    }

    pub open spec fn spec_with_power(self, enable: bool) -> ConfigState {
        ConfigState {
            output_enable: self.output_enable,
            power: enable,
            positive_voltage: self.positive_voltage,
            negative_voltage: self.negative_voltage,
        }
    }

    pub open spec fn spec_with_voltages(self, positive: bool, negative: bool) -> ConfigState {
        ConfigState {
            output_enable: self.output_enable,
            power: self.power,
            positive_voltage: positive,
            negative_voltage: negative,
        }
    }

    pub open spec fn spec_with_output_enable(self, enable: bool) -> ConfigState {
        ConfigState {
            output_enable: enable,
            power: self.power,
            positive_voltage: self.positive_voltage,
            negative_voltage: self.negative_voltage,
        }
    }

    pub open spec fn spec_is_on(self) -> bool {
        self == ConfigState::spec_on()
    }

    pub open spec fn spec_is_off(self) -> bool {
        self == ConfigState::spec_off()
    }

    /// Everything disabled: the state of a panel that is off.
    #[verifier::when_used_as_spec(spec_off)]
    pub fn off() -> (state: ConfigState)
        ensures
            state == ConfigState::spec_off(),
    {
        ConfigState {
            output_enable: false,
            power: false,
            positive_voltage: false,
            negative_voltage: false,
        }
    }

    /// Everything enabled: the state of a panel that is on.
    #[verifier::when_used_as_spec(spec_on)]
    pub fn on() -> (state: ConfigState)
        ensures
            state == ConfigState::spec_on(),
    {
        ConfigState {
            output_enable: true,
            power: true,
            positive_voltage: true,
            negative_voltage: true,
        }
    }

    /// Whether every flag is enabled.
    #[verifier::when_used_as_spec(spec_is_on)]
    pub fn is_on(self) -> (on: bool)
        ensures
            on == self.spec_is_on(),
    {
        self.output_enable && self.power && self.positive_voltage && self.negative_voltage
    }

    /// Whether every flag is disabled.
    #[verifier::when_used_as_spec(spec_is_off)]
    pub fn is_off(self) -> (off: bool)
        ensures
            off == self.spec_is_off(),
    {
        !self.output_enable && !self.power && !self.positive_voltage && !self.negative_voltage
    }

    /// This state with the power rail switched; the other flags stay.
    #[verifier::when_used_as_spec(spec_with_power)]
    pub fn with_power(self, enable: bool) -> (state: ConfigState)
        ensures
            state == self.spec_with_power(enable),
    {
        ConfigState {
            output_enable: self.output_enable,
            power: enable,
            positive_voltage: self.positive_voltage,
            negative_voltage: self.negative_voltage,
        }
    }

    /// This state with the two drive voltages switched; the other flags stay.
    #[verifier::when_used_as_spec(spec_with_voltages)]
    pub fn with_voltages(self, positive: bool, negative: bool) -> (state: ConfigState)
        ensures
            state == self.spec_with_voltages(positive, negative),
    {
        ConfigState {
            output_enable: self.output_enable,
            power: self.power,
            positive_voltage: positive,
            negative_voltage: negative,
        }
    }

    /// This state with the output drivers switched; the other flags stay.
    #[verifier::when_used_as_spec(spec_with_output_enable)]
    pub fn with_output_enable(self, enable: bool) -> (state: ConfigState)
        ensures
            state == self.spec_with_output_enable(enable),
    {
        ConfigState {
            output_enable: enable,
            power: self.power,
            positive_voltage: self.positive_voltage,
            negative_voltage: self.negative_voltage,
        }
    }

    /// Builds the full register byte from this state.
    #[verifier::when_used_as_spec(spec_byte)]
    pub fn byte(self) -> (byte: u8)
        ensures
            byte == self.spec_byte(),
    {
        let mut config: u8 = 0x00;
        if self.output_enable {
            config |= OUTPUT_ENABLE_BIT;
        }
        let with_output: u8 = config;
        if self.power {
            config |= POWER_ENABLE_BIT;
        }
        let with_power: u8 = config;
        if self.positive_voltage {
            config |= POSITIVE_VOLTAGE_BIT;
        }
        let with_positive: u8 = config;
        if self.negative_voltage {
            config |= NEGATIVE_VOLTAGE_BIT;
        }
        proof {
            assert(0x00u8 | 0x01u8 == 0x01u8) by (bit_vector);
            assert(with_output <= 0x01 ==> with_output | 0x04u8 == with_output + 0x04) by (bit_vector);
            assert(with_power <= 0x05 ==> with_power | 0x08u8 == with_power + 0x08) by (bit_vector);
            assert(with_positive <= 0x0D ==> with_positive | 0x10u8 == with_positive + 0x10)
                by (bit_vector);
        }
        config
    }

    /// Reads the state back from a register byte.
    #[verifier::when_used_as_spec(spec_from_byte)]
    pub fn from_byte(byte: u8) -> (state: ConfigState)
        ensures
            state == ConfigState::spec_from_byte(byte),
    {
        ConfigState {
            output_enable: byte & OUTPUT_ENABLE_BIT != 0,
            power: byte & POWER_ENABLE_BIT != 0,
            positive_voltage: byte & POSITIVE_VOLTAGE_BIT != 0,
            negative_voltage: byte & NEGATIVE_VOLTAGE_BIT != 0,
        }
    }
}

/// The register byte loses nothing: reading a state's byte back gives the
/// state, and the byte has no bit set beyond the four flags.
pub proof fn lemma_byte_round_trip(state: ConfigState)
    ensures
        ConfigState::spec_from_byte(state.spec_byte()) == state,
        state.spec_byte() & 0xE2 == 0,
        state.spec_byte() <= 0x1D,
{
    let a: u8 = flag(state.output_enable, OUTPUT_ENABLE_BIT);
    let b: u8 = flag(state.power, POWER_ENABLE_BIT);
    let c: u8 = flag(state.positive_voltage, POSITIVE_VOLTAGE_BIT);
    let d: u8 = flag(state.negative_voltage, NEGATIVE_VOLTAGE_BIT);
    let byte: u8 = (a + b + c + d) as u8;
    assert(byte == state.spec_byte());
    assert(((a + b + c + d) as u8 & 0x01 != 0) == (a != 0) && ((a + b + c + d) as u8 & 0x04 != 0)
        == (b != 0) && ((a + b + c + d) as u8 & 0x08 != 0) == (c != 0) && ((a + b + c + d) as u8
        & 0x10 != 0) == (d != 0) && ((a + b + c + d) as u8 & 0xE2 == 0)) by (bit_vector)
        requires
            a == 0 || a == 0x01,
            b == 0 || b == 0x04,
            c == 0 || c == 0x08,
            d == 0 || d == 0x10,
    ;
}

/// Switching one flag never loses another: the byte built after a change
/// still carries every other flag as the state held it before.
pub proof fn lemma_flags_persist(state: ConfigState, enable: bool, positive: bool, negative: bool)
    ensures
        ConfigState::spec_from_byte(state.spec_with_output_enable(enable).spec_byte()) == (
        ConfigState {
            output_enable: enable,
            power: state.power,
            positive_voltage: state.positive_voltage,
            negative_voltage: state.negative_voltage,
        }),
        ConfigState::spec_from_byte(state.spec_with_power(enable).spec_byte()) == (ConfigState {
            output_enable: state.output_enable,
            power: enable,
            positive_voltage: state.positive_voltage,
            negative_voltage: state.negative_voltage,
        }),
        ConfigState::spec_from_byte(state.spec_with_voltages(positive, negative).spec_byte()) == (
        ConfigState {
            output_enable: state.output_enable,
            power: state.power,
            positive_voltage: positive,
            negative_voltage: negative,
        }),
{
    lemma_byte_round_trip(state.spec_with_output_enable(enable));
    lemma_byte_round_trip(state.spec_with_power(enable));
    lemma_byte_round_trip(state.spec_with_voltages(positive, negative));
}

/// The shift register after one more bit came in: the old bits move up by
/// one place, the oldest falls out, the new bit becomes the lowest.
pub open spec fn shifted(shift: u8, bit: bool) -> u8 {
    ((shift % 128) * 2 + flag(bit, 1)) as u8
}

/// The bit of `value` that is sent in place `position`, counted from the
/// most significant bit.
pub open spec fn bit_at(value: u8, position: int) -> bool {
    (value as int / pow2_of(7 - position)) % 2 == 1
}

/// Two to the power `exponent`, for the eight bit positions of a byte.
pub open spec fn pow2_of(exponent: int) -> int {
    if exponent <= 0 {
        1
    } else if exponent == 1 {
        2
    } else if exponent == 2 {
        4
    } else if exponent == 3 {
        8
    } else if exponent == 4 {
        16
    } else if exponent == 5 {
        32
    } else if exponent == 6 {
        64
    } else {
        128
    }
}

/// The shift register after the first `count` bits of `value` came in.
pub open spec fn shift_after(shift: u8, value: u8, count: nat) -> u8
    decreases count,
{
    if count == 0 {
        shift
    } else {
        shifted(shift_after(shift, value, (count - 1) as nat), bit_at(value, count - 1))
    }
}

/// Eight bits of `value`, most significant first, fill the shift register
/// with `value`, whatever it held before.
pub proof fn lemma_eight_bits_shift_value_in(shift: u8, value: u8)
    ensures
        shift_after(shift, value, 8) == value,
{
    reveal_with_fuel(shift_after, 9);
    let s0 = shift;
    let s1 = shift_after(shift, value, 1);
    let s2 = shift_after(shift, value, 2);
    let s3 = shift_after(shift, value, 3);
    let s4 = shift_after(shift, value, 4);
    let s5 = shift_after(shift, value, 5);
    let s6 = shift_after(shift, value, 6);
    let s7 = shift_after(shift, value, 7);
    let s8 = shift_after(shift, value, 8);
    let b0: u8 = flag(bit_at(value, 0), 1);
    let b1: u8 = flag(bit_at(value, 1), 1);
    let b2: u8 = flag(bit_at(value, 2), 1);
    let b3: u8 = flag(bit_at(value, 3), 1);
    let b4: u8 = flag(bit_at(value, 4), 1);
    let b5: u8 = flag(bit_at(value, 5), 1);
    let b6: u8 = flag(bit_at(value, 6), 1);
    let b7: u8 = flag(bit_at(value, 7), 1);
    assert(b0 == (value / 128) % 2);
    assert(b1 == (value / 64) % 2);
    assert(b2 == (value / 32) % 2);
    assert(b3 == (value / 16) % 2);
    assert(b4 == (value / 8) % 2);
    assert(b5 == (value / 4) % 2);
    assert(b6 == (value / 2) % 2);
    assert(b7 == value % 2);
    assert(s1 % 2 == value / 128) by (bit_vector)
        requires
            b0 == (value / 128) % 2,
            s1 == ((s0 % 128) * 2 + b0) as u8,
    ;
    assert(s2 % 4 == value / 64) by (bit_vector)
        requires
            s1 % 2 == value / 128,
            b1 == (value / 64) % 2,
            s2 == ((s1 % 128) * 2 + b1) as u8,
    ;
    assert(s3 % 8 == value / 32) by (bit_vector)
        requires
            s2 % 4 == value / 64,
            b2 == (value / 32) % 2,
            s3 == ((s2 % 128) * 2 + b2) as u8,
    ;
    assert(s4 % 16 == value / 16) by (bit_vector)
        requires
            s3 % 8 == value / 32,
            b3 == (value / 16) % 2,
            s4 == ((s3 % 128) * 2 + b3) as u8,
    ;
    assert(s5 % 32 == value / 8) by (bit_vector)
        requires
            s4 % 16 == value / 16,
            b4 == (value / 8) % 2,
            s5 == ((s4 % 128) * 2 + b4) as u8,
    ;
    assert(s6 % 64 == value / 4) by (bit_vector)
        requires
            s5 % 32 == value / 8,
            b5 == (value / 4) % 2,
            s6 == ((s5 % 128) * 2 + b5) as u8,
    ;
    assert(s7 % 128 == value / 2) by (bit_vector)
        requires
            s6 % 64 == value / 4,
            b6 == (value / 2) % 2,
            s7 == ((s6 % 128) * 2 + b6) as u8,
    ;
    assert(s8 == value) by (bit_vector)
        requires
            s7 % 128 == value / 2,
            b7 == value % 2,
            s8 == ((s7 % 128) * 2 + b7) as u8,
    ;
}

/// The wire-level state of the serial configuration register: the three
/// lines, the byte in the shift register and the byte on the outputs.
#[derive(Clone, Copy, Debug, PartialEq, Eq, Structural)]
pub struct ConfigRegister {
    pub data: bool,
    pub clock: bool,
    pub strobe: bool,
    /// The byte shifted in so far.
    pub shift: u8,
    /// The byte that the outputs carry: the last one committed by the strobe.
    pub latched: u8,
}

impl ConfigRegister {
    /// All lines low, nothing shifted in, every output disabled.
    pub open spec fn spec_new() -> ConfigRegister {
        ConfigRegister { data: false, clock: false, strobe: false, shift: 0, latched: 0 }
    }

    /// The register after a line was driven. A rising clock edge shifts the
    /// data line in; a rising strobe edge commits the shifted byte.
    pub open spec fn spec_drive(self, line: ConfigLine, high: bool) -> ConfigRegister {
        match line {
            ConfigLine::Data => ConfigRegister {
                data: high,
                clock: self.clock,
                strobe: self.strobe,
                shift: self.shift,
                latched: self.latched,
            },
            ConfigLine::Clock => ConfigRegister {
                data: self.data,
                clock: high,
                strobe: self.strobe,
                shift: if high && !self.clock {
                    shifted(self.shift, self.data)
                } else {
                    self.shift
                },
                latched: self.latched,
            },
            ConfigLine::Strobe => ConfigRegister {
                data: self.data,
                clock: self.clock,
                strobe: high,
                shift: self.shift,
                latched: if high && !self.strobe {
                    self.shift
                } else {
                    self.latched
                },
            },
        }
    }

    /// What the outputs enable.
    pub open spec fn spec_rails(self) -> ConfigState {
        ConfigState::spec_from_byte(self.latched)
    }

    /// The register as it is taken to be before the first command.
    #[verifier::when_used_as_spec(spec_new)]
    pub fn new() -> (register: ConfigRegister)
        ensures
            register == ConfigRegister::spec_new(),
    {
        ConfigRegister { data: false, clock: false, strobe: false, shift: 0, latched: 0 }
    }

    /// Records that a line was driven.
    pub fn drive(&mut self, line: ConfigLine, high: bool)
        ensures
            *final(self) == old(self).spec_drive(line, high),
    {
        match line {
            ConfigLine::Data => {
                self.data = high;
            },
            ConfigLine::Clock => {
                if high && !self.clock {
                    let incoming: u8 = if self.data {
                        1
                    } else {
                        0
                    };
                    let before: u8 = self.shift;
                    assert((before << 1) | incoming == ((before % 128) * 2 + incoming) as u8)
                        by (bit_vector)
                        requires
                            incoming <= 1,
                    ;
                    self.shift = (before << 1) | incoming;
                }
                self.clock = high;
            },
            ConfigLine::Strobe => {
                if high && !self.strobe {
                    self.latched = self.shift;
                }
                self.strobe = high;
            },
        }
    }

    /// What the outputs enable.
    #[verifier::when_used_as_spec(spec_rails)]
    pub fn rails(self) -> (state: ConfigState)
        ensures
            state == self.spec_rails(),
    {
        ConfigState::from_byte(self.latched)
    }
}

/// The three commands that shift one bit in: clock low, data, clock high.
pub open spec fn bit_ops(bit: bool) -> Seq<Command> {
    seq![
        Command::SetLine { line: ConfigLine::Clock, high: false },
        Command::SetLine { line: ConfigLine::Data, high: bit },
        Command::SetLine { line: ConfigLine::Clock, high: true },
    ]
}

/// The commands that shift the first `count` bits of `value` in, most
/// significant bit first.
pub open spec fn shift_ops(value: u8, count: nat) -> Seq<Command>
    decreases count,
{
    if count == 0 {
        Seq::empty()
    } else {
        shift_ops(value, (count - 1) as nat) + bit_ops(bit_at(value, count - 1))
    }
}

/// The commands of one register write: strobe low, the eight bits, strobe
/// high.
pub open spec fn write_ops(value: u8) -> Seq<Command> {
    seq![Command::SetLine { line: ConfigLine::Strobe, high: false }] + shift_ops(value, 8)
        + seq![Command::SetLine { line: ConfigLine::Strobe, high: true }]
}

/// Whether the bit in place `position` (0 is the most significant) of
/// `value` is set.
fn bit_is_set(value: u8, position: u8) -> (set: bool)
    requires
        position < 8,
    ensures
        set == bit_at(value, position as int),
{
    let place: u8 = 7 - position;
    let bit: u8 = (value >> place) & 0x01;
    proof {
        assert(((value >> place) & 0x01 == 1) == ((value / (1u8 << place)) % 2 == 1))
            by (bit_vector)
            requires
                place < 8,
        ;
        assert(1u8 << 0u8 == 1 && 1u8 << 1u8 == 2 && 1u8 << 2u8 == 4 && 1u8 << 3u8 == 8 && 1u8
            << 4u8 == 16 && 1u8 << 5u8 == 32 && 1u8 << 6u8 == 64 && 1u8 << 7u8 == 128)
            by (bit_vector);
    }
    bit == 1
}

/// Plans one write of the configuration register: the line changes that
/// shift `value` out, most significant bit first, and commit it.
pub fn write_config_register(value: u8) -> (plan: Vec<Command>)
    ensures
        plan@ == write_ops(value),
{
    let mut plan: Vec<Command> = Vec::new();
    plan.push(Command::SetLine { line: ConfigLine::Strobe, high: false });
    let ghost start: Seq<Command> = plan@;
    let mut i: u8 = 0;
    while i < 8
        invariant
            i <= 8,
            start == seq![Command::SetLine { line: ConfigLine::Strobe, high: false }],
            plan@ == start + shift_ops(value, i as nat),
        decreases 8 - i,
    {
        let bit: bool = bit_is_set(value, i);
        plan.push(Command::SetLine { line: ConfigLine::Clock, high: false });
        plan.push(Command::SetLine { line: ConfigLine::Data, high: bit });
        plan.push(Command::SetLine { line: ConfigLine::Clock, high: true });
        proof {
            assert(plan@ =~= start + (shift_ops(value, i as nat) + bit_ops(bit)));
        }
        i = i + 1;
    }
    plan.push(Command::SetLine { line: ConfigLine::Strobe, high: true });
    plan
}

} // verus!
