use lilygo_epd47::command::{Command, ConfigLine};
use lilygo_epd47::config::{
    write_config_register, ConfigRegister, ConfigState, NEGATIVE_VOLTAGE_BIT, OUTPUT_ENABLE_BIT,
    POSITIVE_VOLTAGE_BIT, POWER_ENABLE_BIT,
};

fn line(line: ConfigLine, high: bool) -> Command {
    Command::SetLine { line, high }
}

fn expected_write(bits: [bool; 8]) -> Vec<Command> {
    let mut plan = vec![line(ConfigLine::Strobe, false)];
    for bit in bits {
        plan.push(line(ConfigLine::Clock, false));
        plan.push(line(ConfigLine::Data, bit));
        plan.push(line(ConfigLine::Clock, true));
    }
    plan.push(line(ConfigLine::Strobe, true));
    plan
}

fn drive_all(register: &mut ConfigRegister, plan: &[Command]) {
    for command in plan {
        match command {
            Command::SetLine { line, high } => register.drive(*line, *high),
            other => panic!("a register write holds {:?}", other),
        }
    }
}

fn all_states() -> Vec<ConfigState> {
    let mut states = Vec::new();
    for bits in 0u8..16 {
        states.push(ConfigState {
            output_enable: bits & 1 != 0,
            power: bits & 2 != 0,
            positive_voltage: bits & 4 != 0,
            negative_voltage: bits & 8 != 0,
        });
    }
    states
}

#[test]
fn register_bits_have_their_places() {
    assert_eq!(OUTPUT_ENABLE_BIT, 0b0000_0001);
    assert_eq!(POWER_ENABLE_BIT, 0b0000_0100);
    assert_eq!(POSITIVE_VOLTAGE_BIT, 0b0000_1000);
    assert_eq!(NEGATIVE_VOLTAGE_BIT, 0b0001_0000);
}

#[test]
fn byte_of_the_states_of_a_power_up() {
    let off = ConfigState::off();
    assert_eq!(off.byte(), 0x00);
    let powered = off.with_power(true);
    assert_eq!(powered.byte(), 0x04);
    let driven = powered.with_voltages(true, true);
    assert_eq!(driven.byte(), 0x1C);
    let enabled = driven.with_output_enable(true);
    assert_eq!(enabled.byte(), 0x1D);
    assert_eq!(enabled, ConfigState::on());
    assert_eq!(ConfigState::on().byte(), 0x1D);
}

#[test]
fn byte_of_single_flags() {
    assert_eq!(ConfigState::off().with_output_enable(true).byte(), 0x01);
    assert_eq!(ConfigState::off().with_voltages(true, false).byte(), 0x08);
    assert_eq!(ConfigState::off().with_voltages(false, true).byte(), 0x10);
}

#[test]
fn enabling_output_keeps_the_rails_as_they_were() {
    for state in all_states() {
        let byte = state.with_output_enable(true).byte();
        assert_eq!(byte & 0x01, 0x01);
        assert_eq!(byte & 0x1C, state.byte() & 0x1C);
        assert_eq!(byte & 0xE2, 0);
    }
    assert_eq!(ConfigState::off().with_power(true).with_output_enable(true).byte(), 0x05);
}

#[test]
fn switching_a_flag_keeps_every_other_flag() {
    for state in all_states() {
        for enable in [false, true] {
            let powered = ConfigState::from_byte(state.with_power(enable).byte());
            assert_eq!(powered.power, enable);
            assert_eq!(powered.output_enable, state.output_enable);
            assert_eq!(powered.positive_voltage, state.positive_voltage);
            assert_eq!(powered.negative_voltage, state.negative_voltage);
            let driven = ConfigState::from_byte(state.with_voltages(enable, !enable).byte());
            assert_eq!(driven.positive_voltage, enable);
            assert_eq!(driven.negative_voltage, !enable);
            assert_eq!(driven.power, state.power);
            assert_eq!(driven.output_enable, state.output_enable);
        }
    }
}

#[test]
fn byte_reads_back_as_the_state() {
    for state in all_states() {
        assert_eq!(ConfigState::from_byte(state.byte()), state);
    }
}

#[test]
fn from_byte_ignores_bits_without_a_meaning() {
    assert_eq!(ConfigState::from_byte(0xE2), ConfigState::off());
    assert_eq!(ConfigState::from_byte(0xFF), ConfigState::on());
    assert_eq!(ConfigState::from_byte(0x06), ConfigState::off().with_power(true));
}

#[test]
fn on_and_off_are_told_apart() {
    assert!(ConfigState::on().is_on());
    assert!(!ConfigState::on().is_off());
    assert!(ConfigState::off().is_off());
    assert!(!ConfigState::off().is_on());
    let partly = ConfigState::off().with_power(true);
    assert!(!partly.is_on());
    assert!(!partly.is_off());
}

#[test]
fn write_shifts_the_most_significant_bit_first() {
    let plan = write_config_register(0x04);
    assert_eq!(plan.len(), 26);
    assert_eq!(
        plan,
        expected_write([false, false, false, false, false, true, false, false])
    );
    let plan = write_config_register(0x1D);
    assert_eq!(
        plan,
        expected_write([false, false, false, true, true, true, false, true])
    );
    let plan = write_config_register(0x80);
    assert_eq!(
        plan,
        expected_write([true, false, false, false, false, false, false, false])
    );
}

#[test]
fn write_begins_with_strobe_low_and_ends_with_strobe_high() {
    for value in [0x00u8, 0x1D, 0xA5, 0xFF] {
        let plan = write_config_register(value);
        assert_eq!(plan[0], line(ConfigLine::Strobe, false));
        assert_eq!(plan[25], line(ConfigLine::Strobe, true));
        for bit in 0..8 {
            assert_eq!(plan[1 + 3 * bit], line(ConfigLine::Clock, false));
            assert_eq!(plan[3 + 3 * bit], line(ConfigLine::Clock, true));
        }
    }
}

#[test]
fn write_commits_every_byte() {
    for value in 0u8..=255 {
        let mut register = ConfigRegister::new();
        drive_all(&mut register, &write_config_register(value));
        assert_eq!(register.latched, value);
        assert_eq!(register.shift, value);
        assert!(register.strobe);
        assert!(register.clock);
    }
}

#[test]
fn write_commits_whatever_the_register_held() {
    let mut register = ConfigRegister {
        data: true,
        clock: true,
        strobe: true,
        shift: 0xFF,
        latched: 0x5A,
    };
    drive_all(&mut register, &write_config_register(0x1C));
    assert_eq!(register.latched, 0x1C);
    drive_all(&mut register, &write_config_register(0x04));
    assert_eq!(register.latched, 0x04);
    assert_eq!(register.rails(), ConfigState::off().with_power(true));
}

#[test]
fn outputs_change_only_at_the_strobe() {
    let mut register = ConfigRegister::new();
    drive_all(&mut register, &write_config_register(0x1D));
    let plan = write_config_register(0x00);
    drive_all(&mut register, &plan[..25]);
    assert_eq!(register.latched, 0x1D);
    assert_eq!(register.shift, 0x00);
    drive_all(&mut register, &plan[25..]);
    assert_eq!(register.latched, 0x00);
}

#[test]
fn clock_shifts_on_the_rising_edge_only() {
    let mut register = ConfigRegister::new();
    register.drive(ConfigLine::Data, true);
    register.drive(ConfigLine::Clock, true);
    assert_eq!(register.shift, 0x01);
    register.drive(ConfigLine::Clock, true);
    assert_eq!(register.shift, 0x01);
    register.drive(ConfigLine::Clock, false);
    assert_eq!(register.shift, 0x01);
    register.drive(ConfigLine::Data, false);
    register.drive(ConfigLine::Clock, true);
    assert_eq!(register.shift, 0x02);
}

#[test]
fn shifting_drops_the_oldest_bit() {
    let mut register = ConfigRegister {
        data: true,
        clock: false,
        strobe: false,
        shift: 0xC0,
        latched: 0,
    };
    register.drive(ConfigLine::Clock, true);
    assert_eq!(register.shift, 0x81);
}

#[test]
fn strobe_commits_on_the_rising_edge_only() {
    let mut register = ConfigRegister {
        data: false,
        clock: false,
        strobe: true,
        shift: 0x1D,
        latched: 0x00,
    };
    register.drive(ConfigLine::Strobe, true);
    assert_eq!(register.latched, 0x00);
    register.drive(ConfigLine::Strobe, false);
    assert_eq!(register.latched, 0x00);
    register.drive(ConfigLine::Strobe, true);
    assert_eq!(register.latched, 0x1D);
}
