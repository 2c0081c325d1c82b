use lilygo_epd47::command::{Command, ConfigLine, Outcome};
use lilygo_epd47::config::write_config_register;
use lilygo_epd47::display::Epd47Display;
use lilygo_epd47::error::Epd47Error;
use lilygo_epd47::geometry::{Pixel, Point, Rectangle, Size};
use lilygo_epd47::panel::PanelState;
use lilygo_epd47::pins::init_epd47_pins;
use lilygo_epd47::power::PowerState;
use lilygo_epd47::pulse::ChannelSlot;
use lilygo_epd47::waveform::DrawMode;

fn engine() -> Epd47Display {
    Epd47Display::new(init_epd47_pins())
}

fn carry_out(display: &mut Epd47Display, plan: &[Command]) -> Result<(), Epd47Error> {
    for command in plan {
        display.acknowledge(*command, Outcome::Done)?;
    }
    Ok(())
}

fn register_writes(plan: &[Command]) -> usize {
    plan.iter()
        .filter(|c| **c == Command::SetLine { line: ConfigLine::Strobe, high: true })
        .count()
}

#[test]
fn new_engine_is_off_white_and_without_channel() {
    let display = engine();
    assert_eq!(display.power_state(), PowerState::Off);
    assert_eq!(display.panel_state(), PanelState::new(38));
    assert_eq!(display.panel_state().channel.slot, ChannelSlot::Absent);
    assert_eq!(display.pins(), init_epd47_pins());
    assert!(display.framebuffer().as_bytes().iter().all(|b| *b == 0xFF));
}

#[test]
fn engine_reports_the_panel_dimensions() {
    let display = engine();
    assert_eq!(display.width(), 960);
    assert_eq!(display.height(), 540);
    assert_eq!(display.size(), Size { width: 960, height: 540 });
    assert_eq!(display.bounding_box(), Rectangle { x: 0, y: 0, width: 960, height: 540 });
}

#[test]
fn init_sets_the_lines_and_writes_zero() {
    let mut display = engine();
    let plan = display.init_config_registers();
    let mut expected = vec![
        Command::SetLine { line: ConfigLine::Data, high: false },
        Command::SetLine { line: ConfigLine::Clock, high: true },
        Command::SetLine { line: ConfigLine::Strobe, high: false },
    ];
    expected.extend(write_config_register(0x00));
    assert_eq!(plan, expected);
    assert_eq!(carry_out(&mut display, &plan), Ok(()));
    assert_eq!(display.power_state(), PowerState::Off);
    assert_eq!(display.panel_state().register.latched, 0x00);
}

#[test]
fn single_register_writes_keep_the_other_flags() {
    let mut display = engine();
    assert_eq!(display.set_config_power(true), write_config_register(0x04));
    assert_eq!(display.set_config_voltages(true, true), write_config_register(0x18));
    assert_eq!(display.set_config_output_enable(true), write_config_register(0x01));
    let plan = display.set_config_power(true);
    carry_out(&mut display, &plan).unwrap();
    assert_eq!(display.set_config_voltages(true, true), write_config_register(0x1C));
    assert_eq!(display.set_config_voltages(true, false), write_config_register(0x0C));
    assert_eq!(display.set_config_output_enable(true), write_config_register(0x05));
    assert_eq!(display.set_config_power(false), write_config_register(0x00));
    let plan = display.set_config_voltages(true, true);
    carry_out(&mut display, &plan).unwrap();
    assert_eq!(display.set_config_output_enable(true), write_config_register(0x1D));
    assert_eq!(display.set_config_output_enable(false), write_config_register(0x1C));
    assert_eq!(display.set_config_power(false), write_config_register(0x18));
}

#[test]
fn power_on_then_again_writes_nothing_more() {
    let mut display = engine();
    let first = display.power_on();
    assert_eq!(register_writes(&first), 3);
    assert_eq!(carry_out(&mut display, &first), Ok(()));
    assert_eq!(display.power_state(), PowerState::On);
    let second = display.power_on();
    assert!(second.is_empty());
}

#[test]
fn power_off_then_again_writes_nothing_more() {
    let mut display = engine();
    assert!(display.power_off().is_empty());
    let on = display.power_on();
    carry_out(&mut display, &on).unwrap();
    let first = display.power_off();
    assert_eq!(register_writes(&first), 3);
    assert_eq!(carry_out(&mut display, &first), Ok(()));
    assert_eq!(display.power_state(), PowerState::Off);
    assert!(display.power_off().is_empty());
}

#[test]
fn flush_while_off_fails_and_keeps_the_frame() {
    let mut display = engine();
    display.set_pixel(3, 4, 5).unwrap();
    let before = display.framebuffer().as_bytes().clone();
    for mode in [DrawMode::BlackOnWhite, DrawMode::WhiteOnBlack, DrawMode::WhiteOnWhite] {
        assert_eq!(display.flush(mode), Err(Epd47Error::Hardware));
    }
    assert_eq!(display.framebuffer().as_bytes(), &before);
    assert_eq!(display.panel_state(), PanelState::new(38));
}

#[test]
fn flush_while_sequencing_fails() {
    let mut display = engine();
    let plan = display.power_on();
    carry_out(&mut display, &plan[..54]).unwrap();
    assert_eq!(display.power_state(), PowerState::Sequencing);
    assert_eq!(display.flush(DrawMode::BlackOnWhite), Err(Epd47Error::Hardware));
}

#[test]
fn flush_after_power_off_fails_again() {
    let mut display = engine();
    let on = display.power_on();
    carry_out(&mut display, &on).unwrap();
    assert!(display.flush(DrawMode::BlackOnWhite).is_ok());
    let off = display.power_off();
    carry_out(&mut display, &off).unwrap();
    assert_eq!(display.flush(DrawMode::BlackOnWhite), Err(Epd47Error::Hardware));
}

#[test]
fn rectangle_flush_and_repair_run_through() {
    let mut display = engine();
    let init = display.init_config_registers();
    assert_eq!(carry_out(&mut display, &init), Ok(()));
    let on = display.power_on();
    assert_eq!(carry_out(&mut display, &on), Ok(()));
    assert_eq!(
        display.fill_rect(Rectangle { x: 200, y: 200, width: 100, height: 50 }, 8),
        Ok(())
    );
    assert_eq!(display.get_pixel(200, 200), Ok(8));
    assert_eq!(display.get_pixel(299, 249), Ok(8));
    assert_eq!(display.get_pixel(300, 249), Ok(0xF));
    assert_eq!(display.get_pixel(299, 250), Ok(0xF));
    assert_eq!(display.get_pixel(199, 200), Ok(0xF));
    let frame = display.framebuffer().as_bytes().clone();
    let flush = display.flush(DrawMode::BlackOnWhite).unwrap();
    assert_eq!(flush.len(), 35);
    assert_eq!(carry_out(&mut display, &flush), Ok(()));
    assert_eq!(display.power_state(), PowerState::On);
    let repair = display.repair();
    assert_eq!(carry_out(&mut display, &repair), Ok(()));
    assert_eq!(display.power_state(), PowerState::Off);
    assert_eq!(display.panel_state().channel.slot, ChannelSlot::Present);
    assert_eq!(display.framebuffer().as_bytes(), &frame);
}

#[test]
fn repair_from_off_powers_itself() {
    let mut display = engine();
    let repair = display.repair();
    assert_eq!(register_writes(&repair), 6);
    assert_eq!(carry_out(&mut display, &repair), Ok(()));
    assert_eq!(display.power_state(), PowerState::Off);
    assert!(display.framebuffer().as_bytes().iter().all(|b| *b == 0xFF));
}

#[test]
fn clear_does_not_need_power() {
    let mut display = engine();
    display.fill(0x0).unwrap();
    assert_eq!(display.clear(), Ok(()));
    assert_eq!(display.get_pixel(0, 0), Ok(0xF));
    assert_eq!(display.get_pixel(959, 539), Ok(0xF));
    assert!(display.framebuffer().as_bytes().iter().all(|b| *b == 0xFF));
    assert_eq!(display.power_state(), PowerState::Off);
}

#[test]
fn engine_set_pixel_validates_like_the_buffer() {
    let mut display = engine();
    assert_eq!(display.set_pixel(959, 539, 15), Ok(()));
    assert_eq!(display.set_pixel(960, 539, 15), Err(Epd47Error::OutOfBounds));
    assert_eq!(display.set_pixel(959, 540, 15), Err(Epd47Error::OutOfBounds));
    assert_eq!(display.set_pixel(0, 0, 16), Err(Epd47Error::InvalidColor));
    assert_eq!(display.set_pixel(960, 0, 16), Err(Epd47Error::OutOfBounds));
    assert_eq!(display.get_pixel(960, 0), Err(Epd47Error::OutOfBounds));
    assert_eq!(display.fill(16), Err(Epd47Error::InvalidColor));
    assert!(display.framebuffer().as_bytes().iter().all(|b| *b == 0xFF));
}

#[test]
fn drawing_over_the_edge_draws_what_is_on_the_panel() {
    let mut display = engine();
    let mut pixels = Vec::new();
    for y in 535..545 {
        for x in -5..5 {
            pixels.push(Pixel { point: Point { x, y }, luma: 2 });
        }
    }
    assert_eq!(display.draw_iter(&pixels), Ok(()));
    for y in 0..540u32 {
        for x in 0..960u32 {
            let drawn = x < 5 && y >= 535;
            assert_eq!(display.get_pixel(x, y), Ok(if drawn { 2 } else { 0xF }));
        }
    }
}

#[test]
fn drawing_an_invalid_level_aborts_the_stream() {
    let mut display = engine();
    let pixels = vec![
        Pixel { point: Point { x: 0, y: 0 }, luma: 1 },
        Pixel { point: Point { x: 2000, y: 0 }, luma: 77 },
        Pixel { point: Point { x: 1, y: 0 }, luma: 77 },
        Pixel { point: Point { x: 2, y: 0 }, luma: 1 },
    ];
    assert_eq!(display.draw_iter(&pixels), Err(Epd47Error::InvalidColor));
    assert_eq!(display.get_pixel(0, 0), Ok(1));
    assert_eq!(display.get_pixel(1, 0), Ok(0xF));
    assert_eq!(display.get_pixel(2, 0), Ok(0xF));
}

#[test]
fn engine_pulse_follows_the_channel() {
    let mut display = engine();
    let first = display.pulse(45, 5, false);
    assert_eq!(first.len(), 2);
    carry_out(&mut display, &first).unwrap();
    assert_eq!(display.panel_state().channel.slot, ChannelSlot::InFlight);
    let second = display.pulse(45, 5, true);
    assert_eq!(second.len(), 3);
    carry_out(&mut display, &second).unwrap();
    assert_eq!(display.panel_state().channel.slot, ChannelSlot::Present);
    assert_eq!(display.pulse(45, 5, false).len(), 1);
}

#[test]
fn acknowledge_reports_a_failure_and_stops_short() {
    let mut display = engine();
    let plan = display.power_on();
    carry_out(&mut display, &plan[..80]).unwrap();
    assert_eq!(display.power_state(), PowerState::On);
    let mut display = engine();
    carry_out(&mut display, &plan[..79]).unwrap();
    assert_eq!(
        display.acknowledge(plan[79], Outcome::Failed { code: -1 }),
        Err(Epd47Error::PeripheralFailure { code: -1 })
    );
    assert_eq!(display.power_state(), PowerState::Sequencing);
    assert_eq!(display.flush(DrawMode::BlackOnWhite), Err(Epd47Error::Hardware));
}

#[test]
fn acknowledge_refuses_a_transmit_without_the_channel() {
    let mut display = engine();
    let plan = display.pulse(10, 10, false);
    assert_eq!(
        display.acknowledge(plan[1], Outcome::Done),
        Err(Epd47Error::ChannelOwnership)
    );
    assert_eq!(display.panel_state().channel.slot, ChannelSlot::Absent);
}

#[test]
fn acknowledge_leaves_the_frame_alone() {
    let mut display = engine();
    display.set_pixel(1, 1, 1).unwrap();
    let before = display.framebuffer().as_bytes().clone();
    let plan = display.repair();
    carry_out(&mut display, &plan).unwrap();
    assert_eq!(display.framebuffer().as_bytes(), &before);
}
