use crate::command::{Command, ConfigLine, Outcome};
use crate::config::{write_config_register, write_ops, ConfigRegister};
use crate::error::Epd47Error;
use crate::framebuffer::{
    drawn, first_refused, in_bounds, pixel_index, rect_filled, solid, FrameBuffer, DISPLAY_HEIGHT,
    DISPLAY_WIDTH, WHITE,
};
use crate::geometry::{Pixel, Rectangle, Size};
use crate::panel::{lemma_after_concat, lemma_after_one, lemma_write_commits, PanelState};
use crate::pins::Epd47PinConfig;
use crate::power::{
    power_off_commands, power_off_ops, power_on_commands, power_on_ops, spec_power_state,
    PowerState,
};
use crate::waveform::{flush_commands, flush_ops, repair_commands, repair_ops, DrawMode};
use vstd::prelude::*;

verus! {

/// The commands that bring the configuration lines to a known state and
/// write a register with everything disabled.
pub open spec fn init_ops() -> Seq<Command> {
    seq![
        Command::SetLine { line: ConfigLine::Data, high: false },
        Command::SetLine { line: ConfigLine::Clock, high: true },
        Command::SetLine { line: ConfigLine::Strobe, high: false },
    ] + write_ops(0x00)
}

/// The engine of the panel: the frame buffer that drawing goes to, and what
/// is known of the board.
///
/// The engine performs no input or output. Its planning methods return the
/// commands that the board has to carry out, in order; the caller carries
/// each out and reports it with `acknowledge`, which is how the engine
/// learns of the state of the register and of the pulse channel.
pub struct Epd47Display {
    pins: Epd47PinConfig,
    framebuffer: FrameBuffer,
    panel: PanelState,
}

impl Epd47Display {
    /// The frame buffer.
    pub closed spec fn frame(&self) -> FrameBuffer {
        self.framebuffer
    }

    /// The gray level of every pixel of the frame buffer, in row-major
    /// order.
    pub open spec fn pixels(&self) -> Seq<u8> {
        self.frame()@
    }

    /// What is known of the board.
    pub closed spec fn panel(&self) -> PanelState {
        self.panel
    }

    /// The pin assignment the engine was made with.
    pub closed spec fn pin_config(&self) -> Epd47PinConfig {
        self.pins
    }

    /// The power state that the register's outputs show.
    pub open spec fn power(&self) -> PowerState {
        spec_power_state(self.panel().rails())
    }

    /// An engine for a panel that is off: the frame is white, the lines are
    /// low, and nobody holds the pulse channel.
    pub fn new(pins: Epd47PinConfig) -> (display: Epd47Display)
        ensures
            display.pixels() == solid(WHITE),
            display.panel() == PanelState::spec_new(pins.rmt),
            display.pin_config() == pins,
            display.power() == PowerState::Off,
    {
        let display = Epd47Display {
            pins,
            framebuffer: FrameBuffer::new(),
            panel: PanelState::new(pins.rmt),
        };
        proof {
            assert(0u8 & 0x01 == 0 && 0u8 & 0x04 == 0 && 0u8 & 0x08 == 0 && 0u8 & 0x10 == 0)
                by (bit_vector);
        }
        display
    }

    /// Panel width in pixels.
    pub fn width(&self) -> (width: u32)
        ensures
            width == DISPLAY_WIDTH,
    {
        DISPLAY_WIDTH
    }

    /// Panel height in pixels.
    pub fn height(&self) -> (height: u32)
        ensures
            height == DISPLAY_HEIGHT,
    {
        DISPLAY_HEIGHT
    }

    /// The dimensions of the panel.
    pub fn size(&self) -> (size: Size)
        ensures
            size == (Size { width: DISPLAY_WIDTH, height: DISPLAY_HEIGHT }),
    {
        Size { width: DISPLAY_WIDTH, height: DISPLAY_HEIGHT }
    }

    /// The rectangle of the whole panel.
    pub fn bounding_box(&self) -> (r: Rectangle)
        ensures
            r == Rectangle::spec_panel(),
    {
        Rectangle::panel()
    }

    /// The pin assignment the engine was made with.
    pub fn pins(&self) -> (pins: Epd47PinConfig)
        ensures
            pins == self.pin_config(),
    {
        self.pins
    }

    /// The frame buffer, for reading.
    pub fn framebuffer(&self) -> (fb: &FrameBuffer)
        ensures
            *fb == self.frame(),
    {
        &self.framebuffer
    }

    /// What is known of the board.
    pub fn panel_state(&self) -> (panel: PanelState)
        ensures
            panel == self.panel(),
    {
        self.panel
    }

    /// The power state that the register's outputs show.
    pub fn power_state(&self) -> (state: PowerState)
        ensures
            state == self.power(),
    {
        crate::power::power_state(self.panel.register.rails())
    }

    /// Plans the start-up of the configuration register: data low, clock
    /// high, strobe low, then a write with everything disabled.
    pub fn init_config_registers(&self) -> (plan: Vec<Command>)
        ensures
            plan@ == init_ops(),
    {
        let mut plan: Vec<Command> = Vec::new();
        plan.push(Command::SetLine { line: ConfigLine::Data, high: false });
        plan.push(Command::SetLine { line: ConfigLine::Clock, high: true });
        plan.push(Command::SetLine { line: ConfigLine::Strobe, high: false });
        let mut write: Vec<Command> = write_config_register(0x00);
        plan.append(&mut write);
        plan
    }

    /// Plans the register write that switches the power rail and keeps
    /// every other flag as the outputs carry it.
    pub fn set_config_power(&self, enable: bool) -> (plan: Vec<Command>)
        ensures
            plan@ == write_ops(self.panel().rails().spec_with_power(enable).spec_byte()),
    {
        write_config_register(self.panel.register.rails().with_power(enable).byte())
    }

    /// Plans the register write that switches the two drive voltages and
    /// keeps every other flag as the outputs carry it.
    pub fn set_config_voltages(&self, pos_enable: bool, neg_enable: bool) -> (plan: Vec<Command>)
        ensures
            plan@ == write_ops(
                self.panel().rails().spec_with_voltages(pos_enable, neg_enable).spec_byte(),
            ),
    {
        write_config_register(
            self.panel.register.rails().with_voltages(pos_enable, neg_enable).byte(),
        )
    }

    /// Plans the register write that switches the output drivers and keeps
    /// every other flag as the outputs carry it.
    pub fn set_config_output_enable(&self, enable: bool) -> (plan: Vec<Command>)
        ensures
            plan@ == write_ops(self.panel().rails().spec_with_output_enable(enable).spec_byte()),
    {
        write_config_register(self.panel.register.rails().with_output_enable(enable).byte())
    }

    /// Plans powering the panel on: nothing if it is on; else the power
    /// rail, both drive voltages and the outputs, each with its wait.
    pub fn power_on(&self) -> (plan: Vec<Command>)
        ensures
            plan@ == power_on_ops(self.panel().rails()),
            self.power() == PowerState::On ==> plan@.len() == 0,
    {
        power_on_commands(self.panel.register.rails())
    }

    /// Plans powering the panel off: nothing if it is off; else the
    /// outputs, both drive voltages and the power rail, each with its wait.
    pub fn power_off(&self) -> (plan: Vec<Command>)
        ensures
            plan@ == power_off_ops(self.panel().rails()),
            self.power() == PowerState::Off ==> plan@.len() == 0,
    {
        power_off_commands(self.panel.register.rails())
    }

    /// Sets every pixel to white. The board is not involved.
    pub fn clear(&mut self) -> (r: Result<(), Epd47Error>)
        ensures
            r == Ok::<(), Epd47Error>(()),
            final(self).pixels() == solid(WHITE),
            final(self).panel() == old(self).panel(),
            final(self).pin_config() == old(self).pin_config(),
    {
        self.framebuffer.clear();
        Ok(())
    }

    /// Sets every pixel to `level`. A level above 15 is refused and changes
    /// nothing.
    pub fn fill(&mut self, level: u8) -> (r: Result<(), Epd47Error>)
        ensures
            level > 15 ==> r == Err::<(), Epd47Error>(Epd47Error::InvalidColor) && *final(self)
                == *old(self),
            level <= 15 ==> r == Ok::<(), Epd47Error>(()) && final(self).pixels() == solid(level),
            final(self).panel() == old(self).panel(),
            final(self).pin_config() == old(self).pin_config(),
    {
        self.framebuffer.fill(level)
    }

    /// Stores `color` at pixel `(x, y)`.
    ///
    /// The coordinates are checked first, then the level. A refused write
    /// leaves the engine as it was; an accepted one changes that pixel alone.
    pub fn set_pixel(&mut self, x: u32, y: u32, color: u8) -> (r: Result<(), Epd47Error>)
        ensures
            !in_bounds(x, y) ==> r == Err::<(), Epd47Error>(Epd47Error::OutOfBounds),
            in_bounds(x, y) && color > 15 ==> r == Err::<(), Epd47Error>(Epd47Error::InvalidColor),
            in_bounds(x, y) && color <= 15 ==> r == Ok::<(), Epd47Error>(()),
            r is Err ==> *final(self) == *old(self),
            r is Ok ==> final(self).pixels() == old(self).pixels().update(
                pixel_index(x, y),
                color,
            ),
            final(self).panel() == old(self).panel(),
            final(self).pin_config() == old(self).pin_config(),
    {
        self.framebuffer.set_pixel(x, y, color)
    }

    /// Reads the level stored at pixel `(x, y)`.
    pub fn get_pixel(&self, x: u32, y: u32) -> (r: Result<u8, Epd47Error>)
        ensures
            in_bounds(x, y) ==> r == Ok::<u8, Epd47Error>(self.pixels()[pixel_index(x, y)]),
            !in_bounds(x, y) ==> r == Err::<u8, Epd47Error>(Epd47Error::OutOfBounds),
    {
        self.framebuffer.get_pixel(x, y)
    }

    /// Sets every pixel of `rect` to `level`.
    ///
    /// A rectangle that does not lie on the panel as a whole is refused,
    /// then a level above 15. A refused call changes nothing.
    pub fn fill_rect(&mut self, rect: Rectangle, level: u8) -> (r: Result<(), Epd47Error>)
        ensures
            !rect.spec_fits_panel() ==> r == Err::<(), Epd47Error>(Epd47Error::OutOfBounds),
            rect.spec_fits_panel() && level > 15 ==> r == Err::<(), Epd47Error>(
                Epd47Error::InvalidColor,
            ),
            rect.spec_fits_panel() && level <= 15 ==> r == Ok::<(), Epd47Error>(()),
            r is Err ==> *final(self) == *old(self),
            r is Ok ==> final(self).pixels() == rect_filled(old(self).pixels(), rect, level),
            final(self).panel() == old(self).panel(),
            final(self).pin_config() == old(self).pin_config(),
    {
        self.framebuffer.fill_rect(rect, level)
    }

    /// Draws a stream of pixels into the frame buffer, in order.
    ///
    /// A pixel off the panel is skipped, so that a drawing that reaches over
    /// the edge is drawn as far as it lies on the panel. A pixel on the panel
    /// with a level above 15 stops the drawing with `InvalidColor`; what was
    /// drawn before it stays.
    pub fn draw_iter(&mut self, pixels: &Vec<Pixel>) -> (r: Result<(), Epd47Error>)
        ensures
            first_refused(pixels@) == pixels@.len() ==> r == Ok::<(), Epd47Error>(()),
            first_refused(pixels@) < pixels@.len() ==> r == Err::<(), Epd47Error>(
                Epd47Error::InvalidColor,
            ),
            final(self).pixels() == drawn(
                old(self).pixels(),
                pixels@,
                first_refused(pixels@) as nat,
            ),
            final(self).panel() == old(self).panel(),
            final(self).pin_config() == old(self).pin_config(),
    {
        self.framebuffer.draw_iter(pixels)
    }

    /// Plans one pulse on the waveform line, from where the channel is now.
    pub fn pulse(&self, high: u16, low: u16, wait: bool) -> (plan: Vec<Command>)
        ensures
            plan@ == self.panel().channel.pulse_ops(high, low, wait),
    {
        self.panel.channel.pulse(high, low, wait)
    }

    /// Plans the transfer of the frame to the panel.
    ///
    /// The panel has to be on: in any other power state the flush is refused
    /// with `Hardware`. The frame buffer is read, never changed.
    pub fn flush(&self, mode: DrawMode) -> (r: Result<Vec<Command>, Epd47Error>)
        ensures
            self.power() != PowerState::On ==> r is Err && r->Err_0 == Epd47Error::Hardware,
            self.power() == PowerState::On ==> r is Ok && r->Ok_0@ == flush_ops(
                self.panel().channel,
                mode,
            ),
    {
        if !self.panel.register.rails().is_on() {
            return Err(Epd47Error::Hardware);
        }
        Ok(flush_commands(self.panel.channel, mode))
    }

    /// Plans a repair of the panel: power on if need be, the cycles of
    /// white and black passes, power off. The frame buffer is not involved.
    pub fn repair(&self) -> (plan: Vec<Command>)
        ensures
            plan@ == repair_ops(self.panel()),
    {
        repair_commands(self.panel)
    }

    /// Takes the board's report on a command, and moves what is known of
    /// the board accordingly. The frame buffer stays as it is.
    ///
    /// A failure is answered with `PeripheralFailure` and its code. A pulse
    /// command that the channel does not admit is answered with
    /// `ChannelOwnership`, whatever the board reported.
    pub fn acknowledge(&mut self, command: Command, outcome: Outcome) -> (r: Result<
        (),
        Epd47Error,
    >)
        ensures
            r == old(self).panel().response(command, outcome),
            final(self).panel() == old(self).panel().next(command, outcome),
            final(self).frame() == old(self).frame(),
            final(self).pin_config() == old(self).pin_config(),
    {
        self.panel.acknowledge(command, outcome)
    }
}

/// The start-up of the configuration register ends with every output
/// disabled, whatever the lines and the register held before, and leaves the
/// data line low and the clock and the strobe high.
pub proof fn lemma_init_settles(panel: PanelState)
    ensures
        panel.accepts(init_ops()),
        panel.after(init_ops()).channel == panel.channel,
        panel.after(init_ops()).register == (ConfigRegister {
            data: false,
            clock: true,
            strobe: true,
            shift: 0,
            latched: 0,
        }),
        spec_power_state(panel.after(init_ops()).rails()) == PowerState::Off,
{
    let data = Command::SetLine { line: ConfigLine::Data, high: false };
    let clock = Command::SetLine { line: ConfigLine::Clock, high: true };
    let strobe = Command::SetLine { line: ConfigLine::Strobe, high: false };
    let lines = seq![data] + seq![clock] + seq![strobe];
    assert(init_ops() =~= lines + write_ops(0x00));
    lemma_after_one(panel, data);
    lemma_after_concat(panel, seq![data], seq![clock]);
    lemma_after_one(panel.after(seq![data]), clock);
    lemma_after_concat(panel, seq![data] + seq![clock], seq![strobe]);
    lemma_after_one(panel.after(seq![data] + seq![clock]), strobe);
    lemma_after_concat(panel, lines, write_ops(0x00));
    lemma_write_commits(panel.after(lines), 0x00);
    assert(0u8 & 0x01 == 0 && 0u8 & 0x04 == 0 && 0u8 & 0x08 == 0 && 0u8 & 0x10 == 0)
        by (bit_vector);
}

} // verus!
