use vstd::prelude::*;

verus! {

/// Which pin of the controller feeds which line of the panel.
#[derive(Clone, Copy, Debug, PartialEq, Eq, Structural)]
pub struct Epd47PinConfig {
    /// The eight parallel data lines.
    pub data0: u8,
    pub data1: u8,
    pub data2: u8,
    pub data3: u8,
    pub data4: u8,
    pub data5: u8,
    pub data6: u8,
    pub data7: u8,
    /// Serial data of the configuration register.
    pub cfg_data: u8,
    /// Shift clock of the configuration register.
    pub cfg_clk: u8,
    /// Strobe of the configuration register.
    pub cfg_str: u8,
    /// Data/command select of the parallel bus.
    pub lcd_dc: u8,
    /// Write strobe of the parallel bus.
    pub lcd_wrx: u8,
    /// The line that carries the waveform pulses.
    pub rmt: u8,
}

impl Epd47PinConfig {
    /// The pins in the order of the fields.
    pub open spec fn pins(self) -> Seq<u8> {
        seq![
            self.data0,
            self.data1,
            self.data2,
            self.data3,
            self.data4,
            self.data5,
            self.data6,
            self.data7,
            self.cfg_data,
            self.cfg_clk,
            self.cfg_str,
            self.lcd_dc,
            self.lcd_wrx,
            self.rmt,
        ]
    }

    /// Whether no pin serves two lines.
    pub open spec fn distinct(self) -> bool {
        forall|i: int, j: int|
            0 <= i < j < self.pins().len() ==> self.pins()[i] != self.pins()[j]
    }
}

/// The fixed pin assignment of the board.
pub open spec fn board_pins() -> Epd47PinConfig {
    Epd47PinConfig {
        data0: 6,
        data1: 7,
        data2: 4,
        data3: 5,
        data4: 2,
        data5: 3,
        data6: 8,
        data7: 1,
        cfg_data: 13,
        cfg_clk: 12,
        cfg_str: 0,
        lcd_dc: 40,
        lcd_wrx: 41,
        rmt: 38,
    }
}

/// The pin assignment of the board. No pin is used twice.
pub fn init_epd47_pins() -> (pins: Epd47PinConfig)
    ensures
        pins == board_pins(),
        pins.distinct(),
{
    Epd47PinConfig {
        data0: 6,
        data1: 7,
        data2: 4,
        data3: 5,
        data4: 2,
        data5: 3,
        data6: 8,
        data7: 1,
        cfg_data: 13,
        cfg_clk: 12,
        cfg_str: 0,
        lcd_dc: 40,
        lcd_wrx: 41,
        rmt: 38,
    }
}

} // verus!
