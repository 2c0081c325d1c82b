use vstd::prelude::*;

verus! {

/// Why an operation of the engine was refused or failed.
#[derive(Clone, Copy, Debug, PartialEq, Eq, Structural)]
pub enum Epd47Error {
    /// A pixel or rectangle lies outside the panel.
    OutOfBounds,
    /// A gray level above 15 was given.
    InvalidColor,
    /// The operation needs the panel to be powered on.
    Hardware,
    /// The board reported that a line, register or pulse operation failed.
    PeripheralFailure { code: i32 },
    /// A pulse command was acknowledged while the channel was not in the
    /// state that command needs.
    ChannelOwnership,
}

} // verus!
