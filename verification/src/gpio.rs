//! The signal lines that can carry the bus, as types.
//!
//! A value of a pin type stands for that pin switched to the mode that the
//! type parameter names. Whoever programs the pin multiplexer makes the value:
//! the types carry the claim and do not test the hardware. A value cannot be
//! copied, so a pin that has been handed over is no longer in the giver's hand.

use vstd::prelude::*;

verus! {

/// Alternate function 0.
pub struct AF0;

/// Mode of a pin that is handed to a peripheral, under its alternate function.
pub struct Alternate<AF> {
    /// The alternate function.
    pub function: AF,
}

/// Pin 5 of port A.
pub struct PA5<MODE> {
    /// The mode the pin is in.
    pub mode: MODE,
}

/// Pin 6 of port A.
pub struct PA6<MODE> {
    /// The mode the pin is in.
    pub mode: MODE,
}

/// Pin 7 of port A.
pub struct PA7<MODE> {
    /// The mode the pin is in.
    pub mode: MODE,
}

/// Pin 2 of port B.
pub struct PB2<MODE> {
    /// The mode the pin is in.
    pub mode: MODE,
}

/// Pin 4 of port B.
pub struct PB4<MODE> {
    /// The mode the pin is in.
    pub mode: MODE,
}

/// Pin 5 of port B.
pub struct PB5<MODE> {
    /// The mode the pin is in.
    pub mode: MODE,
}

} // verus!
